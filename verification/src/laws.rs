//! Properties of the library that span several functions.
use vstd::prelude::*;
use crate::provider_config_write::{
    provider_config_after, model_table_after, with_extra_headers, with_opt_bool, with_opt_string, ProviderModelWrite,
    provider_orders_after, model_orders_after, set_or_dropped, header_names, ensured_orders, table_written, set_orders,
    with_extra_headers_orders,
};
use crate::provider_presets::{preset_count, preset_table};
use crate::setup_wizard::state::{
    post_setup_notice_spec, next_cursor, next_focus_spec, env_export_needed_spec, session_env_export_spec,
    stored_key_warning_spec,
    prev_cursor, prev_focus_spec, probe_api_key_spec, same_except_text, stored_api_key_spec,
    text_of, validate_error_spec, write_error_spec, focus_position, focus_order_spec, EditFieldFocus, EditFieldsState,
    lemma_focus_position_bounds, lemma_focus_position_first,
    is_text_focus, collapse_spec, sanitize_spec, trim_start_char_spec, typed_text, cleared_phase, WizardView,
};
use crate::setup_wizard::validate::{
    opt_string_view, header_plan_spec, extra_headers_plan, request_key_spec, ValidateRequest,
};
use crate::models::DefaultModels;
use crate::text::{is_ascii_alphanumeric_spec, to_ascii_lowercase_spec, trim_end_char_spec, trim_spec};
use crate::unified_log::{
    pushed, LogForwarderView, ClientLogEntry, signed_timestamp_spec, reading_stamp_spec, chrono_utc_millis_text,
};
use crate::headers::header_entries;
use crate::toml_doc::{
    ensured, lemma_elsewhere, lemma_no_root, lemma_subtree_elsewhere, lemma_subtree_with_table_same,
    lemma_with_leaf_twice, lemma_with_table_self, has_table_at, no_root, lemma_with_leaf_under, lemma_with_table_under,
    lemma_without_key_under, starts_with_key, subtree, with_leaf, with_table, TomlNode,
    Orders, own_path, touched, lemma_orders_with_at, no_entries,
};

verus! {

/// Writing a provider model leaves every root item other than `auth`, `models` and
/// `model` (and everything under them) as it was.
pub proof fn law_config_write_preserves_unrelated(e: Map<Seq<Seq<char>>, TomlNode>, w: ProviderModelWrite, p: Seq<Seq<char>>)
    requires
        !starts_with_key(p, "auth"@),
        !starts_with_key(p, "models"@),
        !starts_with_key(p, "model"@),
    ensures
        provider_config_after(e, w).contains_key(p) == e.contains_key(p),
        e.contains_key(p) ==> provider_config_after(e, w)[p] == e[p],
{
}

/// `a` has at path `p` what `e` has there, or, like `e`, nothing.
pub open spec fn kept_at(e: Map<Seq<Seq<char>>, TomlNode>, a: Map<Seq<Seq<char>>, TomlNode>, p: Seq<Seq<char>>) -> bool {
    &&& a.contains_key(p) == e.contains_key(p)
    &&& e.contains_key(p) ==> a[p] == e[p]
}

/// The keys the write sets in the `[model.<catalog_id>]` table.
pub open spec fn written_model_key(k: Seq<char>) -> bool {
    ||| k == "model"@
    ||| k == "name"@
    ||| k == "base_url"@
    ||| k == "api_backend"@
    ||| k == "env_key"@
    ||| k == "api_key"@
    ||| k == "auth_not_required"@
    ||| k == "extra_headers"@
}

/// Writing a provider model keeps what it does not write inside the tables it writes
/// to, wherever those were tables: every item under `[auth]` but `preferred_method`,
/// under `[models]` but `default`, under `[model]` but the written model's table, and
/// inside `[model.<catalog_id>]` every item but the keys the write sets.
pub proof fn law_config_write_preserves_nested(e: Map<Seq<Seq<char>>, TomlNode>, w: ProviderModelWrite, q: Seq<Seq<char>>)
    requires
        q.len() > 0,
    ensures
        has_table_at(e, "auth"@) && q[0] != "preferred_method"@ ==> kept_at(e, provider_config_after(e, w), seq!["auth"@] + q),
        has_table_at(e, "models"@) && q[0] != "default"@ ==> kept_at(e, provider_config_after(e, w), seq!["models"@] + q),
        has_table_at(e, "model"@) && q[0] != w.catalog_id@ ==> kept_at(e, provider_config_after(e, w), seq!["model"@] + q),
        has_table_at(e, "model"@) && has_table_at(subtree(e, "model"@), w.catalog_id@) && !written_model_key(q[0])
            ==> kept_at(e, provider_config_after(e, w), seq!["model"@, w.catalog_id@] + q),
{
    reveal_strlit("auth");
    reveal_strlit("models");
    reveal_strlit("model");
    assert("auth"@ != "models"@) by { assert("auth"@.len() != "models"@.len()); }
    assert("auth"@ != "model"@) by { assert("auth"@.len() != "model"@.len()); }
    assert("models"@ != "model"@) by { assert("models"@.len() != "model"@.len()); }
    let cid = w.catalog_id@;
    let ea = ensured(e, "auth"@);
    let a2 = with_leaf(subtree(ea, "auth"@), "preferred_method"@, TomlNode::Str("api_key"@));
    let e1 = with_table(ea, "auth"@, a2);
    let em = ensured(e1, "models"@);
    let m2 = with_leaf(subtree(em, "models"@), "default"@, TomlNode::Str(cid));
    let e2 = with_table(em, "models"@, m2);
    let er = ensured(e2, "model"@);
    let mr = ensured(subtree(er, "model"@), cid);
    let t = model_table_after(subtree(mr, cid), w);
    let mr2 = with_table(mr, cid, t);
    let after = with_table(er, "model"@, mr2);
    assert(after == provider_config_after(e, w));
    lemma_subtree_elsewhere(e, "models"@, "auth"@);
    lemma_subtree_elsewhere(ea, "models"@, "auth"@);
    lemma_subtree_elsewhere(e, "model"@, "auth"@);
    lemma_subtree_elsewhere(ea, "model"@, "auth"@);
    lemma_subtree_elsewhere(e1, "model"@, "models"@);
    lemma_subtree_elsewhere(em, "model"@, "models"@);

    if has_table_at(e, "auth"@) && q[0] != "preferred_method"@ {
        let p = seq!["auth"@] + q;
        assert(p[0] == "auth"@);
        lemma_with_table_under(ea, "auth"@, a2, q);
        lemma_elsewhere(subtree(ea, "auth"@), "preferred_method"@, q);
        lemma_elsewhere(e1, "models"@, p);
        lemma_elsewhere(em, "models"@, p);
        lemma_elsewhere(e2, "model"@, p);
        lemma_elsewhere(er, "model"@, p);
    }
    if has_table_at(e, "models"@) && q[0] != "default"@ {
        let p = seq!["models"@] + q;
        assert(p[0] == "models"@);
        assert(subtree(em, "models"@) == subtree(e, "models"@));
        lemma_with_table_under(em, "models"@, m2, q);
        lemma_elsewhere(subtree(em, "models"@), "default"@, q);
        lemma_elsewhere(e2, "model"@, p);
        lemma_elsewhere(er, "model"@, p);
    }
    if has_table_at(e, "model"@) && q[0] != cid {
        let p = seq!["model"@] + q;
        assert(er == e2);
        assert(subtree(er, "model"@) == subtree(e, "model"@));
        lemma_with_table_under(er, "model"@, mr2, q);
        lemma_elsewhere(mr, cid, q);
        lemma_elsewhere(subtree(er, "model"@), cid, q);
    }
    if has_table_at(e, "model"@) && has_table_at(subtree(e, "model"@), cid) && !written_model_key(q[0]) {
        let p = seq!["model"@, cid] + q;
        let cq = seq![cid] + q;
        assert(p =~= seq!["model"@] + cq);
        assert(er == e2);
        assert(subtree(er, "model"@) == subtree(e, "model"@));
        assert(mr == subtree(e, "model"@));
        lemma_with_table_under(er, "model"@, mr2, cq);
        lemma_with_table_under(mr, cid, t, q);
        lemma_model_table_keeps(subtree(mr, cid), w, q);
    }
}

/// The `[model.<id>]` table after the write keeps every item under a key it does not
/// set.
proof fn lemma_model_table_keeps(t: Map<Seq<Seq<char>>, TomlNode>, w: ProviderModelWrite, q: Seq<Seq<char>>)
    requires
        q.len() > 0,
        !written_model_key(q[0]),
    ensures
        kept_at(t, model_table_after(t, w), q),
{
    let t1 = with_leaf(t, "model"@, TomlNode::Str(w.model@));
    let t2 = with_leaf(t1, "name"@, TomlNode::Str(w.name@));
    let t3 = with_leaf(t2, "base_url"@, TomlNode::Str(w.base_url@));
    let t4 = with_leaf(t3, "api_backend"@, TomlNode::Str(w.api_backend@));
    let t5 = with_opt_string(t4, "env_key"@, opt_string_view(w.env_key));
    let t6 = with_opt_string(t5, "api_key"@, opt_string_view(w.api_key));
    let t7 = with_opt_bool(t6, "auth_not_required"@, if w.auth_not_required { Some(true) } else { None });
    lemma_elsewhere(t, "model"@, q);
    lemma_elsewhere(t1, "name"@, q);
    lemma_elsewhere(t2, "base_url"@, q);
    lemma_elsewhere(t3, "api_backend"@, q);
    lemma_elsewhere(t4, "env_key"@, q);
    lemma_elsewhere(t5, "api_key"@, q);
    lemma_elsewhere(t6, "auth_not_required"@, q);
    lemma_elsewhere(t7, "extra_headers"@, q);
    lemma_elsewhere(ensured(t7, "extra_headers"@), "extra_headers"@, q);
    assert(model_table_after(t, w) == with_extra_headers(t7, header_entries(w.extra_headers)));
}

/// The slot order of the table under key `k` before the write: its own when there is
/// a table there, else none.
pub open spec fn start_order(e: Map<Seq<Seq<char>>, TomlNode>, o: Orders, k: Seq<char>) -> Seq<Seq<char>> {
    if has_table_at(e, k) {
        o[seq![k]]
    } else {
        Seq::empty()
    }
}

/// The slot order of a `[model.<id>]` table after the write, from the order `s` it had:
/// each key it sets keeps its slot or goes last, in the order the write sets them, and
/// each key it leaves out loses its slot.
pub open spec fn model_slot_order_after(s: Seq<Seq<char>>, w: ProviderModelWrite) -> Seq<Seq<char>> {
    let s1 = touched(s, "model"@);
    let s2 = touched(s1, "name"@);
    let s3 = touched(s2, "base_url"@);
    let s4 = touched(s3, "api_backend"@);
    let s5 = set_or_dropped(s4, "env_key"@, w.env_key is Some);
    let s6 = set_or_dropped(s5, "api_key"@, w.api_key is Some);
    let s7 = set_or_dropped(s6, "auth_not_required"@, w.auth_not_required);
    set_or_dropped(s7, "extra_headers"@, header_entries(w.extra_headers).len() > 0)
}

/// Every table of `e` at the root, in `[model]` and at `[model.<cid>]` has a slot order
/// in `o`, as every table of a document does.
pub open spec fn orders_cover(e: Map<Seq<Seq<char>>, TomlNode>, o: Orders, cid: Seq<char>) -> bool {
    &&& has_table_at(e, "auth"@) ==> o.contains_key(seq!["auth"@])
    &&& has_table_at(e, "models"@) ==> o.contains_key(seq!["models"@])
    &&& has_table_at(e, "model"@) ==> o.contains_key(seq!["model"@])
    &&& has_table_at(e, "model"@) && has_table_at(subtree(e, "model"@), cid) ==> o.contains_key(seq!["model"@, cid])
}

/// The root's items once `[auth]` is written.
pub open spec fn items_after_auth(e: Map<Seq<Seq<char>>, TomlNode>) -> Map<Seq<Seq<char>>, TomlNode> {
    let ea = ensured(e, "auth"@);
    with_table(ea, "auth"@, with_leaf(subtree(ea, "auth"@), "preferred_method"@, TomlNode::Str("api_key"@)))
}

/// The root's items once `[models]` is written too.
pub open spec fn items_after_models(e: Map<Seq<Seq<char>>, TomlNode>, w: ProviderModelWrite) -> Map<Seq<Seq<char>>, TomlNode> {
    let em = ensured(items_after_auth(e), "models"@);
    with_table(em, "models"@, with_leaf(subtree(em, "models"@), "default"@, TomlNode::Str(w.catalog_id@)))
}

/// The root's slot orders once `[auth]` is written.
pub open spec fn orders_after_auth(e: Map<Seq<Seq<char>>, TomlNode>, o: Orders) -> Orders {
    table_written(o, "auth"@, set_orders(ensured_orders(e, o, "auth"@), "preferred_method"@, true))
}

/// The root's slot orders once `[models]` is written too.
pub open spec fn orders_after_models(e: Map<Seq<Seq<char>>, TomlNode>, o: Orders, w: ProviderModelWrite) -> Orders {
    let o1 = orders_after_auth(e, o);
    table_written(o1, "models"@, set_orders(ensured_orders(items_after_auth(e), o1, "models"@), "default"@, true))
}

/// The slot orders of `[model]` once the write is done.
pub open spec fn model_root_orders_after(e: Map<Seq<Seq<char>>, TomlNode>, o: Orders, w: ProviderModelWrite) -> Orders {
    let e2 = items_after_models(e, w);
    let omr = ensured_orders(e2, orders_after_models(e, o, w), "model"@);
    let emr = subtree(ensured(e2, "model"@), "model"@);
    table_written(omr, w.catalog_id@, model_orders_after(ensured_orders(emr, omr, w.catalog_id@), w))
}

proof fn lemma_distinct_roots()
    ensures
        "auth"@ != "models"@,
        "auth"@ != "model"@,
        "models"@ != "model"@,
{
    reveal_strlit("auth");
    reveal_strlit("models");
    reveal_strlit("model");
    assert("auth"@.len() != "models"@.len());
    assert("auth"@.len() != "model"@.len());
    assert("models"@.len() != "model"@.len());
}

/// The stages of the write spelled out.
proof fn lemma_orders_stages(e: Map<Seq<Seq<char>>, TomlNode>, o: Orders, w: ProviderModelWrite)
    ensures
        provider_orders_after(e, o, w) == table_written(orders_after_models(e, o, w), "model"@, model_root_orders_after(e, o, w)),
{
}

/// Writing `[auth]` and `[models]` keeps the root's other slot orders and gives those
/// two tables theirs.
proof fn lemma_orders_auth_models(e: Map<Seq<Seq<char>>, TomlNode>, o: Orders, w: ProviderModelWrite, p: Seq<Seq<char>>)
    requires
        orders_cover(e, o, w.catalog_id@),
    ensures
        ({
            let o2 = orders_after_models(e, o, w);
            &&& o2.contains_key(own_path())
            &&& o2[own_path()] == touched(touched(o[own_path()], "auth"@), "models"@)
            &&& o2.contains_key(seq!["auth"@])
            &&& o2[seq!["auth"@]] == touched(start_order(e, o, "auth"@), "preferred_method"@)
            &&& o2.contains_key(seq!["models"@])
            &&& o2[seq!["models"@]] == touched(start_order(e, o, "models"@), "default"@)
            &&& p.len() > 0 && !starts_with_key(p, "auth"@) && !starts_with_key(p, "models"@)
                ==> o2.contains_key(p) == o.contains_key(p) && (o.contains_key(p) ==> o2[p] == o[p])
            &&& has_table_at(items_after_models(e, w), "model"@) == has_table_at(e, "model"@)
            &&& subtree(items_after_models(e, w), "model"@) == subtree(e, "model"@)
        }),
{
    lemma_distinct_roots();
    let em0 = Seq::<Seq<char>>::empty();
    let ea = ensured(e, "auth"@);
    let e1 = items_after_auth(e);
    let eo = ensured_orders(e, o, "auth"@);
    let oa = set_orders(eo, "preferred_method"@, true);
    let o1 = orders_after_auth(e, o);
    let eo1 = ensured_orders(e1, o1, "models"@);
    let om = set_orders(eo1, "default"@, true);
    let o2 = orders_after_models(e, o, w);
    let pa = seq!["auth"@];
    let pm = seq!["models"@];
    assert(pa =~= pa + em0);
    assert(pm =~= pm + em0);
    lemma_subtree_elsewhere(e, "models"@, "auth"@);
    lemma_subtree_elsewhere(ea, "models"@, "auth"@);
    lemma_subtree_elsewhere(e, "model"@, "auth"@);
    lemma_subtree_elsewhere(ea, "model"@, "auth"@);
    lemma_subtree_elsewhere(e1, "model"@, "models"@);
    lemma_subtree_elsewhere(ensured(e1, "models"@), "model"@, "models"@);
    lemma_orders_with_at(o, "auth"@, eo, em0);
    lemma_orders_with_at(o, "auth"@, oa, em0);
    lemma_orders_with_at(o, "auth"@, oa, pm);
    lemma_orders_with_at(o1, "models"@, om, em0);
    lemma_orders_with_at(o1, "models"@, om, pa);
    lemma_orders_with_at(o1, "models"@, eo1, em0);
    assert(oa[own_path()] == touched(eo[own_path()], "preferred_method"@));
    assert(o1[pa] == oa[own_path()]);
    assert(o2[pa] == o1[pa]);
    assert(eo1[own_path()] == start_order(e, o, "models"@));
    assert(o2[pm] == om[own_path()]);
    if p.len() > 0 && !starts_with_key(p, "auth"@) && !starts_with_key(p, "models"@) {
        lemma_orders_with_at(o, "auth"@, oa, p);
        lemma_orders_with_at(o1, "models"@, om, p);
    }
}

/// Writing the model gives `[model]`, `[model.<cid>]` and its `extra_headers` table
/// their slot orders.
proof fn lemma_orders_model(e: Map<Seq<Seq<char>>, TomlNode>, o: Orders, w: ProviderModelWrite)
    requires
        orders_cover(e, o, w.catalog_id@),
    ensures
        ({
            let cid = w.catalog_id@;
            let mr = model_root_orders_after(e, o, w);
            let model_start = if has_table_at(e, "model"@) && has_table_at(subtree(e, "model"@), cid) {
                o[seq!["model"@, cid]]
            } else {
                Seq::empty()
            };
            &&& mr.contains_key(own_path())
            &&& mr[own_path()] == touched(start_order(e, o, "model"@), cid)
            &&& mr.contains_key(seq![cid])
            &&& mr[seq![cid]] == model_slot_order_after(model_start, w)
            &&& header_entries(w.extra_headers).len() > 0 ==> mr.contains_key(seq![cid, "extra_headers"@])
                && mr[seq![cid, "extra_headers"@]] == header_names(header_entries(w.extra_headers))
        }),
{
    lemma_distinct_roots();
    lemma_orders_auth_models(e, o, w, seq!["model"@]);
    let cid = w.catalog_id@;
    let em0 = Seq::<Seq<char>>::empty();
    let e2 = items_after_models(e, w);
    let o2 = orders_after_models(e, o, w);
    let omr = ensured_orders(e2, o2, "model"@);
    let emr = subtree(ensured(e2, "model"@), "model"@);
    let eoc = ensured_orders(emr, omr, cid);
    let mt = model_orders_after(eoc, w);
    let pmo = seq!["model"@];
    let pc = seq![cid];
    assert(pmo =~= pmo + em0);
    assert(pc =~= pc + em0);
    assert(seq!["model"@, cid] =~= pmo + pc);
    lemma_orders_with_at(o2, "model"@, o2, em0);
    lemma_orders_with_at(omr, cid, mt, em0);
    lemma_orders_with_at(omr, cid, omr, em0);
    lemma_model_orders_after(eoc, w);
    if has_table_at(e2, "model"@) {
        assert(emr == subtree(e, "model"@));
        lemma_orders_with_at(o2, "model"@, o2, pc);
        lemma_orders_auth_models(e, o, w, pmo + pc);
    } else {
        lemma_no_root(e2, "model"@);
        lemma_subtree_with_table_same(e2, "model"@, no_entries());
        assert(emr == no_entries());
    }
    if header_entries(w.extra_headers).len() > 0 {
        let px = seq!["extra_headers"@];
        assert(seq![cid, "extra_headers"@] =~= pc + px);
        lemma_orders_with_at(omr, cid, mt, px);
    }
}

/// Writing a provider model keeps the order of what was there and puts what it adds
/// last: the root gains `auth`, `models` and `model` in that order where missing;
/// `[auth]` gains `preferred_method`, `[models]` gains `default`, `[model]` gains the
/// written model; the model's table orders its keys as `model_slot_order_after` says,
/// and its `extra_headers` table lists the headers in their order. The orders of
/// tables under other root keys stay as they were. (`orders_cover` holds of every
/// document: each of its tables has an order.)
pub proof fn law_config_write_orders(e: Map<Seq<Seq<char>>, TomlNode>, o: Orders, w: ProviderModelWrite, p: Seq<Seq<char>>)
    requires
        orders_cover(e, o, w.catalog_id@),
    ensures
        ({
            let n = provider_orders_after(e, o, w);
            let cid = w.catalog_id@;
            let model_start = if has_table_at(e, "model"@) && has_table_at(subtree(e, "model"@), cid) {
                o[seq!["model"@, cid]]
            } else {
                Seq::empty()
            };
            &&& n.contains_key(own_path())
            &&& n[own_path()] == touched(touched(touched(o[own_path()], "auth"@), "models"@), "model"@)
            &&& n.contains_key(seq!["auth"@])
            &&& n[seq!["auth"@]] == touched(start_order(e, o, "auth"@), "preferred_method"@)
            &&& n.contains_key(seq!["models"@])
            &&& n[seq!["models"@]] == touched(start_order(e, o, "models"@), "default"@)
            &&& n.contains_key(seq!["model"@])
            &&& n[seq!["model"@]] == touched(start_order(e, o, "model"@), cid)
            &&& n.contains_key(seq!["model"@, cid])
            &&& n[seq!["model"@, cid]] == model_slot_order_after(model_start, w)
            &&& header_entries(w.extra_headers).len() > 0 ==> n.contains_key(seq!["model"@, cid, "extra_headers"@])
                && n[seq!["model"@, cid, "extra_headers"@]] == header_names(header_entries(w.extra_headers))
            &&& p.len() > 0 && !starts_with_key(p, "auth"@) && !starts_with_key(p, "models"@) && !starts_with_key(p, "model"@)
                ==> n.contains_key(p) == o.contains_key(p) && (o.contains_key(p) ==> n[p] == o[p])
        }),
{
    lemma_distinct_roots();
    let cid = w.catalog_id@;
    let em0 = Seq::<Seq<char>>::empty();
    let o2 = orders_after_models(e, o, w);
    let mr = model_root_orders_after(e, o, w);
    lemma_orders_stages(e, o, w);
    lemma_orders_auth_models(e, o, w, p);
    lemma_orders_model(e, o, w);
    let pmo = seq!["model"@];
    assert(pmo =~= pmo + em0);
    lemma_orders_with_at(o2, "model"@, mr, em0);
    lemma_orders_with_at(o2, "model"@, mr, seq!["auth"@]);
    lemma_orders_with_at(o2, "model"@, mr, seq!["models"@]);
    lemma_orders_with_at(o2, "model"@, mr, seq![cid]);
    assert(seq!["model"@, cid] =~= pmo + seq![cid]);
    assert(seq!["model"@, cid, "extra_headers"@] =~= pmo + seq![cid, "extra_headers"@]);
    lemma_orders_with_at(o2, "model"@, mr, seq![cid, "extra_headers"@]);
    if p.len() > 0 && !starts_with_key(p, "auth"@) && !starts_with_key(p, "models"@) && !starts_with_key(p, "model"@) {
        lemma_orders_with_at(o2, "model"@, mr, p);
    }
}

/// The own slot order and `extra_headers` order of a model table after the write.
proof fn lemma_model_orders_after(o: Orders, w: ProviderModelWrite)
    ensures
        model_orders_after(o, w).contains_key(own_path()),
        model_orders_after(o, w)[own_path()] == model_slot_order_after(o[own_path()], w),
        header_entries(w.extra_headers).len() > 0 ==> model_orders_after(o, w).contains_key(seq!["extra_headers"@])
            && model_orders_after(o, w)[seq!["extra_headers"@]] == header_names(header_entries(w.extra_headers)),
{
    let names = header_names(header_entries(w.extra_headers));
    assert(names.len() == header_entries(w.extra_headers).len());
    let px = seq!["extra_headers"@];
    assert(px =~= px + Seq::<Seq<char>>::empty());
    let o7 = set_orders(
        set_orders(
            set_orders(
                set_orders(set_orders(set_orders(set_orders(o, "model"@, true), "name"@, true), "base_url"@, true), "api_backend"@, true),
                "env_key"@,
                w.env_key is Some,
            ),
            "api_key"@,
            w.api_key is Some,
        ),
        "auth_not_required"@,
        w.auth_not_required,
    );
    lemma_orders_with_at(o7, "extra_headers"@, map![own_path() => names], Seq::<Seq<char>>::empty());
}

/// After writing a provider model, `[auth] preferred_method` is `api_key`,
/// `[models] default` names the model, and `[model.<catalog_id>]` holds the model id,
/// name, base URL and backend, the environment key and stored key exactly when given,
/// and `auth_not_required = true` exactly when the provider needs no key.
pub proof fn law_config_write_sets_model(e: Map<Seq<Seq<char>>, TomlNode>, w: ProviderModelWrite)
    ensures
        ({
            let after = provider_config_after(e, w);
            let at = |k: Seq<char>| seq!["model"@, w.catalog_id@, k];
            &&& after.contains_key(seq!["auth"@]) && after[seq!["auth"@]] == TomlNode::Table
            &&& after.contains_key(seq!["auth"@, "preferred_method"@])
                && after[seq!["auth"@, "preferred_method"@]] == TomlNode::Str("api_key"@)
            &&& after.contains_key(seq!["models"@]) && after[seq!["models"@]] == TomlNode::Table
            &&& after.contains_key(seq!["models"@, "default"@])
                && after[seq!["models"@, "default"@]] == TomlNode::Str(w.catalog_id@)
            &&& after.contains_key(seq!["model"@]) && after[seq!["model"@]] == TomlNode::Table
            &&& after.contains_key(seq!["model"@, w.catalog_id@]) && after[seq!["model"@, w.catalog_id@]] == TomlNode::Table
            &&& after.contains_key(at("model"@)) && after[at("model"@)] == TomlNode::Str(w.model@)
            &&& after.contains_key(at("name"@)) && after[at("name"@)] == TomlNode::Str(w.name@)
            &&& after.contains_key(at("base_url"@)) && after[at("base_url"@)] == TomlNode::Str(w.base_url@)
            &&& after.contains_key(at("api_backend"@)) && after[at("api_backend"@)] == TomlNode::Str(w.api_backend@)
            &&& match opt_string_view(w.env_key) {
                Some(k) => after.contains_key(at("env_key"@)) && after[at("env_key"@)] == TomlNode::Str(k),
                None => !after.contains_key(at("env_key"@)),
            }
            &&& match opt_string_view(w.api_key) {
                Some(k) => after.contains_key(at("api_key"@)) && after[at("api_key"@)] == TomlNode::Str(k),
                None => !after.contains_key(at("api_key"@)),
            }
            &&& if w.auth_not_required {
                after.contains_key(at("auth_not_required"@)) && after[at("auth_not_required"@)] == TomlNode::Bool(true)
            } else {
                !after.contains_key(at("auth_not_required"@))
            }
            &&& (header_entries(w.extra_headers).len() == 0 <==> !after.contains_key(at("extra_headers"@)))
        }),
{
    reveal_strlit("auth");
    reveal_strlit("models");
    reveal_strlit("model");
    reveal_strlit("name");
    reveal_strlit("base_url");
    reveal_strlit("api_backend");
    reveal_strlit("env_key");
    reveal_strlit("api_key");
    reveal_strlit("auth_not_required");
    reveal_strlit("extra_headers");
    reveal_strlit("preferred_method");
    reveal_strlit("default");
    assert("auth"@ != "models"@) by { assert("auth"@.len() != "models"@.len()); }
    assert("auth"@ != "model"@) by { assert("auth"@.len() != "model"@.len()); }
    assert("models"@ != "model"@) by { assert("models"@.len() != "model"@.len()); }
    let cid = w.catalog_id@;
    let ea = ensured(e, "auth"@);
    let a2 = with_leaf(subtree(ea, "auth"@), "preferred_method"@, TomlNode::Str("api_key"@));
    let e1 = with_table(ea, "auth"@, a2);
    let em = ensured(e1, "models"@);
    let m2 = with_leaf(subtree(em, "models"@), "default"@, TomlNode::Str(cid));
    let e2 = with_table(em, "models"@, m2);
    let er = ensured(e2, "model"@);
    let mr = ensured(subtree(er, "model"@), cid);
    let t = model_table_after(subtree(mr, cid), w);
    let mr2 = with_table(mr, cid, t);
    let after = with_table(er, "model"@, mr2);
    assert(after == provider_config_after(e, w));

    // [auth] preferred_method
    let pa = seq!["auth"@];
    let ppm = seq!["auth"@, "preferred_method"@];
    assert(ppm =~= pa + seq!["preferred_method"@]);
    assert(pa =~= pa + Seq::<Seq<char>>::empty());
    lemma_with_table_under(ea, "auth"@, a2, Seq::empty());
    lemma_with_table_under(ea, "auth"@, a2, seq!["preferred_method"@]);
    lemma_with_leaf_under(subtree(ea, "auth"@), "preferred_method"@, TomlNode::Str("api_key"@), Seq::empty());
    assert(seq!["preferred_method"@] =~= seq!["preferred_method"@] + Seq::<Seq<char>>::empty());
    lemma_elsewhere(e1, "models"@, pa);
    lemma_elsewhere(e1, "models"@, ppm);
    lemma_elsewhere(em, "models"@, pa);
    lemma_elsewhere(em, "models"@, ppm);
    lemma_elsewhere(e2, "model"@, pa);
    lemma_elsewhere(e2, "model"@, ppm);
    lemma_elsewhere(er, "model"@, pa);
    lemma_elsewhere(er, "model"@, ppm);

    // [models] default
    let pm = seq!["models"@];
    let pd = seq!["models"@, "default"@];
    assert(pd =~= pm + seq!["default"@]);
    assert(pm =~= pm + Seq::<Seq<char>>::empty());
    lemma_with_table_under(em, "models"@, m2, Seq::empty());
    lemma_with_table_under(em, "models"@, m2, seq!["default"@]);
    lemma_with_leaf_under(subtree(em, "models"@), "default"@, TomlNode::Str(cid), Seq::empty());
    assert(seq!["default"@] =~= seq!["default"@] + Seq::<Seq<char>>::empty());
    lemma_elsewhere(e2, "model"@, pm);
    lemma_elsewhere(e2, "model"@, pd);
    lemma_elsewhere(er, "model"@, pm);
    lemma_elsewhere(er, "model"@, pd);

    // [model] and [model.<cid>]
    let pmo = seq!["model"@];
    assert(pmo =~= pmo + Seq::<Seq<char>>::empty());
    lemma_with_table_under(er, "model"@, mr2, Seq::empty());
    assert(seq!["model"@, cid] =~= pmo + seq![cid]);
    lemma_with_table_under(er, "model"@, mr2, seq![cid]);
    assert(seq![cid] =~= seq![cid] + Seq::<Seq<char>>::empty());
    lemma_with_table_under(mr, cid, t, Seq::empty());
    lemma_model_table_after(subtree(mr, cid), w);
    assert forall|k: Seq<char>| #![auto] true implies {
        &&& after.contains_key(seq!["model"@, cid, k]) == t.contains_key(seq![k])
        &&& t.contains_key(seq![k]) ==> after[seq!["model"@, cid, k]] == t[seq![k]]
    } by {
        assert(seq!["model"@, cid, k] =~= pmo + seq![cid, k]);
        lemma_with_table_under(er, "model"@, mr2, seq![cid, k]);
        assert(seq![cid, k] =~= seq![cid] + seq![k]);
        lemma_with_table_under(mr, cid, t, seq![k]);
    }
}

/// The `[model.<id>]` table after the write holds the written fields at their keys.
proof fn lemma_model_table_after(t: Map<Seq<Seq<char>>, TomlNode>, w: ProviderModelWrite)
    ensures
        ({
            let after = model_table_after(t, w);
            &&& after.contains_key(seq!["model"@]) && after[seq!["model"@]] == TomlNode::Str(w.model@)
            &&& after.contains_key(seq!["name"@]) && after[seq!["name"@]] == TomlNode::Str(w.name@)
            &&& after.contains_key(seq!["base_url"@]) && after[seq!["base_url"@]] == TomlNode::Str(w.base_url@)
            &&& after.contains_key(seq!["api_backend"@]) && after[seq!["api_backend"@]] == TomlNode::Str(w.api_backend@)
            &&& match opt_string_view(w.env_key) {
                Some(k) => after.contains_key(seq!["env_key"@]) && after[seq!["env_key"@]] == TomlNode::Str(k),
                None => !after.contains_key(seq!["env_key"@]),
            }
            &&& match opt_string_view(w.api_key) {
                Some(k) => after.contains_key(seq!["api_key"@]) && after[seq!["api_key"@]] == TomlNode::Str(k),
                None => !after.contains_key(seq!["api_key"@]),
            }
            &&& if w.auth_not_required {
                after.contains_key(seq!["auth_not_required"@]) && after[seq!["auth_not_required"@]] == TomlNode::Bool(true)
            } else {
                !after.contains_key(seq!["auth_not_required"@])
            }
            &&& (header_entries(w.extra_headers).len() == 0 <==> !after.contains_key(seq!["extra_headers"@]))
        }),
{
    reveal_strlit("model");
    reveal_strlit("name");
    reveal_strlit("base_url");
    reveal_strlit("api_backend");
    reveal_strlit("env_key");
    reveal_strlit("api_key");
    reveal_strlit("auth_not_required");
    reveal_strlit("extra_headers");
    let keys = seq!["model"@, "name"@, "base_url"@, "api_backend"@, "env_key"@, "api_key"@, "auth_not_required"@, "extra_headers"@];
    assert forall|i: int, j: int| 0 <= i < keys.len() && 0 <= j < keys.len() && i != j implies keys[i] != keys[j] by {
        if keys[i] == keys[j] {
            assert(keys[i].len() == keys[j].len());
            assert(keys[i][0] == keys[j][0]);
            assert(keys[i][1] == keys[j][1]);
            assert(keys[i][3] == keys[j][3]);
            assert(keys[i][4] == keys[j][4]);
            assert(keys[i][5] == keys[j][5]);
        }
    }
    assert forall|k: Seq<char>, n: TomlNode, m: Map<Seq<Seq<char>>, TomlNode>| #![auto] true implies {
        &&& with_leaf(m, k, n).contains_key(seq![k]) && with_leaf(m, k, n)[seq![k]] == n
    } by {
        assert(seq![k] =~= seq![k] + Seq::<Seq<char>>::empty());
        lemma_with_leaf_under(m, k, n, Seq::empty());
    }
    assert forall|k: Seq<char>, m: Map<Seq<Seq<char>>, TomlNode>| #![auto] true implies {
        !crate::toml_doc::without_key(m, k).contains_key(seq![k])
    } by {
        assert(seq![k] =~= seq![k] + Seq::<Seq<char>>::empty());
        lemma_without_key_under(m, k, Seq::empty());
    }
    assert forall|k: Seq<char>, k2: Seq<char>, m: Map<Seq<Seq<char>>, TomlNode>| #![auto] k != k2 implies {
        &&& forall|n: TomlNode| #![auto] with_leaf(m, k2, n).contains_key(seq![k]) == m.contains_key(seq![k])
            && (m.contains_key(seq![k]) ==> with_leaf(m, k2, n)[seq![k]] == m[seq![k]])
        &&& crate::toml_doc::without_key(m, k2).contains_key(seq![k]) == m.contains_key(seq![k])
        &&& (m.contains_key(seq![k]) ==> crate::toml_doc::without_key(m, k2)[seq![k]] == m[seq![k]])
        &&& forall|sub: Map<Seq<Seq<char>>, TomlNode>| #![auto] with_table(m, k2, sub).contains_key(seq![k]) == m.contains_key(seq![k])
            && (m.contains_key(seq![k]) ==> with_table(m, k2, sub)[seq![k]] == m[seq![k]])
        &&& ensured(m, k2).contains_key(seq![k]) == m.contains_key(seq![k])
        &&& (m.contains_key(seq![k]) ==> ensured(m, k2)[seq![k]] == m[seq![k]])
    } by {
        lemma_elsewhere(m, k2, seq![k]);
    }
    if header_entries(w.extra_headers).len() > 0 {
        let t7 = {
            let t1 = with_leaf(t, "model"@, TomlNode::Str(w.model@));
            let t2 = with_leaf(t1, "name"@, TomlNode::Str(w.name@));
            let t3 = with_leaf(t2, "base_url"@, TomlNode::Str(w.base_url@));
            let t4 = with_leaf(t3, "api_backend"@, TomlNode::Str(w.api_backend@));
            let t5 = crate::provider_config_write::with_opt_string(t4, "env_key"@, opt_string_view(w.env_key));
            let t6 = crate::provider_config_write::with_opt_string(t5, "api_key"@, opt_string_view(w.api_key));
            crate::provider_config_write::with_opt_bool(t6, "auth_not_required"@, if w.auth_not_required { Some(true) } else { None })
        };
        let hs = crate::provider_config_write::headers_table(header_entries(w.extra_headers));
        assert(seq!["extra_headers"@] =~= seq!["extra_headers"@] + Seq::<Seq<char>>::empty());
        lemma_with_table_under(ensured(t7, "extra_headers"@), "extra_headers"@, hs, Seq::empty());
    }
}

/// Moving down then up the preset list, or up then down, comes back to the same
/// preset, and both moves stay on the list.
pub proof fn law_preset_cursor_round_trip(c: nat)
    requires
        c < preset_count(),
    ensures
        next_cursor(c) < preset_count(),
        prev_cursor(c) < preset_count(),
        prev_cursor(next_cursor(c)) == c,
        next_cursor(prev_cursor(c)) == c,
{
    assert(preset_count() == 8);
}

/// No two presets share an id, so selecting a preset by a listed id selects exactly
/// that preset.
pub proof fn law_preset_ids_distinct(i: int, j: int)
    requires
        0 <= i < preset_count(),
        0 <= j < preset_count(),
        i != j,
    ensures
        preset_table()[i].id != preset_table()[j].id,
{
    reveal_strlit("openai");
    reveal_strlit("anthropic");
    reveal_strlit("ollama");
    reveal_strlit("openrouter");
    reveal_strlit("groq");
    reveal_strlit("together");
    reveal_strlit("deepseek");
    reveal_strlit("custom");
    let a = preset_table()[i].id;
    let b = preset_table()[j].id;
    if a == b {
        assert(a.len() == b.len());
        assert(a[0] == b[0]);
        assert(a[1] == b[1]);
        assert(a[2] == b[2]);
    }
}

/// Moving focus forward then back, or back then forward, returns to the field it
/// started on, whenever that field is shown.
pub proof fn law_focus_next_prev_inverse(f: EditFieldFocus, requires_key: bool)
    ensures
        next_focus_spec(f, requires_key) matches Some(n) ==> prev_focus_spec(n, requires_key) == Some(f),
        prev_focus_spec(f, requires_key) matches Some(n) ==> next_focus_spec(n, requires_key) == Some(f),
        next_focus_spec(f, requires_key) is Some <==> prev_focus_spec(f, requires_key) is Some,
{
    let order = focus_order_spec(requires_key);
    let n = order.len() as int;
    assert forall|a: int, b: int| 0 <= a < n && 0 <= b < n && a != b implies order[a] != order[b] by {
        if requires_key {
            assert(order =~= seq![
                EditFieldFocus::BaseUrl,
                EditFieldFocus::Model,
                EditFieldFocus::Name,
                EditFieldFocus::ApiKey,
                EditFieldFocus::StoreKeyInConfig,
                EditFieldFocus::Submit,
                EditFieldFocus::Back,
            ]);
        }
    }
    lemma_focus_position_bounds(order, f);
    if let Some(i) = focus_position(order, f) {
        let j = (i + 1) % n;
        let k = if i == 0 { n - 1 } else { i - 1 };
        lemma_focus_position_first(order, order[j], j);
        lemma_focus_position_first(order, order[k], k);
        assert(n == 5 || n == 7);
        assert(0 <= i < n);
        if i == n - 1 {
            assert(j == 0) by (nonlinear_arith)
                requires
                    j == (i + 1) % n,
                    i == n - 1,
                    n > 0,
            ;
        } else {
            assert(j == i + 1) by (nonlinear_arith)
                requires
                    j == (i + 1) % n,
                    0 <= i + 1 < n,
            ;
        }
        assert(if j == 0 { order[n - 1] } else { order[j - 1] } == f);
        if i == 0 {
            assert(k == n - 1);
            assert((k + 1) % n == 0) by (nonlinear_arith)
                requires
                    k + 1 == n,
                    n > 0,
            ;
        } else {
            assert((k + 1) % n == i) by (nonlinear_arith)
                requires
                    k + 1 == i,
                    0 <= i < n,
            ;
        }
        assert(order[(k + 1) % n] == f);
    }
}

/// Focus moves through the shown fields in the form's order, wrapping at both ends:
/// base URL, model, name, then (when a key is needed) the key and the "store key" box,
/// then Submit and Back. Forward from the field at position `i` is the one at `i + 1`,
/// or the first after the last; back is the one at `i - 1`, or the last before the first.
pub proof fn law_focus_moves_in_form_order(requires_key: bool, i: int)
    ensures
        ({
            let shown = if requires_key {
                seq![
                    EditFieldFocus::BaseUrl,
                    EditFieldFocus::Model,
                    EditFieldFocus::Name,
                    EditFieldFocus::ApiKey,
                    EditFieldFocus::StoreKeyInConfig,
                    EditFieldFocus::Submit,
                    EditFieldFocus::Back,
                ]
            } else {
                seq![
                    EditFieldFocus::BaseUrl,
                    EditFieldFocus::Model,
                    EditFieldFocus::Name,
                    EditFieldFocus::Submit,
                    EditFieldFocus::Back,
                ]
            };
            0 <= i < shown.len() ==> {
                &&& next_focus_spec(shown[i], requires_key) == Some(shown[if i + 1 == shown.len() { 0 } else { i + 1 }])
                &&& prev_focus_spec(shown[i], requires_key) == Some(shown[if i == 0 { shown.len() - 1 } else { i - 1 }])
            }
        }),
{
    let order = focus_order_spec(requires_key);
    let n = order.len() as int;
    if 0 <= i < n {
        let j = if i + 1 == n { 0 } else { i + 1 };
        let k = if i == 0 { n - 1 } else { i - 1 };
        assert(j == (i + 1) % n) by (nonlinear_arith)
            requires
                j == (if i + 1 == n { 0 } else { i + 1 }),
                0 <= i < n,
        ;
        assert forall|a: int| 0 <= a < i implies order[a] != order[i] by {
            if requires_key {
                assert(order =~= seq![
                    EditFieldFocus::BaseUrl,
                    EditFieldFocus::Model,
                    EditFieldFocus::Name,
                    EditFieldFocus::ApiKey,
                    EditFieldFocus::StoreKeyInConfig,
                    EditFieldFocus::Submit,
                    EditFieldFocus::Back,
                ]);
            }
        }
        lemma_focus_position_first(order, order[i], i);
    }
}

/// A field the form does not show (the key and "store key" box when no key is needed)
/// has nowhere to move to.
pub proof fn law_hidden_fields_have_no_neighbours(f: EditFieldFocus)
    requires
        f == EditFieldFocus::ApiKey || f == EditFieldFocus::StoreKeyInConfig,
    ensures
        next_focus_spec(f, false) is None,
        prev_focus_spec(f, false) is None,
{
    lemma_focus_position_bounds(focus_order_spec(false), f);
}

/// The probe's headers, whenever they can be built: `content-type: application/json`
/// first, then every extra header exactly as given and in its order, then the key: none
/// for a provider that needs no key; otherwise the request's trimmed, non-blank key as
/// `x-api-key` for the `messages` backend and as `authorization: Bearer <key>` for every
/// other backend.
pub proof fn law_probe_headers(r: ValidateRequest)
    ensures
        header_plan_spec(r) matches Ok(plan) ==> {
            let extras = header_entries(r.extra_headers);
            let n = extras.len() as int;
            &&& plan[0] == ("content-type"@, "application/json"@)
            &&& forall|j: int| 0 <= j < n ==> #[trigger] plan[j + 1] == extras[j]
            &&& r.auth_not_required ==> plan.len() == n + 1
            &&& !r.auth_not_required ==> {
                &&& plan.len() == n + 2
                &&& request_key_spec(opt_string_view(r.api_key)) matches Some(key)
                &&& key == trim_spec(opt_string_view(r.api_key)->0)
                &&& key.len() > 0
                &&& r.api_backend@ == "messages"@ ==> plan[n + 1] == ("x-api-key"@, key)
                &&& r.api_backend@ != "messages"@ ==> plan[n + 1] == ("authorization"@, "Bearer "@ + key)
            }
        },
{
    let extras = header_entries(r.extra_headers);
    lemma_extra_headers_plan_keeps(extras);
}

/// Extra headers that pass their checks are kept exactly, in order.
proof fn lemma_extra_headers_plan_keeps(s: Seq<(Seq<char>, Seq<char>)>)
    ensures
        extra_headers_plan(s) matches Ok(p) ==> p == s,
    decreases s.len(),
{
    if s.len() > 0 {
        lemma_extra_headers_plan_keeps(s.drop_last());
        if extra_headers_plan(s) is Ok {
            assert(s.drop_last().push(s.last()) =~= s);
        }
    }
}

/// A catalog whose default is one of its models, at whatever position, is consistent,
/// and so passes its check.
pub proof fn law_listed_default_is_accepted(d: DefaultModels, i: int)
    requires
        0 <= i < d.models@.len(),
        d.models@[i].model@ == d.default@,
        d.default@.len() > 0,
    ensures
        d.is_consistent(),
{
    assert(d.models@[i].model@ == d.default@);
}

/// A catalog with a non-blank default fails its check only when no model, at any
/// position, is the default; a blank default is accepted exactly with no models.
pub proof fn law_unlisted_default_is_refused(d: DefaultModels)
    ensures
        d.default@.len() > 0 && !d.is_consistent() ==> forall|i: int| 0 <= i < d.models@.len() ==> #[trigger] d.models@[i].model@ != d.default@,
        d.default@.len() == 0 ==> (d.is_consistent() <==> d.models@.len() == 0),
{
}

/// Backspace after typing a character into a text field deletes exactly that
/// character: the field is back to what it was and nothing else changed.
pub proof fn law_backspace_undoes_insert(
    f: EditFieldsState,
    g: EditFieldsState,
    h: EditFieldsState,
    t: EditFieldFocus,
    c: char,
)
    requires
        is_text_focus(t),
        same_except_text(f, g, t),
        text_of(g, t) == text_of(f, t).push(c),
        same_except_text(g, h, t),
        text_of(h, t) == text_of(g, t).drop_last(),
    ensures
        text_of(g, t).len() > 0,
        text_of(h, t) == text_of(f, t),
        same_except_text(f, h, t),
{
    assert(text_of(f, t).push(c).drop_last() =~= text_of(f, t));
}

/// Typing a text at once is typing it character by character: when each view in `vs`
/// follows the one before by typing one character of a non-empty `s` (what
/// `insert_char` promises), every step answers as the first did, and the last view
/// follows the first by typing all of `s` (what `push_str` promises).
pub proof fn law_push_str_is_insert_char_each(vs: Seq<WizardView>, rs: Seq<bool>, s: Seq<char>)
    requires
        s.len() >= 1,
        vs.len() == s.len() + 1,
        rs.len() == s.len(),
        forall|i: int| 0 <= i < s.len() ==> typed_text(#[trigger] vs[i], vs[i + 1], rs[i], seq![s[i]]),
    ensures
        forall|i: int| 0 <= i < s.len() ==> #[trigger] rs[i] == rs[0],
        typed_text(vs[0], vs[s.len() as int], rs[0], s),
{
    lemma_typed_prefix(vs, rs, s, s.len() as int);
    assert(s.subrange(0, s.len() as int) =~= s);
}

/// The first `j` steps of such a chain type `s`'s first `j` characters.
proof fn lemma_typed_prefix(vs: Seq<WizardView>, rs: Seq<bool>, s: Seq<char>, j: int)
    requires
        1 <= j <= s.len(),
        vs.len() == s.len() + 1,
        rs.len() == s.len(),
        forall|i: int| 0 <= i < s.len() ==> typed_text(#[trigger] vs[i], vs[i + 1], rs[i], seq![s[i]]),
    ensures
        forall|i: int| 0 <= i < j ==> #[trigger] rs[i] == rs[0],
        typed_text(vs[0], vs[j], rs[0], s.subrange(0, j)),
    decreases j,
{
    assert(typed_text(vs[0], vs[1], rs[0], seq![s[0]]));
    if j == 1 {
        assert(s.subrange(0, 1) =~= seq![s[0]]);
    } else {
        lemma_typed_prefix(vs, rs, s, j - 1);
        let k = j - 1;
        assert(typed_text(vs[k], vs[j], rs[k], seq![s[k]]));
        assert(s.subrange(0, k) + seq![s[k]] =~= s.subrange(0, j));
        if rs[0] {
            let f = vs[0].edit_fields->0;
            let g = vs[k].edit_fields->0;
            let h = vs[j].edit_fields->0;
            assert(g.focus == f.focus);
            assert(cleared_phase(cleared_phase(vs[0].phase)) == cleared_phase(vs[0].phase));
            assert(text_of(h, f.focus) =~= text_of(f, f.focus) + s.subrange(0, j));
        }
    }
}

/// Whenever the probe can be built, so can the config write: a submission fails
/// exactly when its probe does.
pub proof fn law_write_builds_when_probe_builds(f: EditFieldsState, env_value: Option<Seq<char>>)
    ensures
        validate_error_spec(f, env_value) is None ==> write_error_spec(f) is None,
{
}

/// A provider that needs no key is probed without one, nothing is exported for it, and
/// the only notice it can get is the warning about a key stored on request.
pub proof fn law_keyless_provider_needs_no_key(f: EditFieldsState, env_value: Option<Seq<char>>)
    requires
        f.auth_not_required,
    ensures
        probe_api_key_spec(f, env_value) == Ok::<Option<Seq<char>>, Seq<char>>(None),
        !env_export_needed_spec(f, env_value),
        session_env_export_spec(f, env_value) is None,
        post_setup_notice_spec(f, env_value) is Some ==> stored_api_key_spec(f) is Some,
{
}

/// A typed key whose environment variable is not exported is still probed with; it is
/// written to config only when the user opted in, and otherwise it is exported for this
/// session and the user is told to export the variable.
pub proof fn law_typed_key_without_env(f: EditFieldsState)
    requires
        !f.auth_not_required,
        trim_spec(f.api_key_input@).len() > 0,
        f.env_key_name is Some,
    ensures
        probe_api_key_spec(f, None) == Ok::<Option<Seq<char>>, Seq<char>>(Some(trim_spec(f.api_key_input@))),
        f.store_key_in_config ==> stored_api_key_spec(f) == Some(trim_spec(f.api_key_input@))
            && post_setup_notice_spec(f, None) == Some(stored_key_warning_spec()),
        !f.store_key_in_config ==> stored_api_key_spec(f) is None
            && session_env_export_spec(f, None) == Some((f.env_key_name->0@, trim_spec(f.api_key_input@)))
            && post_setup_notice_spec(f, None) is Some,
{
}

/// The API key goes to config only when the user opts in: by default the config names
/// the environment variable instead, and a stored key always comes with a warning.
pub proof fn law_key_stored_only_on_opt_in(f: EditFieldsState, env_value: Option<Seq<char>>)
    ensures
        stored_api_key_spec(f) == (if f.store_key_in_config && trim_spec(f.api_key_input@).len() > 0 {
            Some(trim_spec(f.api_key_input@))
        } else {
            None
        }),
        stored_api_key_spec(f) is Some ==> post_setup_notice_spec(f, env_value) == Some(stored_key_warning_spec()),
{
}

/// A log stamp names the instant the clock read: the reading (a distance from the Unix
/// epoch, forward or, as `Err`, back) turns into a Unix timestamp measuring the same
/// distance, with nanoseconds below one billion, whenever its seconds fit in an `i64`;
/// and the stamp is chrono's text for that timestamp whenever chrono can represent it.
pub proof fn law_stamp_names_the_reading(reading: Result<(u64, u32), (u64, u32)>)
    ensures
        signed_timestamp_spec(reading) matches Some((s, n)) ==> 0 <= n < 1_000_000_000 && match reading {
            Ok((a, b)) => s * 1_000_000_000 + n == a * 1_000_000_000 + b,
            Err((a, b)) => s * 1_000_000_000 + n == -(a * 1_000_000_000 + b),
        },
        match reading {
            Ok((a, b)) => a <= i64::MAX && b < 1_000_000_000,
            Err((a, b)) => a <= i64::MAX && b < 1_000_000_000,
        } ==> signed_timestamp_spec(reading) is Some,
        signed_timestamp_spec(reading) matches Some((s, n)) ==> (chrono_utc_millis_text(s as i64, n as u32) matches Some(
            t,
        ) ==> reading_stamp_spec(reading) == t),
{
}

/// Buffering a log entry neither loses nor reorders anything: what is handed out,
/// followed by what stays buffered, is the old buffer followed by the new entry.
pub proof fn law_log_push_keeps_every_entry<Tx>(
    old: LogForwarderView<Tx>,
    new: LogForwarderView<Tx>,
    r: Option<Seq<ClientLogEntry>>,
    entry: ClientLogEntry,
)
    requires
        pushed(old, new, r, entry),
    ensures
        (match r {
            Some(b) => b,
            None => Seq::empty(),
        }) + new.buffer == old.buffer.push(entry),
{
    match r {
        Some(b) => assert(b + new.buffer =~= b),
        None => assert(Seq::<ClientLogEntry>::empty() + new.buffer =~= new.buffer),
    }
}

/// A character a catalog id component may hold: a lowercase ASCII letter, a digit or `-`.
pub open spec fn catalog_char_ok(c: char) -> bool {
    ('a' <= c && c <= 'z') || ('0' <= c && c <= '9') || c == '-'
}

/// A well-formed catalog id component: not empty, only lowercase letters, digits and
/// single dashes, and no dash at either end.
pub open spec fn catalog_component_ok(s: Seq<char>) -> bool {
    &&& s.len() > 0
    &&& forall|i: int| 0 <= i < s.len() ==> catalog_char_ok(#[trigger] s[i])
    &&& s[0] != '-'
    &&& s.last() != '-'
    &&& forall|i: int| 0 <= i < s.len() - 1 ==> !(#[trigger] s[i] == '-' && s[i + 1] == '-')
}

/// Every model id, however written, gives a well-formed catalog id component.
pub proof fn law_catalog_component_well_formed(model: Seq<char>)
    ensures
        catalog_component_ok(sanitize_spec(model)),
{
    let r = collapse_spec(model).0;
    lemma_collapse(model);
    let k1 = lemma_trim_start(r, '-');
    let u = trim_start_char_spec(r, '-');
    let k2 = lemma_trim_end(u, '-');
    let t = trim_end_char_spec(u, '-');
    if t.len() == 0 {
        reveal_strlit("model");
    } else {
        assert(t =~= r.subrange(k1, k1 + k2));
        assert(t[0] == u[0]);
        assert forall|i: int| 0 <= i < t.len() - 1 implies !(#[trigger] t[i] == '-' && t[i + 1] == '-') by {
            assert(t[i] == r[k1 + i]);
            assert(t[i + 1] == r[k1 + i + 1]);
        }
        assert forall|i: int| 0 <= i < t.len() implies catalog_char_ok(#[trigger] t[i]) by {
            assert(t[i] == r[k1 + i]);
        }
    }
}

/// The ASCII letters and digits of `s`, in order.
pub open spec fn alphanumerics(s: Seq<char>) -> Seq<char>
    decreases s.len(),
{
    if s.len() == 0 {
        Seq::empty()
    } else if is_ascii_alphanumeric_spec(s.last()) {
        alphanumerics(s.drop_last()).push(s.last())
    } else {
        alphanumerics(s.drop_last())
    }
}

/// `s` with every ASCII uppercase letter lowered.
pub open spec fn lowered(s: Seq<char>) -> Seq<char> {
    s.map_values(|c: char| to_ascii_lowercase_spec(c))
}

/// The catalog id component keeps every ASCII letter and digit of the model id, lowered
/// and in order, and nothing else but dashes; a model id with none becomes `model`. So
/// two model ids whose letters and digits differ (ignoring case) give different
/// components.
pub proof fn law_catalog_component_keeps_alphanumerics(model: Seq<char>)
    ensures
        alphanumerics(model).len() > 0 ==> alphanumerics(sanitize_spec(model)) == lowered(alphanumerics(model)),
        alphanumerics(model).len() > 0 ==> forall|i: int| 0 <= i < sanitize_spec(model).len()
            && !is_ascii_alphanumeric_spec(#[trigger] sanitize_spec(model)[i]) ==> sanitize_spec(model)[i] == '-',
        alphanumerics(model).len() == 0 ==> sanitize_spec(model) == "model"@,
{
    let r = collapse_spec(model).0;
    lemma_collapse(model);
    lemma_collapse_alphanumerics(model);
    let u = trim_start_char_spec(r, '-');
    let t = trim_end_char_spec(u, '-');
    let k1 = lemma_trim_start(r, '-');
    let k2 = lemma_trim_end(u, '-');
    lemma_alphanumerics_trim_start(r);
    lemma_alphanumerics_trim_end(u);
    assert(t =~= r.subrange(k1, k1 + k2));
    assert forall|i: int| 0 <= i < t.len() implies catalog_char_ok(#[trigger] t[i]) by {
        assert(t[i] == r[k1 + i]);
    }
    if t.len() > 0 {
        assert(t[0] == u[0]);
        assert(t[0] != '-');
        assert(t =~= seq![t[0]] + t.drop_first());
        lemma_alphanumerics_concat(seq![t[0]], t.drop_first());
        assert(catalog_char_ok(t[0]));
        assert(is_ascii_alphanumeric_spec(t[0]));
        assert(alphanumerics(seq![t[0]]) =~= seq![t[0]]) by {
            assert(seq![t[0]].drop_last() =~= Seq::<char>::empty());
            assert(seq![t[0]].last() == t[0]);
            assert(alphanumerics(Seq::<char>::empty()) == Seq::<char>::empty());
            assert(Seq::<char>::empty().push(t[0]) =~= seq![t[0]]);
        }
    }
    if alphanumerics(model).len() == 0 {
        assert(lowered(alphanumerics(model)).len() == 0);
        assert(t.len() == 0);
        reveal_strlit("model");
    } else {
        assert(lowered(alphanumerics(model)).len() > 0);
        assert(t.len() > 0);
    }
}

/// Lowering keeps a letter or digit a letter or digit.
proof fn lemma_lower_alphanumeric(c: char)
    ensures
        is_ascii_alphanumeric_spec(c) ==> is_ascii_alphanumeric_spec(to_ascii_lowercase_spec(c)),
        to_ascii_lowercase_spec(c) == '-' <==> c == '-',
{
    if 'A' <= c && c <= 'Z' {
        assert(('a' as u32) <= (c as u32) + 32 <= ('z' as u32));
    }
}

/// Collapsing keeps exactly the letters and digits, lowered.
proof fn lemma_collapse_alphanumerics(s: Seq<char>)
    ensures
        alphanumerics(collapse_spec(s).0) == lowered(alphanumerics(s)),
    decreases s.len(),
{
    if s.len() > 0 {
        lemma_collapse_alphanumerics(s.drop_last());
        let r0 = collapse_spec(s.drop_last()).0;
        let c = s.last();
        lemma_lower_alphanumeric(c);
        if is_ascii_alphanumeric_spec(c) {
            assert(r0.push(to_ascii_lowercase_spec(c)).drop_last() =~= r0);
            assert(lowered(alphanumerics(s.drop_last()).push(c)) =~= lowered(alphanumerics(s.drop_last())).push(
                to_ascii_lowercase_spec(c),
            ));
        } else {
            assert(r0.push('-').drop_last() =~= r0);
        }
    }
}

/// The letters and digits of two pieces put together.
proof fn lemma_alphanumerics_concat(a: Seq<char>, b: Seq<char>)
    ensures
        alphanumerics(a + b) == alphanumerics(a) + alphanumerics(b),
    decreases b.len(),
{
    if b.len() == 0 {
        assert(a + b =~= a);
        assert(alphanumerics(a) + alphanumerics(b) =~= alphanumerics(a));
    } else {
        lemma_alphanumerics_concat(a, b.drop_last());
        assert((a + b).drop_last() =~= a + b.drop_last());
        assert((a + b).last() == b.last());
        if is_ascii_alphanumeric_spec(b.last()) {
            assert(alphanumerics(a) + alphanumerics(b.drop_last()).push(b.last()) =~= (alphanumerics(a)
                + alphanumerics(b.drop_last())).push(b.last()));
        }
    }
}

/// Dropping leading dashes keeps the letters and digits.
proof fn lemma_alphanumerics_trim_start(s: Seq<char>)
    ensures
        alphanumerics(trim_start_char_spec(s, '-')) == alphanumerics(s),
    decreases s.len(),
{
    if s.len() > 0 && s[0] == '-' {
        lemma_alphanumerics_trim_start(s.drop_first());
        assert(s =~= seq![s[0]] + s.drop_first());
        lemma_alphanumerics_concat(seq![s[0]], s.drop_first());
        assert(alphanumerics(seq![s[0]]) =~= Seq::<char>::empty()) by {
            assert(seq![s[0]].drop_last() =~= Seq::<char>::empty());
            assert(seq![s[0]].last() == '-');
            assert(alphanumerics(Seq::<char>::empty()) == Seq::<char>::empty());
        }
        assert(Seq::<char>::empty() + alphanumerics(s.drop_first()) =~= alphanumerics(s.drop_first()));
    }
}

/// Dropping trailing dashes keeps the letters and digits.
proof fn lemma_alphanumerics_trim_end(s: Seq<char>)
    ensures
        alphanumerics(trim_end_char_spec(s, '-')) == alphanumerics(s),
    decreases s.len(),
{
    if s.len() > 0 && s.last() == '-' {
        lemma_alphanumerics_trim_end(s.drop_last());
    }
}

/// The collapsed id holds only lowercase letters, digits and single dashes, and its
/// flag says whether it ends in a dash.
proof fn lemma_collapse(s: Seq<char>)
    ensures
        ({
            let (r, last_dash) = collapse_spec(s);
            &&& forall|i: int| 0 <= i < r.len() ==> catalog_char_ok(#[trigger] r[i])
            &&& forall|i: int| 0 <= i < r.len() - 1 ==> !(#[trigger] r[i] == '-' && r[i + 1] == '-')
            &&& last_dash <==> (r.len() > 0 && r.last() == '-')
        }),
    decreases s.len(),
{
    if s.len() > 0 {
        lemma_collapse(s.drop_last());
        let (r0, l0) = collapse_spec(s.drop_last());
        let c = s.last();
        if is_ascii_alphanumeric_spec(c) {
            let d = to_ascii_lowercase_spec(c);
            assert(catalog_char_ok(d));
            let r = r0.push(d);
            assert forall|i: int| 0 <= i < r.len() implies catalog_char_ok(#[trigger] r[i]) by {
                if i < r0.len() {
                    assert(r[i] == r0[i]);
                }
            }
            assert forall|i: int| 0 <= i < r.len() - 1 implies !(#[trigger] r[i] == '-' && r[i + 1] == '-') by {
                if i + 1 < r0.len() {
                    assert(r[i] == r0[i]);
                    assert(r[i + 1] == r0[i + 1]);
                }
            }
        } else if !l0 {
            let r = r0.push('-');
            assert forall|i: int| 0 <= i < r.len() implies catalog_char_ok(#[trigger] r[i]) by {
                if i < r0.len() {
                    assert(r[i] == r0[i]);
                }
            }
            assert forall|i: int| 0 <= i < r.len() - 1 implies !(#[trigger] r[i] == '-' && r[i + 1] == '-') by {
                if i + 1 < r0.len() {
                    assert(r[i] == r0[i]);
                    assert(r[i + 1] == r0[i + 1]);
                } else {
                    assert(r[i] == r0.last());
                }
            }
        }
    }
}

/// Trimming leading `c` keeps a suffix that does not start with `c`.
proof fn lemma_trim_start(s: Seq<char>, c: char) -> (k: int)
    ensures
        0 <= k <= s.len(),
        trim_start_char_spec(s, c) == s.subrange(k, s.len() as int),
        trim_start_char_spec(s, c).len() > 0 ==> trim_start_char_spec(s, c)[0] != c,
    decreases s.len(),
{
    if s.len() > 0 && s[0] == c {
        let k0 = lemma_trim_start(s.drop_first(), c);
        assert(s.drop_first().subrange(k0, s.drop_first().len() as int) =~= s.subrange(k0 + 1, s.len() as int));
        k0 + 1
    } else {
        assert(s.subrange(0, s.len() as int) =~= s);
        0
    }
}

/// Trimming trailing `c` keeps a prefix that does not end with `c`.
proof fn lemma_trim_end(s: Seq<char>, c: char) -> (k: int)
    ensures
        0 <= k <= s.len(),
        trim_end_char_spec(s, c) == s.subrange(0, k),
        trim_end_char_spec(s, c).len() > 0 ==> trim_end_char_spec(s, c).last() != c,
    decreases s.len(),
{
    if s.len() > 0 && s.last() == c {
        let k0 = lemma_trim_end(s.drop_last(), c);
        assert(s.drop_last().subrange(0, k0) =~= s.subrange(0, k0));
        k0
    } else {
        assert(s.subrange(0, s.len() as int) =~= s);
        s.len() as int
    }
}

/// Writing the same provider model a second time changes nothing: the config after two
/// writes has exactly the items it had after one.
pub proof fn law_config_write_idempotent(e: Map<Seq<Seq<char>>, TomlNode>, w: ProviderModelWrite)
    ensures
        provider_config_after(provider_config_after(e, w), w) == provider_config_after(e, w),
{
    reveal_strlit("auth");
    reveal_strlit("models");
    reveal_strlit("model");
    assert("auth"@ != "models"@) by { assert("auth"@.len() != "models"@.len()); }
    assert("auth"@ != "model"@) by { assert("auth"@.len() != "model"@.len()); }
    assert("models"@ != "model"@) by { assert("models"@.len() != "model"@.len()); }
    let cid = w.catalog_id@;
    let ea = ensured(e, "auth"@);
    let a2 = with_leaf(subtree(ea, "auth"@), "preferred_method"@, TomlNode::Str("api_key"@));
    let e1 = with_table(ea, "auth"@, a2);
    let em = ensured(e1, "models"@);
    let m2 = with_leaf(subtree(em, "models"@), "default"@, TomlNode::Str(cid));
    let e2 = with_table(em, "models"@, m2);
    let er = ensured(e2, "model"@);
    let mr = ensured(subtree(er, "model"@), cid);
    let t = model_table_after(subtree(mr, cid), w);
    let mr2 = with_table(mr, cid, t);
    let x = with_table(er, "model"@, mr2);
    assert(x == provider_config_after(e, w));

    // no table below holds the empty path
    lemma_no_root(ea, "auth"@);
    lemma_no_root(subtree(ea, "auth"@), "preferred_method"@);
    lemma_no_root(em, "models"@);
    lemma_no_root(subtree(em, "models"@), "default"@);
    lemma_no_root(er, "model"@);
    lemma_no_root(subtree(er, "model"@), cid);
    lemma_no_root(mr, cid);
    lemma_model_table_no_root(subtree(mr, cid), w);
    assert(no_root(a2));
    assert(no_root(m2));
    assert(no_root(t));
    assert(no_root(mr));
    assert(no_root(mr2));

    // the auth table of x is a2
    lemma_subtree_with_table_same(ea, "auth"@, a2);
    lemma_subtree_elsewhere(e1, "auth"@, "models"@);
    lemma_subtree_elsewhere(em, "auth"@, "models"@);
    lemma_subtree_elsewhere(e2, "auth"@, "model"@);
    lemma_subtree_elsewhere(er, "auth"@, "model"@);
    assert(subtree(x, "auth"@) == a2);
    assert(has_table_at(e1, "auth"@)) by {
        assert(seq!["auth"@] =~= seq!["auth"@] + Seq::<Seq<char>>::empty());
        crate::toml_doc::lemma_with_table_under(ea, "auth"@, a2, Seq::empty());
    }
    assert(has_table_at(x, "auth"@));

    // the models table of x is m2
    lemma_subtree_with_table_same(em, "models"@, m2);
    lemma_subtree_elsewhere(e2, "models"@, "model"@);
    lemma_subtree_elsewhere(er, "models"@, "model"@);
    assert(subtree(x, "models"@) == m2);
    assert(has_table_at(e2, "models"@)) by {
        assert(seq!["models"@] =~= seq!["models"@] + Seq::<Seq<char>>::empty());
        crate::toml_doc::lemma_with_table_under(em, "models"@, m2, Seq::empty());
    }
    assert(has_table_at(x, "models"@));

    // the model table of x is mr2, whose table for the model is t
    lemma_subtree_with_table_same(er, "model"@, mr2);
    assert(has_table_at(x, "model"@)) by {
        assert(seq!["model"@] =~= seq!["model"@] + Seq::<Seq<char>>::empty());
        crate::toml_doc::lemma_with_table_under(er, "model"@, mr2, Seq::empty());
    }
    lemma_subtree_with_table_same(mr, cid, t);
    assert(has_table_at(mr2, cid)) by {
        assert(seq![cid] =~= seq![cid] + Seq::<Seq<char>>::empty());
        crate::toml_doc::lemma_with_table_under(mr, cid, t, Seq::empty());
    }
    lemma_model_table_after_idempotent(subtree(mr, cid), w);

    // the second write, step by step
    lemma_with_leaf_twice(subtree(ea, "auth"@), "preferred_method"@, TomlNode::Str("api_key"@), TomlNode::Str("api_key"@));
    lemma_with_table_self(x, "auth"@);
    let x1 = with_table(ensured(x, "auth"@), "auth"@, with_leaf(subtree(ensured(x, "auth"@), "auth"@), "preferred_method"@, TomlNode::Str("api_key"@)));
    assert(x1 == x);
    lemma_with_leaf_twice(subtree(em, "models"@), "default"@, TomlNode::Str(cid), TomlNode::Str(cid));
    lemma_with_table_self(x, "models"@);
    let x2 = with_table(ensured(x1, "models"@), "models"@, with_leaf(subtree(ensured(x1, "models"@), "models"@), "default"@, TomlNode::Str(cid)));
    assert(x2 == x);
    let er2 = ensured(x2, "model"@);
    assert(er2 == x);
    let mrx = ensured(subtree(er2, "model"@), cid);
    assert(mrx == mr2);
    assert(subtree(mrx, cid) == t);
    lemma_with_table_self(mr2, cid);
    lemma_with_table_self(x, "model"@);
}

/// The model table after the write holds no empty path.
proof fn lemma_model_table_no_root(t: Map<Seq<Seq<char>>, TomlNode>, w: ProviderModelWrite)
    requires
        no_root(t),
    ensures
        no_root(model_table_after(t, w)),
{
    let once = model_table_after(t, w);
    if once.contains_key(Seq::<Seq<char>>::empty()) {
        assert(false);
    }
}

/// Writing the same model table twice gives what writing it once gave.
proof fn lemma_model_table_after_idempotent(t: Map<Seq<Seq<char>>, TomlNode>, w: ProviderModelWrite)
    ensures
        model_table_after(model_table_after(t, w), w) == model_table_after(t, w),
{
    reveal_strlit("model");
    reveal_strlit("name");
    reveal_strlit("base_url");
    reveal_strlit("api_backend");
    reveal_strlit("env_key");
    reveal_strlit("api_key");
    reveal_strlit("auth_not_required");
    reveal_strlit("extra_headers");
    let keys = seq!["model"@, "name"@, "base_url"@, "api_backend"@, "env_key"@, "api_key"@, "auth_not_required"@, "extra_headers"@];
    assert forall|i: int, j: int| 0 <= i < keys.len() && 0 <= j < keys.len() && i != j implies keys[i] != keys[j] by {
        if keys[i] == keys[j] {
            assert(keys[i].len() == keys[j].len());
            assert(keys[i][0] == keys[j][0]);
            assert(keys[i][1] == keys[j][1]);
            assert(keys[i][3] == keys[j][3]);
            assert(keys[i][4] == keys[j][4]);
            assert(keys[i][5] == keys[j][5]);
        }
    }
    let once = model_table_after(t, w);
    assert(model_table_after(once, w) =~= once);
}

} // verus!
