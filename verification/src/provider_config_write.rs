//! Merging a provider model into `config.toml`: `[auth] preferred_method`,
//! `[models] default` and the `[model.<catalog_id>]` table, leaving everything else as
//! it was.
use vstd::prelude::*;
use crate::headers::{header_entries, headers_get_index, headers_len};
use crate::setup_wizard::validate::opt_string_view;
use crate::text::string_of;
use crate::toml_doc::{
    ensured, subtree, toml_document_entries, toml_document_new, toml_document_parse,
    toml_document_render, toml_document_root_mut, toml_document_text, toml_parse,
    toml_table_clear, toml_table_entries, toml_table_get_table_mut, toml_table_has_table,
    toml_table_insert_table, toml_table_new, toml_table_remove, toml_table_set_bool,
    toml_table_set_string, with_leaf, with_table, without_key, no_entries, TomlNode,
    toml_table_orders, own_path, has_table_at, touched, without_slot, toml_document_orders, Orders, sub_orders,
    orders_with, orders_without,
};

verus! {

/// The provider model the wizard saves: the `[model.<catalog_id>]` table, the
/// `[models] default` pointer and the `[auth]` preference.
#[derive(Debug)]
pub struct ProviderModelWrite {
    pub catalog_id: String,
    pub model: String,
    pub name: String,
    pub base_url: String,
    pub api_backend: String,
    pub env_key: Option<String>,
    pub api_key: Option<String>,
    pub auth_not_required: bool,
    pub extra_headers: indexmap::IndexMap<String, String>,
}

/// Why an existing config is not merged into.
#[derive(Debug, PartialEq, Eq)]
pub enum ConfigWriteError {
    /// The existing text is not TOML; `detail` is the parser's message. Nothing is written.
    Unparseable { detail: String },
}

impl ConfigWriteError {
    /// The reason given for leaving the config file at `path` as it was.
    pub fn refusal_message(&self, path: &str) -> (r: String)
        ensures
            match self {
                ConfigWriteError::Unparseable { detail } => r@ == "refusing to overwrite unparseable "@ + path@ + ": "@
                    + detail@,
            },
    {
        match self {
            ConfigWriteError::Unparseable { detail } => {
                let mut m = string_of("refusing to overwrite unparseable ");
                m.push_str(path);
                m.push_str(": ");
                m.push_str(detail.as_str());
                m
            },
        }
    }
}

pub type Entries = Map<Seq<Seq<char>>, TomlNode>;

/// `e` with key `k` holding the string `v`, or without key `k` when there is none.
pub open spec fn with_opt_string(e: Entries, k: Seq<char>, v: Option<Seq<char>>) -> Entries {
    match v {
        Some(s) => with_leaf(e, k, TomlNode::Str(s)),
        None => without_key(e, k),
    }
}

/// `e` with key `k` holding the boolean `v`, or without key `k` when there is none.
pub open spec fn with_opt_bool(e: Entries, k: Seq<char>, v: Option<bool>) -> Entries {
    match v {
        Some(b) => with_leaf(e, k, TomlNode::Bool(b)),
        None => without_key(e, k),
    }
}

/// The items of a headers table: each name holds its value, a later pair winning over
/// an earlier one with the same name.
pub open spec fn headers_table(s: Seq<(Seq<char>, Seq<char>)>) -> Entries
    decreases s.len(),
{
    if s.len() == 0 {
        no_entries()
    } else {
        with_leaf(headers_table(s.drop_last()), s.last().0, TomlNode::Str(s.last().1))
    }
}

/// `e` with its `extra_headers` table holding `s`, or without one when `s` is empty.
pub open spec fn with_extra_headers(e: Entries, s: Seq<(Seq<char>, Seq<char>)>) -> Entries {
    if s.len() == 0 {
        without_key(e, "extra_headers"@)
    } else {
        with_table(ensured(e, "extra_headers"@), "extra_headers"@, headers_table(s))
    }
}

/// The `[model.<id>]` table after the write, from the table `t` that was there.
pub open spec fn model_table_after(t: Entries, w: ProviderModelWrite) -> Entries {
    let t1 = with_leaf(t, "model"@, TomlNode::Str(w.model@));
    let t2 = with_leaf(t1, "name"@, TomlNode::Str(w.name@));
    let t3 = with_leaf(t2, "base_url"@, TomlNode::Str(w.base_url@));
    let t4 = with_leaf(t3, "api_backend"@, TomlNode::Str(w.api_backend@));
    let t5 = with_opt_string(t4, "env_key"@, opt_string_view(w.env_key));
    let t6 = with_opt_string(t5, "api_key"@, opt_string_view(w.api_key));
    let t7 = with_opt_bool(t6, "auth_not_required"@, if w.auth_not_required { Some(true) } else { None });
    with_extra_headers(t7, header_entries(w.extra_headers))
}

/// The root table after the write, from the root `e` that was there.
pub open spec fn provider_config_after(e: Entries, w: ProviderModelWrite) -> Entries {
    let ea = ensured(e, "auth"@);
    let e1 = with_table(ea, "auth"@, with_leaf(subtree(ea, "auth"@), "preferred_method"@, TomlNode::Str("api_key"@)));
    let em = ensured(e1, "models"@);
    let e2 = with_table(em, "models"@, with_leaf(subtree(em, "models"@), "default"@, TomlNode::Str(w.catalog_id@)));
    let er = ensured(e2, "model"@);
    let mr = ensured(subtree(er, "model"@), w.catalog_id@);
    with_table(er, "model"@, with_table(mr, w.catalog_id@, model_table_after(subtree(mr, w.catalog_id@), w)))
}

/// `o` after key `k` is set to a value, when `set`, or removed.
pub open spec fn set_orders(o: Orders, k: Seq<char>, set: bool) -> Orders {
    orders_without(o, k).insert(own_path(), set_or_dropped(o[own_path()], k, set))
}

/// `o` after the table under key `k` is edited into one with the slot orders `c`,
/// keeping its slot or taking a new last one.
pub open spec fn table_written(o: Orders, k: Seq<char>, c: Orders) -> Orders {
    orders_with(o, k, c).insert(own_path(), touched(o[own_path()], k))
}

/// The slot orders of the `[model.<id>]` table after the write, from those `o` it had.
pub open spec fn model_orders_after(o: Orders, w: ProviderModelWrite) -> Orders {
    let o1 = set_orders(o, "model"@, true);
    let o2 = set_orders(o1, "name"@, true);
    let o3 = set_orders(o2, "base_url"@, true);
    let o4 = set_orders(o3, "api_backend"@, true);
    let o5 = set_orders(o4, "env_key"@, w.env_key is Some);
    let o6 = set_orders(o5, "api_key"@, w.api_key is Some);
    let o7 = set_orders(o6, "auth_not_required"@, w.auth_not_required);
    with_extra_headers_orders(o7, header_names(header_entries(w.extra_headers)))
}

/// The slot orders of the root table after the write, from the root's items `e` and
/// slot orders `o`.
pub open spec fn provider_orders_after(e: Entries, o: Orders, w: ProviderModelWrite) -> Orders {
    let ea = ensured(e, "auth"@);
    let e1 = with_table(ea, "auth"@, with_leaf(subtree(ea, "auth"@), "preferred_method"@, TomlNode::Str("api_key"@)));
    let o1 = table_written(o, "auth"@, set_orders(ensured_orders(e, o, "auth"@), "preferred_method"@, true));
    let em = ensured(e1, "models"@);
    let e2 = with_table(em, "models"@, with_leaf(subtree(em, "models"@), "default"@, TomlNode::Str(w.catalog_id@)));
    let o2 = table_written(o1, "models"@, set_orders(ensured_orders(e1, o1, "models"@), "default"@, true));
    let omr = ensured_orders(e2, o2, "model"@);
    let emr = subtree(ensured(e2, "model"@), "model"@);
    let omr2 = table_written(omr, w.catalog_id@, model_orders_after(ensured_orders(emr, omr, w.catalog_id@), w));
    table_written(o2, "model"@, omr2)
}

/// The items of the config the write starts from: nothing for empty text, else what
/// the text parses to.
pub open spec fn base_config(existing: Seq<char>) -> Result<Entries, Seq<char>> {
    if existing.len() == 0 {
        Ok(no_entries())
    } else {
        toml_parse(existing)
    }
}

/// The table under `key`, created (replacing any other item there) when missing.
pub fn ensure_table<'a>(parent: &'a mut toml_edit::Table, key: &str) -> (child: &'a mut toml_edit::Table)
    ensures
        toml_table_entries(*child) == subtree(ensured(toml_table_entries(*old(parent)), key@), key@),
        toml_table_entries(*final(parent)) == with_table(
            ensured(toml_table_entries(*old(parent)), key@),
            key@,
            toml_table_entries(*final(child)),
        ),
        toml_table_orders(*child) == ensured_orders(toml_table_entries(*old(parent)), toml_table_orders(*old(parent)), key@),
        toml_table_orders(*final(parent)) == orders_with(toml_table_orders(*old(parent)), key@, toml_table_orders(*final(child))).insert(
            own_path(),
            touched(toml_table_orders(*old(parent))[own_path()], key@),
        ),
{
    let ghost o0 = toml_table_orders(*parent);
    let needs_replacement = !toml_table_has_table(parent, key);
    if needs_replacement {
        toml_table_insert_table(parent, key, toml_table_new());
        proof {
            lemma_orders_fresh_table(o0, key@);
        }
    } else {
        proof {
            lemma_orders_existing_table(o0, key@);
        }
    }
    toml_table_get_table_mut(parent, key)
}

/// The slot orders of the table under key `k` once it is ensured: its own when it is
/// a table, else those of an empty table.
pub open spec fn ensured_orders(e: Entries, o: Orders, k: Seq<char>) -> Orders {
    if has_table_at(e, k) {
        sub_orders(o, k)
    } else {
        map![own_path() => Seq::<Seq<char>>::empty()]
    }
}

/// Putting an empty table under `k`, then editing it into `c`, grafts `c` there.
proof fn lemma_orders_fresh_table(o0: Orders, k: Seq<char>)
    ensures
        ({
            let o1 = orders_with(o0, k, map![own_path() => Seq::<Seq<char>>::empty()]).insert(own_path(), touched(o0[own_path()], k));
            &&& sub_orders(o1, k) == map![own_path() => Seq::<Seq<char>>::empty()]
            &&& forall|c: Orders| #[trigger] orders_with(o1, k, c) == orders_with(o0, k, c).insert(own_path(), touched(o0[own_path()], k))
        }),
{
    let e0 = map![own_path() => Seq::<Seq<char>>::empty()];
    let o1 = orders_with(o0, k, e0).insert(own_path(), touched(o0[own_path()], k));
    assert forall|p: Seq<Seq<char>>| #![auto] sub_orders(o1, k).contains_key(p) <==> e0.contains_key(p) by {
        assert((seq![k] + p).drop_first() =~= p);
        assert((seq![k] + p)[0] == k);
        assert(seq![k] + p != own_path()) by { assert((seq![k] + p).len() != 0); }
    }
    assert forall|p: Seq<Seq<char>>| #![auto] sub_orders(o1, k).contains_key(p) implies sub_orders(o1, k)[p] == e0[p] by {
        assert((seq![k] + p).drop_first() =~= p);
        assert((seq![k] + p)[0] == k);
        assert(seq![k] + p != own_path()) by { assert((seq![k] + p).len() != 0); }
    }
    assert(sub_orders(o1, k) =~= e0);
    assert forall|c: Orders| #[trigger] orders_with(o1, k, c) == orders_with(o0, k, c).insert(own_path(), touched(o0[own_path()], k)) by {
        assert(orders_with(o1, k, c) =~= orders_with(o0, k, c).insert(own_path(), touched(o0[own_path()], k)));
    }
}

/// Editing a table already under `k` into `c` grafts `c` there and keeps the slot.
proof fn lemma_orders_existing_table(o0: Orders, k: Seq<char>)
    requires
        o0.contains_key(own_path()),
        o0[own_path()].contains(k),
    ensures
        forall|c: Orders| #[trigger] orders_with(o0, k, c) == orders_with(o0, k, c).insert(own_path(), touched(o0[own_path()], k)),
{
    assert forall|c: Orders| #[trigger] orders_with(o0, k, c) == orders_with(o0, k, c).insert(own_path(), touched(o0[own_path()], k)) by {
        assert(orders_with(o0, k, c) =~= orders_with(o0, k, c).insert(own_path(), touched(o0[own_path()], k)));
    }
}

/// A slot order after key `k` is set, when `set`, or removed.
pub open spec fn set_or_dropped(s: Seq<Seq<char>>, k: Seq<char>, set: bool) -> Seq<Seq<char>> {
    if set {
        touched(s, k)
    } else {
        without_slot(s, k)
    }
}

/// Sets `key` to the string, or removes it when there is none.
pub fn set_table_string(table: &mut toml_edit::Table, key: &str, value_to_set: Option<&str>)
    ensures
        toml_table_entries(*final(table)) == with_opt_string(
            toml_table_entries(*old(table)),
            key@,
            match value_to_set {
                Some(v) => Some(v@),
                None => None,
            },
        ),
        toml_table_orders(*final(table)) == orders_without(toml_table_orders(*old(table)), key@).insert(
            own_path(),
            set_or_dropped(toml_table_orders(*old(table))[own_path()], key@, value_to_set is Some),
        ),
{
    match value_to_set {
        Some(value_to_set) => toml_table_set_string(table, key, value_to_set),
        None => toml_table_remove(table, key),
    }
}

/// Sets `key` to the boolean, or removes it when there is none.
pub fn set_table_bool(table: &mut toml_edit::Table, key: &str, value_to_set: Option<bool>)
    ensures
        toml_table_entries(*final(table)) == with_opt_bool(toml_table_entries(*old(table)), key@, value_to_set),
        toml_table_orders(*final(table)) == orders_without(toml_table_orders(*old(table)), key@).insert(
            own_path(),
            set_or_dropped(toml_table_orders(*old(table))[own_path()], key@, value_to_set is Some),
        ),
{
    match value_to_set {
        Some(value_to_set) => toml_table_set_bool(table, key, value_to_set),
        None => toml_table_remove(table, key),
    }
}

/// The names of header pairs, in order.
pub open spec fn header_names(s: Seq<(Seq<char>, Seq<char>)>) -> Seq<Seq<char>> {
    s.map_values(|e: (Seq<char>, Seq<char>)| e.0)
}

/// `o` after the `extra_headers` table is given the header names `names`, in that
/// order, or removed when there are none.
pub open spec fn with_extra_headers_orders(o: Orders, names: Seq<Seq<char>>) -> Orders {
    if names.len() > 0 {
        orders_with(o, "extra_headers"@, map![own_path() => names]).insert(own_path(), touched(o[own_path()], "extra_headers"@))
    } else {
        orders_without(o, "extra_headers"@).insert(own_path(), without_slot(o[own_path()], "extra_headers"@))
    }
}

/// Replaces the `extra_headers` table by `headers`, in their order, or removes it when
/// there are none.
pub fn set_extra_headers(table: &mut toml_edit::Table, headers: &indexmap::IndexMap<String, String>)
    ensures
        toml_table_entries(*final(table)) == with_extra_headers(toml_table_entries(*old(table)), header_entries(*headers)),
        toml_table_orders(*final(table)) == with_extra_headers_orders(
            toml_table_orders(*old(table)),
            header_names(header_entries(*headers)),
        ),
{
    let n = headers_len(headers);
    if n == 0 {
        toml_table_remove(table, "extra_headers");
        return;
    }
    let headers_table_ref = ensure_table(table, "extra_headers");
    toml_table_clear(headers_table_ref);
    assert(header_names(header_entries(*headers)).subrange(0, 0) =~= Seq::<Seq<char>>::empty());
    let mut i: usize = 0;
    while i < n
        invariant
            n == header_entries(*headers).len(),
            i <= n,
            toml_table_entries(*headers_table_ref) == headers_table(header_entries(*headers).subrange(0, i as int)),
            toml_table_orders(*headers_table_ref) == map![own_path() => header_names(header_entries(*headers)).subrange(0, i as int)],
        decreases n - i,
    {
        let (key, value_to_set) = headers_get_index(headers, i);
        let ghost names = header_names(header_entries(*headers));
        assert(!names.subrange(0, i as int).contains(key@)) by {
            if names.subrange(0, i as int).contains(key@) {
                let j = choose|j: int| 0 <= j < i && names.subrange(0, i as int)[j] == key@;
                assert(names[j] == header_entries(*headers)[j].0);
            }
        }
        toml_table_set_string(headers_table_ref, key.as_str(), value_to_set.as_str());
        assert(header_entries(*headers).subrange(0, i + 1).drop_last() =~= header_entries(*headers).subrange(0, i as int));
        assert(names.subrange(0, i as int).push(key@) =~= names.subrange(0, i + 1));
        assert(toml_table_orders(*headers_table_ref) =~= map![own_path() => names.subrange(0, i + 1)]);
        i = i + 1;
    }
    assert(header_entries(*headers).subrange(0, n as int) =~= header_entries(*headers));
    assert(header_names(header_entries(*headers)).subrange(0, n as int) =~= header_names(header_entries(*headers)));
    assert(header_names(header_entries(*headers)).len() == n);
}

fn opt_as_str(o: &Option<String>) -> (r: Option<&str>)
    ensures
        match r {
            Some(s) => opt_string_view(*o) == Some(s@),
            None => opt_string_view(*o) is None,
        },
{
    match o {
        Some(s) => Some(s.as_str()),
        None => None,
    }
}

/// Writes the provider model into the document.
pub fn apply_provider_model_write(doc: &mut toml_edit::DocumentMut, write: &ProviderModelWrite)
    ensures
        toml_document_entries(*final(doc)) == provider_config_after(toml_document_entries(*old(doc)), *write),
        toml_document_orders(*final(doc)) == provider_orders_after(
            toml_document_entries(*old(doc)),
            toml_document_orders(*old(doc)),
            *write,
        ),
{
    let root = toml_document_root_mut(doc);
    let auth = ensure_table(root, "auth");
    set_table_string(auth, "preferred_method", Some("api_key"));
    let models = ensure_table(root, "models");
    set_table_string(models, "default", Some(write.catalog_id.as_str()));
    let model_root = ensure_table(root, "model");
    let model_table = ensure_table(model_root, write.catalog_id.as_str());
    set_table_string(model_table, "model", Some(write.model.as_str()));
    set_table_string(model_table, "name", Some(write.name.as_str()));
    set_table_string(model_table, "base_url", Some(write.base_url.as_str()));
    set_table_string(model_table, "api_backend", Some(write.api_backend.as_str()));
    set_table_string(model_table, "env_key", opt_as_str(&write.env_key));
    set_table_string(model_table, "api_key", opt_as_str(&write.api_key));
    set_table_bool(model_table, "auth_not_required", if write.auth_not_required { Some(true) } else { None });
    set_extra_headers(model_table, &write.extra_headers);
}

/// The document to write into: empty for empty text, else the parsed text; text that
/// does not parse is refused.
pub fn read_config_document_for_write(content: &str) -> (r: Result<toml_edit::DocumentMut, ConfigWriteError>)
    ensures
        match r {
            Ok(d) => base_config(content@) == Ok::<Entries, Seq<char>>(toml_document_entries(d)),
            Err(ConfigWriteError::Unparseable { detail }) => base_config(content@) == Err::<Entries, Seq<char>>(detail@),
        },
{
    if content.is_empty() {
        return Ok(toml_document_new());
    }
    match toml_document_parse(content) {
        Ok(doc) => Ok(doc),
        Err(detail) => Err(ConfigWriteError::Unparseable { detail }),
    }
}

/// The existing config text with the provider model merged in, as a document.
pub fn merge_provider_model_config(existing: &str, write: &ProviderModelWrite) -> (r: Result<toml_edit::DocumentMut, ConfigWriteError>)
    ensures
        match base_config(existing@) {
            Ok(e) => r matches Ok(d) && toml_document_entries(d) == provider_config_after(e, *write),
            Err(m) => r matches Err(ConfigWriteError::Unparseable { detail }) && detail@ == m,
        },
{
    let mut doc = read_config_document_for_write(existing)?;
    apply_provider_model_write(&mut doc, write);
    Ok(doc)
}

/// The text to write back: the existing config with the provider model merged in.
pub fn render_provider_model_config(existing: &str, write: &ProviderModelWrite) -> (r: Result<String, ConfigWriteError>)
    ensures
        match base_config(existing@) {
            Ok(e) => r matches Ok(text) && exists|d: toml_edit::DocumentMut|
                #![trigger toml_document_text(d)]
                toml_document_text(d) == text@ && toml_document_entries(d) == provider_config_after(e, *write),
            Err(m) => r matches Err(ConfigWriteError::Unparseable { detail }) && detail@ == m,
        },
{
    let doc = merge_provider_model_config(existing, write)?;
    let text = toml_document_render(&doc);
    assert(toml_document_text(doc) == text@);
    Ok(text)
}

} // verus!
