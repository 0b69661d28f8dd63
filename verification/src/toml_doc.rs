//! The parts of a `toml_edit` document that the config writer reads and changes.
//!
//! A table is described by the items reachable from it through nested tables, each
//! keyed by its path of keys: a nested table, a string, a boolean, or some other value.
use vstd::prelude::*;

verus! {

#[verifier::external_type_specification]
#[verifier::external_body]
pub struct ExTable(toml_edit::Table);

#[verifier::external_type_specification]
#[verifier::external_body]
pub struct ExDocumentMut(toml_edit::DocumentMut);

/// An item of a TOML table, as far as the config writer tells them apart.
pub enum TomlNode {
    Table,
    Str(Seq<char>),
    Bool(bool),
    Other,
}

/// The items of a table by path: `seq![k]` is the item under key `k`, and
/// `seq![k] + p` the item at path `p` inside the table under `k`.
pub uninterp spec fn toml_table_entries(t: toml_edit::Table) -> Map<Seq<Seq<char>>, TomlNode>;

/// The items of a document's root table by path.
pub uninterp spec fn toml_document_entries(d: toml_edit::DocumentMut) -> Map<Seq<Seq<char>>, TomlNode>;

/// The text a document renders to.
pub uninterp spec fn toml_document_text(d: toml_edit::DocumentMut) -> Seq<char>;

/// What parsing `text` gives: the document's items, or the parser's message.
pub uninterp spec fn toml_parse(text: Seq<char>) -> Result<Map<Seq<Seq<char>>, TomlNode>, Seq<char>>;

/// The order of a table's slots: for the table itself (the empty path) and for each
/// nested table (by its path), the keys of its slots in the order the table keeps
/// them. A slot that indexing created and nothing filled counts too.
pub uninterp spec fn toml_table_orders(t: toml_edit::Table) -> Map<Seq<Seq<char>>, Seq<Seq<char>>>;

/// The path of a table itself in its own `toml_table_orders`.
pub open spec fn own_path() -> Seq<Seq<char>> {
    Seq::empty()
}

/// A slot order after key `k` is written: unchanged when `k` has a slot, else with `k`
/// last.
pub open spec fn touched(s: Seq<Seq<char>>, k: Seq<char>) -> Seq<Seq<char>> {
    if s.contains(k) {
        s
    } else {
        s.push(k)
    }
}

/// A slot order without key `k`.
pub open spec fn without_slot(s: Seq<Seq<char>>, k: Seq<char>) -> Seq<Seq<char>> {
    s.filter(|x: Seq<char>| x != k)
}

/// Slot orders by table path, as `toml_table_orders` gives them.
pub type Orders = Map<Seq<Seq<char>>, Seq<Seq<char>>>;

/// The slot orders of the table under key `k`, by their path inside it.
pub open spec fn sub_orders(o: Orders, k: Seq<char>) -> Orders {
    Map::new(|p: Seq<Seq<char>>| o.contains_key(seq![k] + p), |p: Seq<Seq<char>>| o[seq![k] + p])
}

/// `o` without the orders of tables at or under key `k`.
pub open spec fn orders_without(o: Orders, k: Seq<char>) -> Orders {
    Map::new(|p: Seq<Seq<char>>| o.contains_key(p) && !starts_with_key(p, k), |p: Seq<Seq<char>>| o[p])
}

/// `o` with the table under key `k` having the slot orders `c`.
pub open spec fn orders_with(o: Orders, k: Seq<char>, c: Orders) -> Orders {
    Map::new(
        |p: Seq<Seq<char>>|
            (o.contains_key(p) && !starts_with_key(p, k)) || (starts_with_key(p, k) && c.contains_key(p.drop_first())),
        |p: Seq<Seq<char>>|
            if starts_with_key(p, k) {
                c[p.drop_first()]
            } else {
                o[p]
            },
    )
}

/// The slot order of each table of a document, by path, as for a table.
pub uninterp spec fn toml_document_orders(d: toml_edit::DocumentMut) -> Map<Seq<Seq<char>>, Seq<Seq<char>>>;

/// A table with no items.
pub open spec fn no_entries() -> Map<Seq<Seq<char>>, TomlNode> {
    Map::empty()
}

/// Whether path `p` lies under key `k`.
pub open spec fn starts_with_key(p: Seq<Seq<char>>, k: Seq<char>) -> bool {
    p.len() > 0 && p[0] == k
}

/// Whether key `k` holds a table.
pub open spec fn has_table_at(e: Map<Seq<Seq<char>>, TomlNode>, k: Seq<char>) -> bool {
    e.contains_key(seq![k]) && e[seq![k]] == TomlNode::Table
}

/// `e` without key `k` and everything under it.
pub open spec fn without_key(e: Map<Seq<Seq<char>>, TomlNode>, k: Seq<char>) -> Map<Seq<Seq<char>>, TomlNode> {
    Map::new(|p: Seq<Seq<char>>| e.contains_key(p) && !starts_with_key(p, k), |p: Seq<Seq<char>>| e[p])
}

/// The items under key `k`, by their path inside it.
pub open spec fn subtree(e: Map<Seq<Seq<char>>, TomlNode>, k: Seq<char>) -> Map<Seq<Seq<char>>, TomlNode> {
    Map::new(
        |p: Seq<Seq<char>>| p.len() > 0 && e.contains_key(seq![k] + p),
        |p: Seq<Seq<char>>| e[seq![k] + p],
    )
}

/// `e` with key `k` holding the single item `n`.
pub open spec fn with_leaf(e: Map<Seq<Seq<char>>, TomlNode>, k: Seq<char>, n: TomlNode) -> Map<Seq<Seq<char>>, TomlNode> {
    without_key(e, k).insert(seq![k], n)
}

/// `e` with key `k` holding a table whose items are `sub`.
pub open spec fn with_table(
    e: Map<Seq<Seq<char>>, TomlNode>,
    k: Seq<char>,
    sub: Map<Seq<Seq<char>>, TomlNode>,
) -> Map<Seq<Seq<char>>, TomlNode> {
    Map::new(
        |p: Seq<Seq<char>>|
            (e.contains_key(p) && !starts_with_key(p, k)) || p == seq![k] || (starts_with_key(p, k)
                && p.len() > 1 && sub.contains_key(p.drop_first())),
        |p: Seq<Seq<char>>|
            if p == seq![k] {
                TomlNode::Table
            } else if starts_with_key(p, k) {
                sub[p.drop_first()]
            } else {
                e[p]
            },
    )
}

/// `e` where key `k` holds a table: as it is when it does, else with an empty table there.
pub open spec fn ensured(e: Map<Seq<Seq<char>>, TomlNode>, k: Seq<char>) -> Map<Seq<Seq<char>>, TomlNode> {
    if has_table_at(e, k) {
        e
    } else {
        with_table(e, k, no_entries())
    }
}

/// The items at and under key `k` after `with_table(e, k, sub)`: a table at `k`, and
/// `sub`'s items below it.
pub proof fn lemma_with_table_under(
    e: Map<Seq<Seq<char>>, TomlNode>,
    k: Seq<char>,
    sub: Map<Seq<Seq<char>>, TomlNode>,
    q: Seq<Seq<char>>,
)
    ensures
        q.len() == 0 ==> with_table(e, k, sub).contains_key(seq![k] + q) && with_table(e, k, sub)[seq![k] + q]
            == TomlNode::Table,
        q.len() > 0 ==> with_table(e, k, sub).contains_key(seq![k] + q) == sub.contains_key(q),
        q.len() > 0 && sub.contains_key(q) ==> with_table(e, k, sub)[seq![k] + q] == sub[q],
{
    let p = seq![k] + q;
    assert(p.drop_first() =~= q);
    if q.len() == 0 {
        assert(p =~= seq![k]);
    } else {
        assert(p != seq![k]) by {
            assert(p.len() != seq![k].len());
        }
    }
}

/// The items at and under key `k` after `with_leaf(e, k, n)`: `n` at `k`, nothing below.
pub proof fn lemma_with_leaf_under(e: Map<Seq<Seq<char>>, TomlNode>, k: Seq<char>, n: TomlNode, q: Seq<Seq<char>>)
    ensures
        q.len() == 0 ==> with_leaf(e, k, n).contains_key(seq![k] + q) && with_leaf(e, k, n)[seq![k] + q] == n,
        q.len() > 0 ==> !with_leaf(e, k, n).contains_key(seq![k] + q),
{
    let p = seq![k] + q;
    assert(p[0] == k);
    if q.len() == 0 {
        assert(p =~= seq![k]);
    } else {
        assert(p != seq![k]) by {
            assert(p.len() != seq![k].len());
        }
    }
}

/// Nothing is at or under key `k` after `without_key(e, k)`.
pub proof fn lemma_without_key_under(e: Map<Seq<Seq<char>>, TomlNode>, k: Seq<char>, q: Seq<Seq<char>>)
    ensures
        !without_key(e, k).contains_key(seq![k] + q),
{
    assert((seq![k] + q)[0] == k);
}

/// Items not under key `k` are untouched by every change made at `k`.
pub proof fn lemma_elsewhere(e: Map<Seq<Seq<char>>, TomlNode>, k: Seq<char>, p: Seq<Seq<char>>)
    requires
        !starts_with_key(p, k),
    ensures
        forall|n: TomlNode| #![auto] with_leaf(e, k, n).contains_key(p) == e.contains_key(p)
            && (e.contains_key(p) ==> with_leaf(e, k, n)[p] == e[p]),
        without_key(e, k).contains_key(p) == e.contains_key(p),
        e.contains_key(p) ==> without_key(e, k)[p] == e[p],
        forall|sub: Map<Seq<Seq<char>>, TomlNode>| #![auto] with_table(e, k, sub).contains_key(p) == e.contains_key(p)
            && (e.contains_key(p) ==> with_table(e, k, sub)[p] == e[p]),
        ensured(e, k).contains_key(p) == e.contains_key(p),
        e.contains_key(p) ==> ensured(e, k)[p] == e[p],
{
    if p == seq![k] {
        assert(starts_with_key(p, k));
    }
}

/// A table's items never include the empty path.
pub open spec fn no_root(e: Map<Seq<Seq<char>>, TomlNode>) -> bool {
    !e.contains_key(Seq::<Seq<char>>::empty())
}

/// Putting back the items that are under a table leaves the items as they were.
pub proof fn lemma_with_table_self(e: Map<Seq<Seq<char>>, TomlNode>, k: Seq<char>)
    requires
        has_table_at(e, k),
    ensures
        with_table(e, k, subtree(e, k)) == e,
{
    let r = with_table(e, k, subtree(e, k));
    assert forall|p: Seq<Seq<char>>| #![auto] r.contains_key(p) <==> e.contains_key(p) by {
        if starts_with_key(p, k) && p.len() > 1 {
            assert(seq![k] + p.drop_first() =~= p);
        }
        if starts_with_key(p, k) && p.len() == 1 {
            assert(p =~= seq![k]);
        }
    }
    assert forall|p: Seq<Seq<char>>| #![auto] r.contains_key(p) implies r[p] == e[p] by {
        if starts_with_key(p, k) && p != seq![k] {
            assert(seq![k] + p.drop_first() =~= p);
        }
    }
    assert(r =~= e);
}

/// The items under `k` after `with_table(e, k, sub)` are `sub`.
pub proof fn lemma_subtree_with_table_same(e: Map<Seq<Seq<char>>, TomlNode>, k: Seq<char>, sub: Map<Seq<Seq<char>>, TomlNode>)
    requires
        no_root(sub),
    ensures
        subtree(with_table(e, k, sub), k) == sub,
{
    let r = subtree(with_table(e, k, sub), k);
    assert forall|q: Seq<Seq<char>>| #![auto] r.contains_key(q) <==> sub.contains_key(q) by {
        lemma_with_table_under(e, k, sub, q);
        if q.len() == 0 {
            assert(q =~= Seq::<Seq<char>>::empty());
        }
    }
    assert forall|q: Seq<Seq<char>>| #![auto] r.contains_key(q) implies r[q] == sub[q] by {
        lemma_with_table_under(e, k, sub, q);
    }
    assert(r =~= sub);
}

/// Changes at key `k2` leave the items under another key `k` as they were.
pub proof fn lemma_subtree_elsewhere(e: Map<Seq<Seq<char>>, TomlNode>, k: Seq<char>, k2: Seq<char>)
    requires
        k != k2,
    ensures
        forall|n: TomlNode| #![auto] subtree(with_leaf(e, k2, n), k) == subtree(e, k),
        subtree(without_key(e, k2), k) == subtree(e, k),
        forall|sub: Map<Seq<Seq<char>>, TomlNode>| #![auto] subtree(with_table(e, k2, sub), k) == subtree(e, k),
        subtree(ensured(e, k2), k) == subtree(e, k),
        has_table_at(ensured(e, k2), k) == has_table_at(e, k),
        forall|sub: Map<Seq<Seq<char>>, TomlNode>| #![auto] has_table_at(with_table(e, k2, sub), k) == has_table_at(e, k),
        forall|n: TomlNode| #![auto] has_table_at(with_leaf(e, k2, n), k) == has_table_at(e, k),
        has_table_at(without_key(e, k2), k) == has_table_at(e, k),
{
    assert forall|q: Seq<Seq<char>>| #![auto] true implies !starts_with_key(seq![k] + q, k2) by {
        assert((seq![k] + q)[0] == k);
    }
    assert forall|q: Seq<Seq<char>>| #![auto] true implies {
        &&& (forall|n: TomlNode| #![auto] with_leaf(e, k2, n).contains_key(seq![k] + q) == e.contains_key(seq![k] + q)
            && (e.contains_key(seq![k] + q) ==> with_leaf(e, k2, n)[seq![k] + q] == e[seq![k] + q]))
        &&& without_key(e, k2).contains_key(seq![k] + q) == e.contains_key(seq![k] + q)
        &&& (forall|sub: Map<Seq<Seq<char>>, TomlNode>| #![auto] with_table(e, k2, sub).contains_key(seq![k] + q)
            == e.contains_key(seq![k] + q) && (e.contains_key(seq![k] + q) ==> with_table(e, k2, sub)[seq![k] + q]
            == e[seq![k] + q]))
        &&& ensured(e, k2).contains_key(seq![k] + q) == e.contains_key(seq![k] + q)
        &&& (e.contains_key(seq![k] + q) ==> ensured(e, k2)[seq![k] + q] == e[seq![k] + q])
    } by {
        assert((seq![k] + q)[0] == k);
        lemma_elsewhere(e, k2, seq![k] + q);
    }
    assert(seq![k] =~= seq![k] + Seq::<Seq<char>>::empty());
    assert forall|n: TomlNode| #![auto] true implies subtree(with_leaf(e, k2, n), k) == subtree(e, k) by {
        assert(subtree(with_leaf(e, k2, n), k) =~= subtree(e, k));
    }
    assert(subtree(without_key(e, k2), k) =~= subtree(e, k));
    assert forall|sub: Map<Seq<Seq<char>>, TomlNode>| #![auto] true implies subtree(with_table(e, k2, sub), k) == subtree(e, k) by {
        assert(subtree(with_table(e, k2, sub), k) =~= subtree(e, k));
    }
    assert(subtree(ensured(e, k2), k) =~= subtree(e, k));
}

/// Setting key `k` twice keeps only the second setting.
pub proof fn lemma_with_leaf_twice(e: Map<Seq<Seq<char>>, TomlNode>, k: Seq<char>, a: TomlNode, b: TomlNode)
    ensures
        with_leaf(with_leaf(e, k, a), k, b) == with_leaf(e, k, b),
        with_leaf(without_key(e, k), k, b) == with_leaf(e, k, b),
        without_key(with_leaf(e, k, a), k) == without_key(e, k),
        without_key(without_key(e, k), k) == without_key(e, k),
{
    assert(seq![k][0] == k);
    assert(with_leaf(with_leaf(e, k, a), k, b) =~= with_leaf(e, k, b));
    assert(with_leaf(without_key(e, k), k, b) =~= with_leaf(e, k, b));
    assert(without_key(with_leaf(e, k, a), k) =~= without_key(e, k));
    assert(without_key(without_key(e, k), k) =~= without_key(e, k));
}

/// Every change keeps the empty path out of a table's items.
pub proof fn lemma_no_root(e: Map<Seq<Seq<char>>, TomlNode>, k: Seq<char>)
    ensures
        no_root(subtree(e, k)),
        no_root(e) ==> forall|n: TomlNode| #![auto] no_root(with_leaf(e, k, n)),
        no_root(e) ==> no_root(without_key(e, k)),
        no_root(e) ==> forall|sub: Map<Seq<Seq<char>>, TomlNode>| #![auto] no_root(with_table(e, k, sub)),
        no_root(e) ==> no_root(ensured(e, k)),
        no_root(no_entries()),
{
    assert(Seq::<Seq<char>>::empty() != seq![k]) by {
        assert(seq![k].len() == 1);
    }
}

/// The slot orders at and under key `k` after `orders_with(o, k, c)` are `c`'s, and
/// those elsewhere `o`'s; `orders_without(o, k)` keeps those elsewhere too.
pub proof fn lemma_orders_with_at(o: Orders, k: Seq<char>, c: Orders, q: Seq<Seq<char>>)
    ensures
        orders_with(o, k, c).contains_key(seq![k] + q) == c.contains_key(q),
        c.contains_key(q) ==> orders_with(o, k, c)[seq![k] + q] == c[q],
        seq![k] + q != own_path(),
        !starts_with_key(q, k) ==> orders_with(o, k, c).contains_key(q) == o.contains_key(q),
        !starts_with_key(q, k) && o.contains_key(q) ==> orders_with(o, k, c)[q] == o[q],
        !starts_with_key(q, k) ==> orders_without(o, k).contains_key(q) == o.contains_key(q),
        !starts_with_key(q, k) && o.contains_key(q) ==> orders_without(o, k)[q] == o[q],
        sub_orders(o, k).contains_key(q) == o.contains_key(seq![k] + q),
        o.contains_key(seq![k] + q) ==> sub_orders(o, k)[q] == o[seq![k] + q],
{
    assert((seq![k] + q).drop_first() =~= q);
    assert((seq![k] + q)[0] == k);
    assert((seq![k] + q).len() != 0);
}

/// `toml_edit::Table::new`: an empty table, with no slots.
#[verifier::external_body]
pub(crate) fn toml_table_new() -> (t: toml_edit::Table)
    ensures
        toml_table_entries(t) == no_entries(),
        toml_table_orders(t) == map![own_path() => Seq::<Seq<char>>::empty()],
{
    toml_edit::Table::new()
}

/// `toml_edit::Table::get`, telling whether the item under `key` is a table; a table
/// there has a slot, and an order of its own.
#[verifier::external_body]
pub(crate) fn toml_table_has_table(t: &toml_edit::Table, key: &str) -> (r: bool)
    ensures
        r == has_table_at(toml_table_entries(*t), key@),
        r ==> toml_table_orders(*t).contains_key(own_path()) && toml_table_orders(*t)[own_path()].contains(key@)
            && toml_table_orders(*t).contains_key(seq![key@]),
{
    matches!(t.get(key), Some(toml_edit::Item::Table(_)))
}

/// `toml_edit::Table::insert` of a table item: key `key` now holds `sub`, in the slot
/// it had, or in a new last slot.
#[verifier::external_body]
pub(crate) fn toml_table_insert_table(t: &mut toml_edit::Table, key: &str, sub: toml_edit::Table)
    ensures
        toml_table_entries(*final(t)) == with_table(toml_table_entries(*old(t)), key@, toml_table_entries(sub)),
        toml_table_orders(*final(t)) == orders_with(toml_table_orders(*old(t)), key@, toml_table_orders(sub)).insert(
            own_path(),
            touched(toml_table_orders(*old(t))[own_path()], key@),
        ),
{
    t.insert(key, toml_edit::Item::Table(sub));
}

/// `toml_edit::Item::as_table_mut` on the item under `key`, which is a table: the
/// nested table, for editing in place; the slot stays where it was.
#[verifier::external_body]
pub(crate) fn toml_table_get_table_mut<'a>(t: &'a mut toml_edit::Table, key: &str) -> (r: &'a mut toml_edit::Table)
    requires
        has_table_at(toml_table_entries(*old(t)), key@),
    ensures
        toml_table_entries(*r) == subtree(toml_table_entries(*old(t)), key@),
        toml_table_entries(*final(t)) == with_table(toml_table_entries(*old(t)), key@, toml_table_entries(*final(r))),
        toml_table_orders(*r) == sub_orders(toml_table_orders(*old(t)), key@),
        toml_table_orders(*final(t)) == orders_with(toml_table_orders(*old(t)), key@, toml_table_orders(*final(r))),
{
    t[key].as_table_mut().unwrap()
}

/// Assigning `toml_edit::value(v)` to the item under `key`: it now holds the string
/// `v`, in the slot it had, or in a new last slot.
#[verifier::external_body]
pub(crate) fn toml_table_set_string(t: &mut toml_edit::Table, key: &str, v: &str)
    ensures
        toml_table_entries(*final(t)) == with_leaf(toml_table_entries(*old(t)), key@, TomlNode::Str(v@)),
        toml_table_orders(*final(t)) == orders_without(toml_table_orders(*old(t)), key@).insert(
            own_path(),
            touched(toml_table_orders(*old(t))[own_path()], key@),
        ),
{
    t[key] = toml_edit::value(v);
}

/// Assigning `toml_edit::value(b)` to the item under `key`: it now holds the boolean
/// `b`, in the slot it had, or in a new last slot.
#[verifier::external_body]
pub(crate) fn toml_table_set_bool(t: &mut toml_edit::Table, key: &str, b: bool)
    ensures
        toml_table_entries(*final(t)) == with_leaf(toml_table_entries(*old(t)), key@, TomlNode::Bool(b)),
        toml_table_orders(*final(t)) == orders_without(toml_table_orders(*old(t)), key@).insert(
            own_path(),
            touched(toml_table_orders(*old(t))[own_path()], key@),
        ),
{
    t[key] = toml_edit::value(b);
}

/// `toml_edit::Table::remove` (`shift_remove`): key `key`, its slot and everything
/// under it are gone; the other slots keep their order.
#[verifier::external_body]
pub(crate) fn toml_table_remove(t: &mut toml_edit::Table, key: &str)
    ensures
        toml_table_entries(*final(t)) == without_key(toml_table_entries(*old(t)), key@),
        toml_table_orders(*final(t)) == orders_without(toml_table_orders(*old(t)), key@).insert(
            own_path(),
            without_slot(toml_table_orders(*old(t))[own_path()], key@),
        ),
{
    t.remove(key);
}

/// `toml_edit::Table::clear`: the table is empty, with no slots.
#[verifier::external_body]
pub(crate) fn toml_table_clear(t: &mut toml_edit::Table)
    ensures
        toml_table_entries(*final(t)) == no_entries(),
        toml_table_orders(*final(t)) == map![own_path() => Seq::<Seq<char>>::empty()],
{
    t.clear();
}

/// `toml_edit::DocumentMut::new`: an empty document.
#[verifier::external_body]
pub(crate) fn toml_document_new() -> (d: toml_edit::DocumentMut)
    ensures
        toml_document_entries(d) == no_entries(),
{
    toml_edit::DocumentMut::new()
}

/// `toml_edit::DocumentMut::as_table_mut`: the root table, for editing in place.
#[verifier::external_body]
pub(crate) fn toml_document_root_mut<'a>(d: &'a mut toml_edit::DocumentMut) -> (r: &'a mut toml_edit::Table)
    ensures
        toml_table_entries(*r) == toml_document_entries(*old(d)),
        toml_document_entries(*final(d)) == toml_table_entries(*final(r)),
        toml_table_orders(*r) == toml_document_orders(*old(d)),
        toml_document_orders(*final(d)) == toml_table_orders(*final(r)),
{
    d.as_table_mut()
}

/// Parsing text into a `toml_edit::DocumentMut`; an error is turned into its message.
#[verifier::external_body]
pub(crate) fn toml_document_parse(text: &str) -> (r: Result<toml_edit::DocumentMut, String>)
    ensures
        match r {
            Ok(d) => toml_parse(text@) == Ok::<Map<Seq<Seq<char>>, TomlNode>, Seq<char>>(toml_document_entries(d)),
            Err(e) => toml_parse(text@) == Err::<Map<Seq<Seq<char>>, TomlNode>, Seq<char>>(e@),
        },
{
    text.parse::<toml_edit::DocumentMut>().map_err(|err| err.to_string())
}

/// Rendering a `toml_edit::DocumentMut` to text.
#[verifier::external_body]
pub(crate) fn toml_document_render(d: &toml_edit::DocumentMut) -> (r: String)
    ensures
        r@ == toml_document_text(*d),
{
    d.to_string()
}

} // verus!
