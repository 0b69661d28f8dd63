//! Extra HTTP headers, kept in insertion order in an `indexmap::IndexMap`.
use vstd::prelude::*;

verus! {

#[verifier::external_type_specification]
#[verifier::external_body]
#[verifier::reject_recursive_types(K)]
#[verifier::reject_recursive_types(V)]
#[verifier::reject_recursive_types(S)]
pub struct ExIndexMap<K, V, S>(indexmap::IndexMap<K, V, S>);

/// The (name, value) pairs of a header map, in the map's order.
pub uninterp spec fn header_entries(m: indexmap::IndexMap<String, String>) -> Seq<(Seq<char>, Seq<char>)>;

/// The pairs after `IndexMap::insert(k, v)`: an existing key keeps its place and takes
/// the new value; a new key goes last.
pub open spec fn entries_after_insert(
    s: Seq<(Seq<char>, Seq<char>)>,
    k: Seq<char>,
    v: Seq<char>,
) -> Seq<(Seq<char>, Seq<char>)>
    decreases s.len(),
{
    if s.len() == 0 {
        seq![(k, v)]
    } else if s[0].0 == k {
        s.update(0, (k, v))
    } else {
        seq![s[0]] + entries_after_insert(s.drop_first(), k, v)
    }
}

/// `IndexMap::new`: an empty map.
#[verifier::external_body]
pub(crate) fn headers_new() -> (m: indexmap::IndexMap<String, String>)
    ensures
        header_entries(m) == Seq::<(Seq<char>, Seq<char>)>::empty(),
{
    indexmap::IndexMap::new()
}

/// `IndexMap::insert`: updates an existing key in place, or appends a new pair.
#[verifier::external_body]
pub(crate) fn headers_insert(m: &mut indexmap::IndexMap<String, String>, k: String, v: String)
    ensures
        header_entries(*final(m)) == entries_after_insert(header_entries(*old(m)), k@, v@),
{
    m.insert(k, v);
}

/// `IndexMap::len`: the number of pairs.
#[verifier::external_body]
pub(crate) fn headers_len(m: &indexmap::IndexMap<String, String>) -> (n: usize)
    ensures
        n == header_entries(*m).len(),
{
    m.len()
}

/// `IndexMap::get_index`: the pair at position `i`; no other pair has its key.
#[verifier::external_body]
pub(crate) fn headers_get_index(m: &indexmap::IndexMap<String, String>, i: usize) -> (r: (&String, &String))
    requires
        i < header_entries(*m).len(),
    ensures
        (r.0@, r.1@) == header_entries(*m)[i as int],
        forall|j: int| 0 <= j < header_entries(*m).len() && j != i ==> header_entries(*m)[j].0 != r.0@,
{
    m.get_index(i).unwrap()
}

/// `IndexMap::clone`: a map with the same pairs in the same order.
#[verifier::external_body]
pub(crate) fn headers_clone(m: &indexmap::IndexMap<String, String>) -> (r: indexmap::IndexMap<String, String>)
    ensures
        header_entries(r) == header_entries(*m),
{
    m.clone()
}

} // verus!
