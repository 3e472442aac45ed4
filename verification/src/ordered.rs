use vstd::prelude::*;
use std::borrow::Cow;
use indexmap::IndexMap;
use crate::directive::Directive;

verus! {

#[verifier::external_type_specification]
#[verifier::external_body]
#[verifier::reject_recursive_types(K)]
#[verifier::reject_recursive_types(V)]
#[verifier::reject_recursive_types(S)]
pub struct ExIndexMap<K, V, S>(IndexMap<K, V, S>);

/// The insertion-ordered map from directive names to directives.
pub type DirectiveMap = IndexMap<Cow<'static, str>, Directive>;

/// The pairs a map holds, in its order: each key's text with its value.
pub uninterp spec fn map_entries(map: DirectiveMap) -> Seq<(Seq<char>, Directive)>;

/// Whether some pair has the key.
pub open spec fn has_key(entries: Seq<(Seq<char>, Directive)>, key: Seq<char>) -> bool {
    exists|i: int| 0 <= i < entries.len() && (#[trigger] entries[i]).0 == key
}

/// The position of a pair with the key.
pub open spec fn key_position(entries: Seq<(Seq<char>, Directive)>, key: Seq<char>) -> int {
    choose|i: int| 0 <= i < entries.len() && (#[trigger] entries[i]).0 == key
}

/// No key occurs twice.
pub open spec fn distinct_keys(entries: Seq<(Seq<char>, Directive)>) -> bool {
    forall|i: int, j: int|
        0 <= i < entries.len() && 0 <= j < entries.len() && i != j ==> (#[trigger] entries[i]).0
            != (#[trigger] entries[j]).0
}

/// The pairs after an insertion: the value replaces the one under an equal
/// key, which keeps its place; a new key goes last.
pub open spec fn entries_insert(
    entries: Seq<(Seq<char>, Directive)>,
    key: Seq<char>,
    value: Directive,
) -> Seq<(Seq<char>, Directive)> {
    if has_key(entries, key) {
        entries.update(key_position(entries, key), (key, value))
    } else {
        entries.push((key, value))
    }
}

/// `IndexMap::new`: a map without pairs.
#[verifier::external_body]
pub(crate) fn map_new() -> (r: DirectiveMap)
    ensures
        map_entries(r) == Seq::<(Seq<char>, Directive)>::empty(),
{
    IndexMap::new()
}

/// `IndexMap::len`: the number of pairs.
#[verifier::external_body]
pub(crate) fn map_len(map: &DirectiveMap) -> (r: usize)
    ensures
        r == map_entries(*map).len(),
{
    map.len()
}

/// `IndexMap::insert`: under a key that is present the value is replaced in
/// place, and a new key is added last. No key occurs twice in a map.
#[verifier::external_body]
pub(crate) fn map_insert(map: &mut DirectiveMap, key: Cow<'static, str>, value: Directive)
    requires
        distinct_keys(map_entries(*old(map))),
    ensures
        map_entries(*final(map)) == entries_insert(map_entries(*old(map)), key@, value),
{
    map.insert(key, value);
}

/// `IndexMap::get`: the value under the key, if the key is present.
#[verifier::external_body]
pub(crate) fn map_get<'a>(map: &'a DirectiveMap, key: &str) -> (r: Option<&'a Directive>)
    requires
        distinct_keys(map_entries(*map)),
    ensures
        r is Some == has_key(map_entries(*map), key@),
        r matches Some(value) ==> *value == map_entries(*map)[key_position(
            map_entries(*map),
            key@,
        )].1,
{
    map.get(key)
}

/// `IndexMap::get_index`: the pair at a position, none beyond the last.
#[verifier::external_body]
pub(crate) fn map_get_index<'a>(map: &'a DirectiveMap, index: usize) -> (r: Option<
    (&'a Cow<'static, str>, &'a Directive),
>)
    ensures
        r is Some == (index < map_entries(*map).len()),
        r matches Some(pair) ==> pair.0@ == map_entries(*map)[index as int].0 && *pair.1
            == map_entries(*map)[index as int].1,
{
    map.get_index(index)
}

} // verus!
