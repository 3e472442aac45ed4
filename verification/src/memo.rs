use vstd::prelude::*;
use dashmap::DashMap;

verus! {

#[verifier::external_type_specification]
#[verifier::external_body]
#[verifier::reject_recursive_types(K)]
#[verifier::reject_recursive_types(V)]
#[verifier::reject_recursive_types(S)]
pub struct ExDashMap<K, V, S>(DashMap<K, V, S>);

/// The map from request identifiers to the nonces handed out for them.
pub type NonceMemo = DashMap<String, String>;

/// What a map holds: the text of each key with the text of its value.
pub uninterp spec fn memo_entries(memo: NonceMemo) -> Map<Seq<char>, Seq<char>>;

/// The map that holds nothing.
pub open spec fn empty_memo() -> Map<Seq<char>, Seq<char>> {
    Map::empty()
}

/// `DashMap::new`: a map that holds nothing.
#[verifier::external_body]
pub(crate) fn memo_new() -> (r: NonceMemo)
    ensures
        memo_entries(r) == empty_memo(),
{
    DashMap::new()
}

/// `DashMap::get`, with the value copied out: the value under the key, if
/// the key is present.
#[verifier::external_body]
pub(crate) fn memo_get(memo: &NonceMemo, key: &str) -> (r: Option<String>)
    ensures
        match r {
            Some(value) => memo_entries(*memo).dom().contains(key@) && memo_entries(*memo)[key@]
                == value@,
            None => !memo_entries(*memo).dom().contains(key@),
        },
{
    memo.get(key).map(|entry| entry.value().clone())
}

/// `DashMap::insert`: puts the value under the key, in place of any value
/// that was there.
#[verifier::external_body]
pub(crate) fn memo_insert(memo: &mut NonceMemo, key: String, value: String)
    ensures
        memo_entries(*final(memo)) == memo_entries(*old(memo)).insert(key@, value@),
{
    memo.insert(key, value);
}

/// `DashMap::clear`: removes every pair.
#[verifier::external_body]
pub(crate) fn memo_clear(memo: &mut NonceMemo)
    ensures
        memo_entries(*final(memo)) == empty_memo(),
{
    memo.clear()
}

} // verus!
