use vstd::prelude::*;
use std::num::NonZeroUsize;
use std::sync::Arc;
use lru::LruCache;
use crate::policy::CspPolicy;

verus! {

#[verifier::external_type_specification]
#[verifier::external_body]
#[verifier::reject_recursive_types(K)]
#[verifier::reject_recursive_types(V)]
#[verifier::reject_recursive_types(S)]
pub struct ExLruCache<K, V, S>(LruCache<K, V, S>);

#[verifier::external_type_specification]
#[verifier::external_body]
pub struct ExLruHasher(lru::DefaultHasher);

/// A verdict on a URI under a directive, kept with the question it answers.
#[derive(Debug)]
pub struct CachedVerdict {
    pub uri: String,
    pub directive: String,
    pub allowed: bool,
}

/// The cache of verdicts, keyed by a hash of the question.
pub type VerdictCache = LruCache<u64, CachedVerdict>;

/// The cache of compiled policies, keyed by structural hash.
pub type PolicyCache = LruCache<u64, Arc<CspPolicy>>;

/// The pairs a verdict cache holds, from the most recently used to the least.
pub uninterp spec fn verdict_entries(cache: VerdictCache) -> Seq<(u64, CachedVerdict)>;

/// The number of pairs a verdict cache was made to hold.
pub uninterp spec fn verdict_capacity(cache: VerdictCache) -> nat;

/// The pairs a policy cache holds, from the most recently used to the least.
pub uninterp spec fn policy_entries(cache: PolicyCache) -> Seq<(u64, Arc<CspPolicy>)>;

/// The number of pairs a policy cache was made to hold.
pub uninterp spec fn policy_capacity(cache: PolicyCache) -> nat;

/// Whether some pair has the key.
pub open spec fn lru_has<V>(entries: Seq<(u64, V)>, key: u64) -> bool {
    exists|i: int| 0 <= i < entries.len() && (#[trigger] entries[i]).0 == key
}

/// The position of a pair with the key.
pub open spec fn lru_position<V>(entries: Seq<(u64, V)>, key: u64) -> int {
    choose|i: int| 0 <= i < entries.len() && (#[trigger] entries[i]).0 == key
}

/// The pairs after the key was used: its pair moves to the front.
pub open spec fn lru_touch<V>(entries: Seq<(u64, V)>, key: u64) -> Seq<(u64, V)> {
    if lru_has(entries, key) {
        seq![entries[lru_position(entries, key)]] + entries.remove(lru_position(entries, key))
    } else {
        entries
    }
}

/// The pairs after a value was put under the key: the pair goes to the
/// front; it replaces the pair of the same key, or else, in a full cache,
/// the least recently used pair leaves.
pub open spec fn lru_put<V>(entries: Seq<(u64, V)>, capacity: nat, key: u64, value: V) -> Seq<
    (u64, V),
> {
    if lru_has(entries, key) {
        seq![(key, value)] + entries.remove(lru_position(entries, key))
    } else if entries.len() == capacity {
        seq![(key, value)] + entries.drop_last()
    } else {
        seq![(key, value)] + entries
    }
}

/// Nothing is found in an empty cache, whatever the key.
pub proof fn lemma_empty_cache_misses<V>(entries: Seq<(u64, V)>, key: u64)
    requires
        entries.len() == 0,
    ensures
        !lru_has(entries, key),
        lru_touch(entries, key) == entries,
{
}

/// What was put under a key is found under it, and it is the most recently
/// used pair.
pub proof fn lemma_put_then_found<V>(entries: Seq<(u64, V)>, capacity: nat, key: u64, value: V)
    ensures
        lru_has(lru_put(entries, capacity, key, value), key),
        lru_put(entries, capacity, key, value)[0] == (key, value),
{
    let after = lru_put(entries, capacity, key, value);
    assert(after[0] == (key, value));
}

/// `LruCache::new`: an empty cache for at most `capacity` pairs.
#[verifier::external_body]
pub(crate) fn verdict_cache_new(capacity: usize) -> (r: VerdictCache)
    requires
        capacity > 0,
    ensures
        verdict_entries(r) == Seq::<(u64, CachedVerdict)>::empty(),
        verdict_capacity(r) == capacity,
{
    LruCache::new(NonZeroUsize::new(capacity).unwrap())
}

/// `LruCache::get`: the value under the key, whose pair becomes the most
/// recently used; nothing, and no change, where the key is absent.
#[verifier::external_body]
pub(crate) fn verdict_cache_get<'a>(cache: &'a mut VerdictCache, key: u64) -> (r: Option<
    &'a CachedVerdict,
>)
    ensures
        verdict_capacity(*final(cache)) == verdict_capacity(*old(cache)),
        verdict_entries(*final(cache)) == lru_touch(verdict_entries(*old(cache)), key),
        r is Some == lru_has(verdict_entries(*old(cache)), key),
        r matches Some(value) ==> *value == verdict_entries(*old(cache))[lru_position(
            verdict_entries(*old(cache)),
            key,
        )].1,
{
    cache.get(&key)
}

/// `LruCache::put`: stores the value under the key as the most recently
/// used pair. A pair of the same key is replaced; otherwise a full cache
/// drops its least recently used pair.
#[verifier::external_body]
pub(crate) fn verdict_cache_put(cache: &mut VerdictCache, key: u64, value: CachedVerdict)
    ensures
        verdict_capacity(*final(cache)) == verdict_capacity(*old(cache)),
        verdict_entries(*final(cache)) == lru_put(
            verdict_entries(*old(cache)),
            verdict_capacity(*old(cache)),
            key,
            value,
        ),
{
    cache.put(key, value);
}

/// `LruCache::clear`: removes every pair.
#[verifier::external_body]
pub(crate) fn verdict_cache_clear(cache: &mut VerdictCache)
    ensures
        verdict_capacity(*final(cache)) == verdict_capacity(*old(cache)),
        verdict_entries(*final(cache)) == Seq::<(u64, CachedVerdict)>::empty(),
{
    cache.clear()
}

/// `LruCache::new`: an empty cache for at most `capacity` pairs.
#[verifier::external_body]
pub(crate) fn policy_cache_new(capacity: usize) -> (r: PolicyCache)
    requires
        capacity > 0,
    ensures
        policy_entries(r) == Seq::<(u64, Arc<CspPolicy>)>::empty(),
        policy_capacity(r) == capacity,
{
    LruCache::new(NonZeroUsize::new(capacity).unwrap())
}

/// `LruCache::get`, with the shared policy handed out by `Arc::clone`: the
/// value under the key, whose pair becomes the most recently used; nothing,
/// and no change, where the key is absent.
#[verifier::external_body]
pub(crate) fn policy_cache_get(cache: &mut PolicyCache, key: u64) -> (r: Option<Arc<CspPolicy>>)
    ensures
        policy_capacity(*final(cache)) == policy_capacity(*old(cache)),
        policy_entries(*final(cache)) == lru_touch(policy_entries(*old(cache)), key),
        r is Some == lru_has(policy_entries(*old(cache)), key),
        r matches Some(value) ==> value == policy_entries(*old(cache))[lru_position(
            policy_entries(*old(cache)),
            key,
        )].1,
{
    cache.get(&key).cloned()
}

/// `LruCache::put`: stores the value under the key as the most recently
/// used pair. A pair of the same key is replaced; otherwise a full cache
/// drops its least recently used pair.
#[verifier::external_body]
pub(crate) fn policy_cache_put(cache: &mut PolicyCache, key: u64, value: Arc<CspPolicy>)
    ensures
        policy_capacity(*final(cache)) == policy_capacity(*old(cache)),
        policy_entries(*final(cache)) == lru_put(
            policy_entries(*old(cache)),
            policy_capacity(*old(cache)),
            key,
            value,
        ),
{
    cache.put(key, value);
}

/// `LruCache::clear`: removes every pair.
#[verifier::external_body]
pub(crate) fn policy_cache_clear(cache: &mut PolicyCache)
    ensures
        policy_capacity(*final(cache)) == policy_capacity(*old(cache)),
        policy_entries(*final(cache)) == Seq::<(u64, Arc<CspPolicy>)>::empty(),
{
    cache.clear()
}

} // verus!
