use vstd::prelude::*;
use std::borrow::Cow;
use std::sync::Arc;
use std::time::Duration;
use actix_web::http::header::HeaderValue;
use crate::buffer::header_bytes;
use crate::builders::DefaultSrc;
use crate::builders::DirectiveSpec;
use crate::builders::ObjectSrc;
use crate::cache::lru_has;
use crate::cache::lru_position;
use crate::cache::lru_put;
use crate::cache::lru_touch;
use crate::cache::policy_cache_clear;
use crate::cache::policy_cache_get;
use crate::cache::policy_cache_new;
use crate::cache::policy_cache_put;
use crate::cache::policy_capacity;
use crate::cache::policy_entries;
use crate::cache::PolicyCache;
use crate::clock::duration_nanos;
use crate::encoding::encodable_len;
use crate::error::CspError;
use crate::memo::empty_memo;
use crate::memo::memo_clear;
use crate::memo::memo_entries;
use crate::memo::memo_get;
use crate::memo::memo_insert;
use crate::memo::memo_new;
use crate::memo::NonceMemo;
use crate::nonce::is_nonce_of;
use crate::nonce::NonceGenerator;
use crate::perf::PerformanceMetrics;
use crate::perf::PerformanceTimer;
use crate::perf::nanos_of;
use crate::perf::recorded_nanos;
use crate::policy::is_header_failure;
use crate::policy::optional_text;
use crate::policy::is_header_of;
use crate::policy::CspPolicy;
use crate::policy::PolicyView;
use crate::policy_builder::listed;
use crate::source::cow_str;
use crate::source::Source;
use crate::source::SourceView;
use crate::stats::CspStats;
use crate::stats::StatsView;
use crate::utils::wrapped_sum;
use crate::utils::wrapping_sum;

verus! {

/// The number of compiled policies that are kept unless another is chosen.
pub const DEFAULT_POLICY_CACHE_ENTRIES: usize = 64;

/// The number of seconds a compiled header value stays fresh unless another
/// is chosen.
pub const DEFAULT_CACHE_DURATION_SECS: u64 = 60;

/// Is told when the policy of a configuration has been updated, and may
/// change it further.
pub trait UpdateListener: Send + Sync {
    fn on_policy_updated(&self, policy: &mut CspPolicy);
}

/// The policy with the default directives added where they are absent:
/// `default-src 'self'` first, then `object-src 'none'`.
pub open spec fn with_defaults(policy: PolicyView) -> PolicyView {
    let first = if policy.has("default-src"@) {
        policy
    } else {
        policy.with_directive(listed("default-src"@, seq![SourceView::Self_]))
    };
    if first.has("object-src"@) {
        first
    } else {
        first.with_directive(listed("object-src"@, seq![SourceView::None_]))
    }
}

/// The identifiers of the registered listeners, in registration order.
pub open spec fn listener_ids(listeners: Seq<(usize, Box<dyn UpdateListener>)>) -> Seq<usize> {
    listeners.map_values(|entry: (usize, Box<dyn UpdateListener>)| entry.0)
}

/// A policy with what surrounds it in service: an optional nonce generator,
/// the nonces handed out per request, the listeners that are told of
/// updates, counters, and a bounded cache of compiled policies keyed by
/// structural hash.
pub struct CspConfig {
    policy: CspPolicy,
    nonce_generator: Option<NonceGenerator>,
    nonce_per_request: bool,
    per_request_nonces: NonceMemo,
    nonce_request_header: Option<Cow<'static, str>>,
    cache_duration: u64,
    stats: CspStats,
    perf_metrics: PerformanceMetrics,
    update_listeners: Vec<(usize, Box<dyn UpdateListener>)>,
    next_listener_id: usize,
    policy_cache: PolicyCache,
}

impl CspConfig {
    /// The policy held.
    pub closed spec fn policy_spec(&self) -> CspPolicy {
        self.policy
    }

    /// The number of random bytes in a nonce, where a generator is set up.
    pub closed spec fn nonce_length(&self) -> Option<usize> {
        match self.nonce_generator {
            Some(generator) => Some(generator.length_spec()),
            None => None,
        }
    }

    /// Whether each request gets a nonce of its own.
    pub closed spec fn per_request(&self) -> bool {
        self.nonce_per_request
    }

    /// The nonces handed out so far, by request identifier.
    pub closed spec fn request_nonces(&self) -> Map<Seq<char>, Seq<char>> {
        memo_entries(self.per_request_nonces)
    }

    /// The name of the request header that carries the nonce, if one was
    /// chosen.
    pub closed spec fn request_header(&self) -> Option<Seq<char>> {
        optional_text(self.nonce_request_header)
    }

    /// The seconds a compiled header value stays fresh.
    pub closed spec fn cache_secs(&self) -> u64 {
        self.cache_duration
    }

    /// The counters.
    pub closed spec fn stats_spec(&self) -> StatsView {
        self.stats@
    }

    /// The measurements.
    pub closed spec fn metrics_spec(&self) -> crate::perf::MetricsView {
        self.perf_metrics@
    }

    /// The identifiers of the registered listeners, in registration order.
    pub closed spec fn listeners(&self) -> Seq<usize> {
        listener_ids(self.update_listeners@)
    }

    /// The identifier that the next listener gets.
    pub closed spec fn next_id(&self) -> usize {
        self.next_listener_id
    }

    /// The compiled policies kept, from the most recently used to the least.
    pub closed spec fn cached_policies(&self) -> Seq<(u64, Arc<CspPolicy>)> {
        policy_entries(self.policy_cache)
    }

    /// The number of compiled policies that are kept at most.
    pub closed spec fn cache_capacity(&self) -> nat {
        policy_capacity(self.policy_cache)
    }

    /// What holds of every configuration: the cache has room for at least
    /// one policy, the nonces are short enough to be encoded, and no two
    /// listeners share an identifier.
    pub closed spec fn wf(&self) -> bool {
        &&& policy_capacity(self.policy_cache) > 0
        &&& match self.nonce_generator {
            Some(generator) => encodable_len(generator.length_spec() as nat),
            None => true,
        }
        &&& listener_ids(self.update_listeners@).no_duplicates()
    }

    /// A configuration for the policy with the defaults: no nonces, a cache
    /// of sixty-four compiled policies, header values fresh for a minute.
    pub fn new(policy: CspPolicy) -> (r: Self)
        ensures
            r.wf(),
            r.policy_spec() == policy,
            r.nonce_length() is None,
            !r.per_request(),
            r.request_nonces() == empty_memo(),
            r.cache_secs() == DEFAULT_CACHE_DURATION_SECS,
            r.request_header() is None,
            r.stats_spec() == StatsView::zero(),
            r.metrics_spec() == crate::perf::MetricsView::initial(),
            r.listeners() == Seq::<usize>::empty(),
            r.cached_policies().len() == 0,
            r.cache_capacity() == DEFAULT_POLICY_CACHE_ENTRIES,
    {
        let r = CspConfig {
            policy,
            nonce_generator: None,
            nonce_per_request: false,
            per_request_nonces: memo_new(),
            nonce_request_header: None,
            cache_duration: DEFAULT_CACHE_DURATION_SECS,
            stats: CspStats::new(),
            perf_metrics: PerformanceMetrics::new(),
            update_listeners: Vec::new(),
            next_listener_id: 0,
            policy_cache: policy_cache_new(DEFAULT_POLICY_CACHE_ENTRIES),
        };
        assert(listener_ids(r.update_listeners@) == Seq::<usize>::empty());
        r
    }

    /// Changes the policy: `f` is applied to it, then every listener is
    /// told, in registration order. After that the cache of compiled
    /// policies is emptied and the update is counted. Where no listener is
    /// registered the policy is what `f` made of it.
    pub fn update_policy<F: FnOnce(&mut CspPolicy)>(&mut self, f: F)
        requires
            old(self).wf(),
            forall|p: &mut CspPolicy| f.requires((p,)),
        ensures
            final(self).wf(),
            final(self).cached_policies().len() == 0,
            final(self).cache_capacity() == old(self).cache_capacity(),
            final(self).stats_spec() == (StatsView {
                policy_update_count: wrapped_sum(old(self).stats_spec().policy_update_count, 1),
                ..old(self).stats_spec()
            }),
            final(self).listeners() == old(self).listeners(),
            final(self).next_id() == old(self).next_id(),
            final(self).nonce_length() == old(self).nonce_length(),
            final(self).per_request() == old(self).per_request(),
            final(self).request_nonces() == old(self).request_nonces(),
            final(self).cache_secs() == old(self).cache_secs(),
            old(self).listeners().len() == 0 ==> exists|p: &mut CspPolicy|
                *p == old(self).policy_spec() && *final(p) == final(self).policy_spec()
                    && f.ensures((p,), ()),
    {
        f(&mut self.policy);
        let mut i: usize = 0;
        while i < self.update_listeners.len()
            invariant
                i <= self.update_listeners.len(),
                self.update_listeners == old(self).update_listeners,
                self.policy_cache == old(self).policy_cache,
                self.stats == old(self).stats,
                self.next_listener_id == old(self).next_listener_id,
                self.nonce_generator == old(self).nonce_generator,
                self.nonce_per_request == old(self).nonce_per_request,
                self.per_request_nonces == old(self).per_request_nonces,
                self.cache_duration == old(self).cache_duration,
                i == 0 ==> exists|p: &mut CspPolicy|
                    *p == old(self).policy && *final(p) == self.policy && f.ensures((p,), ()),
            decreases self.update_listeners.len() - i,
        {
            self.update_listeners[i].1.on_policy_updated(&mut self.policy);
            i = i + 1;
        }
        policy_cache_clear(&mut self.policy_cache);
        self.stats.increment_policy_update_count();
    }

    pub fn policy(&self) -> (r: &CspPolicy)
        ensures
            *r == self.policy_spec(),
    {
        &self.policy
    }

    /// The name of the request header that carries the nonce, if one was
    /// chosen.
    pub fn nonce_request_header(&self) -> (r: Option<&str>)
        ensures
            match r {
                Some(name) => self.request_header() == Some(name@),
                None => self.request_header() is None,
            },
    {
        match &self.nonce_request_header {
            Some(name) => Some(cow_str(name)),
            None => None,
        }
    }

    /// A fresh nonce, where a generator is set up; nothing otherwise. Each
    /// nonce is counted.
    pub fn generate_nonce(&mut self) -> (r: Result<Option<String>, CspError>)
        requires
            old(self).wf(),
        ensures
            final(self).wf(),
            final(self).policy_spec() == old(self).policy_spec(),
            final(self).nonce_length() == old(self).nonce_length(),
            final(self).per_request() == old(self).per_request(),
            final(self).request_nonces() == old(self).request_nonces(),
            final(self).cached_policies() == old(self).cached_policies(),
            final(self).listeners() == old(self).listeners(),
            match old(self).nonce_length() {
                None => r matches Ok(None) && final(self).stats_spec() == old(self).stats_spec(),
                Some(length) => final(self).stats_spec() == (StatsView {
                    nonce_generation_count: wrapped_sum(
                        old(self).stats_spec().nonce_generation_count,
                        1,
                    ),
                    ..old(self).stats_spec()
                }) && match r {
                    Ok(Some(nonce)) => is_nonce_of(nonce@, length as nat),
                    Ok(None) => false,
                    Err(e) => e is CryptoError,
                },
            },
    {
        match &mut self.nonce_generator {
            Some(generator) => {
                self.stats.increment_nonce_generation_count();
                match generator.generate() {
                    Ok(nonce) => Ok(Some(nonce)),
                    Err(e) => Err(e),
                }
            },
            None => Ok(None),
        }
    }

    /// The nonce of a request. Nothing where requests get no nonces of their
    /// own or no generator is set up. Otherwise the nonce that was handed
    /// out for the identifier before, or else a fresh one, which is kept for
    /// the identifier and counted.
    pub fn get_or_generate_request_nonce(&mut self, request_id: &str) -> (r: Result<
        Option<String>,
        CspError,
    >)
        requires
            old(self).wf(),
        ensures
            final(self).wf(),
            nonce_outcome(*old(self), *final(self), request_id@, r, old(self).stats_spec()),
    {
        if !self.nonce_per_request {
            return Ok(None);
        }
        match &mut self.nonce_generator {
            Some(generator) => {
                match memo_get(&self.per_request_nonces, request_id) {
                    Some(known) => Ok(Some(known)),
                    None => {
                        self.stats.increment_nonce_generation_count();
                        match generator.generate() {
                            Ok(nonce) => {
                                memo_insert(
                                    &mut self.per_request_nonces,
                                    request_id.to_owned(),
                                    nonce.clone(),
                                );
                                Ok(Some(nonce))
                            },
                            Err(e) => Err(e),
                        }
                    },
                }
            },
            None => Ok(None),
        }
    }

    pub fn stats(&self) -> (r: &CspStats)
        ensures
            r@ == self.stats_spec(),
    {
        &self.stats
    }

    /// The counters, to be advanced by what serves the policy.
    pub fn stats_mut(&mut self) -> (r: &mut CspStats)
        ensures
            r@ == old(self).stats_spec(),
            final(self).stats_spec() == final(r)@,
            final(self).wf() == old(self).wf(),
            final(self).policy_spec() == old(self).policy_spec(),
            final(self).cached_policies() == old(self).cached_policies(),
            final(self).cache_capacity() == old(self).cache_capacity(),
            final(self).next_id() == old(self).next_id(),
            final(self).request_nonces() == old(self).request_nonces(),
            final(self).listeners() == old(self).listeners(),
            final(self).nonce_length() == old(self).nonce_length(),
            final(self).per_request() == old(self).per_request(),
    {
        &mut self.stats
    }

    pub fn perf_metrics(&self) -> (r: &PerformanceMetrics)
        ensures
            r@ == self.metrics_spec(),
    {
        &self.perf_metrics
    }

    /// Registers a listener and hands out its identifier. A listener that
    /// should still hold the identifier is replaced.
    pub fn add_update_listener(&mut self, listener: Box<dyn UpdateListener>) -> (r: usize)
        requires
            old(self).wf(),
        ensures
            final(self).wf(),
            r == old(self).next_id(),
            final(self).next_id() == wrapped_sum(old(self).next_id(), 1),
            final(self).listeners() == old(self).listeners().filter(|id: usize| id != r).push(r),
            final(self).policy_spec() == old(self).policy_spec(),
            final(self).cached_policies() == old(self).cached_policies(),
            final(self).stats_spec() == old(self).stats_spec(),
    {
        let id = self.next_listener_id;
        self.next_listener_id = wrapping_sum(self.next_listener_id, 1);
        self.remove_update_listener(id);
        let ghost before = self.update_listeners@;
        let entry = (id, listener);
        self.update_listeners.push(entry);
        proof {
            let ids = listener_ids(before);
            assert(listener_ids(self.update_listeners@) =~= ids.push(id));
            assert(!ids.contains(id)) by {
                if ids.contains(id) {
                    let k = choose|k: int| 0 <= k < ids.len() && ids[k] == id;
                    let kept = old(self).listeners().filter(|other: usize| other != id);
                    assert(kept.contains(ids[k]));
                    old(self).listeners().lemma_filter_pred(|other: usize| other != id, k);
                }
            }
            assert(ids.push(id).no_duplicates()) by {
                assert forall|a: int, b: int|
                    0 <= a < ids.len() + 1 && 0 <= b < ids.len() + 1 && a != b implies ids.push(
                    id,
                )[a] != ids.push(id)[b] by {
                    if a < ids.len() && b < ids.len() {
                    } else if a < ids.len() {
                        assert(ids.contains(ids[a]));
                    } else {
                        assert(ids.contains(ids[b]));
                    }
                }
            }
        }
        id
    }

    /// Takes a listener off. The answer says whether there was one of that
    /// identifier.
    pub fn remove_update_listener(&mut self, id: usize) -> (r: bool)
        requires
            old(self).wf(),
        ensures
            final(self).wf(),
            r == old(self).listeners().contains(id),
            final(self).listeners() == old(self).listeners().filter(|other: usize| other != id),
            final(self).next_id() == old(self).next_id(),
            final(self).policy_spec() == old(self).policy_spec(),
            final(self).cached_policies() == old(self).cached_policies(),
            final(self).cache_capacity() == old(self).cache_capacity(),
            final(self).stats_spec() == old(self).stats_spec(),
            final(self).nonce_length() == old(self).nonce_length(),
            final(self).per_request() == old(self).per_request(),
            final(self).request_nonces() == old(self).request_nonces(),
    {
        let ghost ids = listener_ids(self.update_listeners@);
        let ghost keep = |other: usize| other != id;
        let mut i: usize = 0;
        while i < self.update_listeners.len()
            invariant
                i <= self.update_listeners.len(),
                *self == *old(self),
                ids == listener_ids(self.update_listeners@),
                ids.no_duplicates(),
                old(self).wf(),
                forall|k: int| 0 <= k < i ==> ids[k] != id,
            decreases self.update_listeners.len() - i,
        {
            if self.update_listeners[i].0 == id {
                let ghost at = i as int;
                self.update_listeners.remove(i);
                proof {
                    let after = listener_ids(self.update_listeners@);
                    assert(after =~= ids.remove(at));
                    assert(ids.contains(id)) by {
                        assert(ids[at] == id);
                    }
                    lemma_filter_removes_one(ids, id, at);
                    assert(after.no_duplicates()) by {
                        assert forall|a: int, b: int|
                            0 <= a < after.len() && 0 <= b < after.len() && a != b implies after[a]
                            != after[b] by {
                            let a0 = if a < at {
                                a
                            } else {
                                a + 1
                            };
                            let b0 = if b < at {
                                b
                            } else {
                                b + 1
                            };
                            assert(after[a] == ids[a0]);
                            assert(after[b] == ids[b0]);
                        }
                    }
                }
                return true;
            }
            i = i + 1;
        }
        proof {
            lemma_filter_keeps_all(ids, id);
            assert(!ids.contains(id));
        }
        false
    }

    /// Forgets the nonces handed out per request.
    pub fn clear_request_nonces(&mut self)
        ensures
            final(self).wf() == old(self).wf(),
            final(self).request_nonces() == empty_memo(),
            final(self).policy_spec() == old(self).policy_spec(),
            final(self).cached_policies() == old(self).cached_policies(),
            final(self).stats_spec() == old(self).stats_spec(),
            final(self).listeners() == old(self).listeners(),
            final(self).nonce_length() == old(self).nonce_length(),
            final(self).per_request() == old(self).per_request(),
    {
        memo_clear(&mut self.per_request_nonces);
    }

    /// The time a compiled header value stays fresh.
    pub fn cache_duration(&self) -> (r: Duration)
        ensures
            duration_nanos(r) == self.cache_secs() * 1_000_000_000,
    {
        Duration::from_secs(self.cache_duration)
    }

    /// The compiled policy kept under a structural hash, if there is one. It
    /// becomes the most recently used.
    pub fn get_cached_policy(&mut self, hash: u64) -> (r: Option<Arc<CspPolicy>>)
        ensures
            final(self).wf() == old(self).wf(),
            final(self).cached_policies() == lru_touch(old(self).cached_policies(), hash),
            final(self).cache_capacity() == old(self).cache_capacity(),
            r is Some == lru_has(old(self).cached_policies(), hash),
            r matches Some(policy) ==> policy == old(self).cached_policies()[lru_position(
                old(self).cached_policies(),
                hash,
            )].1,
            final(self).policy_spec() == old(self).policy_spec(),
            final(self).stats_spec() == old(self).stats_spec(),
            final(self).request_nonces() == old(self).request_nonces(),
            final(self).listeners() == old(self).listeners(),
    {
        policy_cache_get(&mut self.policy_cache, hash)
    }

    /// Keeps a compiled policy under a structural hash, as the most recently
    /// used. In a full cache the least recently used policy leaves.
    pub fn cache_policy(&mut self, hash: u64, policy: CspPolicy) -> (r: Arc<CspPolicy>)
        ensures
            final(self).wf() == old(self).wf(),
            *r == policy,
            final(self).cached_policies() == lru_put(
                old(self).cached_policies(),
                old(self).cache_capacity(),
                hash,
                r,
            ),
            final(self).cache_capacity() == old(self).cache_capacity(),
            final(self).policy_spec() == old(self).policy_spec(),
            final(self).stats_spec() == old(self).stats_spec(),
            final(self).request_nonces() == old(self).request_nonces(),
            final(self).listeners() == old(self).listeners(),
    {
        let shared = Arc::new(policy);
        policy_cache_put(&mut self.policy_cache, hash, shared.clone());
        shared
    }

    /// Adds `default-src 'self'` and `object-src 'none'` where the policy
    /// has no directive of these names.
    pub fn with_default_directives(self) -> (r: Self)
        ensures
            r.wf() == self.wf(),
            r.policy_spec()@ == with_defaults(self.policy_spec()@),
            r.cached_policies() == self.cached_policies(),
            r.stats_spec() == self.stats_spec(),
            r.request_nonces() == self.request_nonces(),
            r.listeners() == self.listeners(),
            r.nonce_length() == self.nonce_length(),
            r.per_request() == self.per_request(),
    {
        let mut this = self;
        if this.policy.get_directive("default-src").is_none() {
            let directive = DefaultSrc::new().add_source(Source::Self_).build();
            assert(directive@.sources == seq![SourceView::Self_]);
            proof {
                lemma_listed_one(SourceView::Self_);
            }
            this.policy.add_directive(directive);
        }
        if this.policy.get_directive("object-src").is_none() {
            let directive = ObjectSrc::new().add_source(Source::None_).build();
            assert(directive@.sources == seq![SourceView::None_]);
            proof {
                lemma_listed_one(SourceView::None_);
            }
            this.policy.add_directive(directive);
        }
        this
    }
}

/// What taking a request's nonce does to a configuration. Nothing is
/// handed out where requests get no nonces of their own or no generator is
/// set up. A nonce that was handed out for the identifier is handed out
/// again. Otherwise a fresh nonce is generated, counted and kept for the
/// identifier; where the random source fails, nothing is kept. `base` is
/// what the counters were before.
pub open spec fn nonce_outcome(
    before: CspConfig,
    after: CspConfig,
    request_id: Seq<char>,
    r: Result<Option<String>, CspError>,
    base: StatsView,
) -> bool {
    &&& after.policy_spec() == before.policy_spec()
    &&& after.nonce_length() == before.nonce_length()
    &&& after.per_request() == before.per_request()
    &&& after.cached_policies() == before.cached_policies()
    &&& after.cache_capacity() == before.cache_capacity()
    &&& after.listeners() == before.listeners()
    &&& after.next_id() == before.next_id()
    &&& if !before.per_request() || before.nonce_length() is None {
        &&& r matches Ok(None)
        &&& after.request_nonces() == before.request_nonces()
        &&& after.stats_spec() == base
    } else if before.request_nonces().dom().contains(request_id) {
        &&& r matches Ok(Some(nonce))
        &&& nonce@ == before.request_nonces()[request_id]
        &&& after.request_nonces() == before.request_nonces()
        &&& after.stats_spec() == base
    } else {
        &&& after.stats_spec() == (StatsView {
            nonce_generation_count: wrapped_sum(base.nonce_generation_count, 1),
            ..base
        })
        &&& match r {
            Ok(Some(nonce)) => is_nonce_of(nonce@, before.nonce_length().unwrap() as nat)
                && after.request_nonces() == before.request_nonces().insert(request_id, nonce@),
            Ok(None) => false,
            Err(e) => e is CryptoError && after.request_nonces() == before.request_nonces(),
        }
    }
}

/// A request keeps its nonce: where a nonce was handed out for an
/// identifier, the next call for the same identifier hands out the same.
pub proof fn lemma_request_nonce_is_kept(
    start: CspConfig,
    middle: CspConfig,
    end: CspConfig,
    request_id: Seq<char>,
    first: Result<Option<String>, CspError>,
    second: Result<Option<String>, CspError>,
    first_base: StatsView,
    second_base: StatsView,
)
    requires
        nonce_outcome(start, middle, request_id, first, first_base),
        nonce_outcome(middle, end, request_id, second, second_base),
        first matches Ok(Some(_)),
    ensures
        second matches Ok(Some(nonce)) && nonce@ == first->Ok_0->Some_0@,
{
    assert(middle.request_nonces().dom().contains(request_id));
}

/// What making the header for a response does to a configuration. The
/// policy that is served is the compiled policy kept under the structural
/// hash of the live policy, or the live policy where none is kept. The
/// header carries the name and the written form of the policy served, or
/// the call fails where that policy cannot be written. A policy found in
/// the cache becomes the most recently used and the hit is counted; a live
/// policy that was compiled is kept under its hash. The live policy stays
/// as it is, and its hash is remembered.
pub open spec fn header_outcome(
    before: CspConfig,
    after: CspConfig,
    r: Result<(&'static str, HeaderValue), CspError>,
) -> bool {
    &&& after.policy_spec()@ == before.policy_spec()@
    &&& after.listeners() == before.listeners()
    &&& after.next_id() == before.next_id()
    &&& after.request_nonces() == before.request_nonces()
    &&& after.nonce_length() == before.nonce_length()
    &&& after.per_request() == before.per_request()
    &&& after.cache_capacity() == before.cache_capacity()
    &&& after.stats_spec().request_count == before.stats_spec().request_count
    &&& after.stats_spec().nonce_generation_count == before.stats_spec().nonce_generation_count
    &&& after.stats_spec().policy_update_count == before.stats_spec().policy_update_count
    &&& after.stats_spec().violation_count == before.stats_spec().violation_count
    &&& after.stats_spec().policy_validations == before.stats_spec().policy_validations
    &&& after.policy_spec().hash_memo() matches Some(hash) && ({
        let served = served_policy(before.cached_policies(), hash, before.policy_spec()@);
        let hit = lru_has(before.cached_policies(), hash);
        &&& match r {
            Ok(header) => header.0@ == served.header_name() && is_header_of(
                served,
                header_bytes(header.1),
            ),
            Err(e) => !served.compilable() && is_header_failure(e),
        }
        &&& hit ==> after.cached_policies() == lru_touch(before.cached_policies(), hash)
        &&& !hit && r is Err ==> after.cached_policies() == before.cached_policies()
        &&& !hit && r is Ok ==> after.cached_policies().len() > 0 && after.cached_policies()[0].1@
            == before.policy_spec()@ && after.cached_policies() == lru_put(
            before.cached_policies(),
            before.cache_capacity(),
            hash,
            after.cached_policies()[0].1,
        )
        &&& after.stats_spec().cache_hit_count == if hit {
            wrapped_sum(before.stats_spec().cache_hit_count, 1)
        } else {
            before.stats_spec().cache_hit_count
        }
    })
}

/// The policy whose header a response gets: the compiled policy kept under
/// the structural hash, or the live policy where none is kept.
pub open spec fn served_policy(
    cached: Seq<(u64, Arc<CspPolicy>)>,
    hash: u64,
    live: PolicyView,
) -> PolicyView {
    if lru_has(cached, hash) {
        cached[lru_position(cached, hash)].1@
    } else {
        live
    }
}

/// A span as a counter of nanoseconds takes it: the nanoseconds as they
/// are recorded, held at `usize::MAX` where they are more.
pub open spec fn counter_nanos(span: Duration) -> usize {
    if recorded_nanos(span) <= usize::MAX {
        recorded_nanos(span) as usize
    } else {
        usize::MAX
    }
}

/// What recording the time of one header generation does to a
/// configuration: the measurements take in the span, and its nanoseconds
/// are added to the time spent on making headers. No other counter moves.
pub open spec fn header_time_recorded(before: CspConfig, after: CspConfig, spent: Duration) -> bool {
    &&& after.metrics_spec() == before.metrics_spec().with_header_generation(
        recorded_nanos(spent),
    )
    &&& after.stats_spec() == (StatsView {
        header_generation_time_ns: wrapped_sum(
            before.stats_spec().header_generation_time_ns,
            counter_nanos(spent),
        ),
        ..before.stats_spec()
    })
}

/// A span in nanoseconds as a counter takes it: held at `usize::MAX`.
fn nanos_for_counter(span: Duration) -> (r: usize)
    ensures
        r == counter_nanos(span),
{
    let nanos: u64 = nanos_of(span);
    if nanos <= usize::MAX as u64 {
        nanos as usize
    } else {
        usize::MAX
    }
}

impl CspConfig {
    /// The header for a response: its name and its value. The structural
    /// hash of the live policy is looked up among the compiled policies. A
    /// policy found there is the one that is served; otherwise the live
    /// policy is compiled and, where that succeeds, kept under its hash. The
    /// live policy stays as it is.
    pub fn response_header(&mut self) -> (r: Result<(&'static str, HeaderValue), CspError>)
        requires
            old(self).wf(),
        ensures
            final(self).wf(),
            header_outcome(*old(self), *final(self), r),
    {
        let hash_timer = PerformanceTimer::new();
        let hash = self.policy.hash();
        self.stats.add_policy_hash_time(nanos_for_counter(hash_timer.elapsed()));
        let fresh_for = Duration::from_secs(self.cache_duration);
        match policy_cache_get(&mut self.policy_cache, hash) {
            Some(cached) => {
                self.stats.increment_cache_hit_count();
                let name = cached.header_name();
                let mut copy = (*cached).clone();
                match copy.header_value_with_cache_duration(fresh_for) {
                    Ok(value) => Ok((name, value)),
                    Err(e) => Err(e),
                }
            },
            None => {
                let timer = PerformanceTimer::new();
                let name = self.policy.header_name();
                let mut copy = self.policy.clone();
                let compiled = copy.header_value_with_cache_duration(fresh_for);
                self.stats.add_policy_serialize_time(nanos_for_counter(timer.elapsed()));
                match compiled {
                    Ok(value) => {
                        policy_cache_put(&mut self.policy_cache, hash, Arc::new(copy));
                        Ok((name, value))
                    },
                    Err(e) => Err(e),
                }
            },
        }
    }
}

impl CspConfig {
    /// Adds the time a stopwatch shows to the measurements and to the time
    /// spent on making headers. Nothing else changes.
    pub fn record_header_generation(&mut self, timer: &PerformanceTimer)
        ensures
            final(self).wf() == old(self).wf(),
            final(self).policy_spec() == old(self).policy_spec(),
            final(self).cached_policies() == old(self).cached_policies(),
            final(self).cache_capacity() == old(self).cache_capacity(),
            final(self).next_id() == old(self).next_id(),
            final(self).request_nonces() == old(self).request_nonces(),
            final(self).listeners() == old(self).listeners(),
            final(self).nonce_length() == old(self).nonce_length(),
            final(self).per_request() == old(self).per_request(),
            exists|spent: Duration| #[trigger] header_time_recorded(*old(self), *final(self), spent),
    {
        let spent = timer.elapsed();
        self.record_header_generation_of(spent);
        assert(header_time_recorded(*old(self), *self, spent));
    }

    /// Takes in the time that one header generation took: the measurements
    /// record the span, and its nanoseconds are added to the time spent on
    /// making headers. Nothing else changes.
    pub fn record_header_generation_of(&mut self, spent: Duration)
        ensures
            final(self).wf() == old(self).wf(),
            final(self).policy_spec() == old(self).policy_spec(),
            final(self).cached_policies() == old(self).cached_policies(),
            final(self).cache_capacity() == old(self).cache_capacity(),
            final(self).next_id() == old(self).next_id(),
            final(self).request_nonces() == old(self).request_nonces(),
            final(self).listeners() == old(self).listeners(),
            final(self).nonce_length() == old(self).nonce_length(),
            final(self).per_request() == old(self).per_request(),
            header_time_recorded(*old(self), *final(self), spent),
    {
        self.perf_metrics.record_header_generation(spent);
        self.stats.add_header_generation_time(nanos_for_counter(spent));
    }
}

/// Assembles a configuration step by step.
pub struct CspConfigBuilder {
    policy: Option<CspPolicy>,
    nonce_length: Option<usize>,
    nonce_per_request: bool,
    nonce_request_header: Option<Cow<'static, str>>,
    cache_duration: Option<Duration>,
    cache_size: Option<usize>,
    nonce_generator: Option<NonceGenerator>,
}

impl Default for CspConfigBuilder {
    fn default() -> (r: Self)
        ensures
            r.chosen_policy() is None,
            r.chosen_nonce_length() is None,
            !r.chosen_per_request(),
            r.chosen_duration() is None,
            r.chosen_cache_size() is None,
            r.chosen_request_header() is None,
            !r.has_generator(),
    {
        CspConfigBuilder::new()
    }
}

impl CspConfigBuilder {
    #[verifier::type_invariant]
    spec fn encodable(self) -> bool {
        &&& match self.nonce_length {
            Some(length) => encodable_len(length as nat),
            None => true,
        }
        &&& match self.nonce_generator {
            Some(generator) => encodable_len(generator.length_spec() as nat),
            None => true,
        }
    }

    /// The policy chosen, if any.
    pub closed spec fn chosen_policy(&self) -> Option<CspPolicy> {
        self.policy
    }

    /// The length of the nonces chosen, if any: that of a generator handed
    /// in, or else the one asked for.
    pub closed spec fn chosen_nonce_length(&self) -> Option<usize> {
        match self.nonce_generator {
            Some(generator) => Some(generator.length_spec()),
            None => self.nonce_length,
        }
    }

    /// Whether each request is to get a nonce of its own.
    pub closed spec fn chosen_per_request(&self) -> bool {
        self.nonce_per_request
    }

    /// The time chosen for which header values stay fresh, if any.
    pub closed spec fn chosen_duration(&self) -> Option<Duration> {
        self.cache_duration
    }

    /// The number chosen of compiled policies to keep, if any.
    pub closed spec fn chosen_cache_size(&self) -> Option<usize> {
        self.cache_size
    }

    /// The name chosen of the request header that carries the nonce, if any.
    pub closed spec fn chosen_request_header(&self) -> Option<Seq<char>> {
        optional_text(self.nonce_request_header)
    }

    pub fn new() -> (r: Self)
        ensures
            r.chosen_policy() is None,
            r.chosen_nonce_length() is None,
            !r.chosen_per_request(),
            r.chosen_duration() is None,
            r.chosen_cache_size() is None,
            r.chosen_request_header() is None,
            !r.has_generator(),
    {
        CspConfigBuilder {
            policy: None,
            nonce_length: None,
            nonce_per_request: false,
            nonce_request_header: None,
            cache_duration: None,
            cache_size: None,
            nonce_generator: None,
        }
    }

    pub fn policy(self, policy: CspPolicy) -> (r: Self)
        ensures
            r.chosen_policy() == Some(policy),
            r.chosen_nonce_length() == self.chosen_nonce_length(),
            r.chosen_per_request() == self.chosen_per_request(),
            r.chosen_duration() == self.chosen_duration(),
            r.chosen_cache_size() == self.chosen_cache_size(),
            r.chosen_request_header() == self.chosen_request_header(),
    {
        proof {
            use_type_invariant(&self);
        }
        let mut this = self;
        this.policy = Some(policy);
        this
    }

    /// Asks for nonces of `length` random bytes. A generator that was handed
    /// in keeps precedence.
    pub fn with_nonce_generator(self, length: usize) -> (r: Self)
        requires
            encodable_len(length as nat),
        ensures
            r.chosen_policy() == self.chosen_policy(),
            r.chosen_nonce_length() == match self.chosen_nonce_length() {
                Some(known) if self.has_generator() => Some(known),
                _ => Some(length),
            },
            r.has_generator() == self.has_generator(),
            r.chosen_per_request() == self.chosen_per_request(),
            r.chosen_duration() == self.chosen_duration(),
            r.chosen_cache_size() == self.chosen_cache_size(),
            r.chosen_request_header() == self.chosen_request_header(),
    {
        proof {
            use_type_invariant(&self);
        }
        let mut this = self;
        this.nonce_length = Some(length);
        this
    }

    /// Whether a generator was handed in.
    pub closed spec fn has_generator(&self) -> bool {
        self.nonce_generator is Some
    }

    /// Hands in a generator to be used as it is.
    pub fn with_prebuilt_nonce_generator(self, generator: NonceGenerator) -> (r: Self)
        requires
            encodable_len(generator.length_spec() as nat),
        ensures
            r.chosen_policy() == self.chosen_policy(),
            r.chosen_nonce_length() == Some(generator.length_spec()),
            r.has_generator(),
            r.chosen_per_request() == self.chosen_per_request(),
            r.chosen_duration() == self.chosen_duration(),
            r.chosen_cache_size() == self.chosen_cache_size(),
            r.chosen_request_header() == self.chosen_request_header(),
    {
        proof {
            use_type_invariant(&self);
        }
        let mut this = self;
        this.nonce_generator = Some(generator);
        this
    }

    pub fn with_nonce_per_request(self, enabled: bool) -> (r: Self)
        ensures
            r.chosen_policy() == self.chosen_policy(),
            r.chosen_nonce_length() == self.chosen_nonce_length(),
            r.has_generator() == self.has_generator(),
            r.chosen_per_request() == enabled,
            r.chosen_duration() == self.chosen_duration(),
            r.chosen_cache_size() == self.chosen_cache_size(),
            r.chosen_request_header() == self.chosen_request_header(),
    {
        proof {
            use_type_invariant(&self);
        }
        let mut this = self;
        this.nonce_per_request = enabled;
        this
    }

    /// Chooses the name of the request header that carries the nonce.
    pub fn with_nonce_request_header(self, header: &str) -> (r: Self)
        ensures
            r.chosen_policy() == self.chosen_policy(),
            r.chosen_nonce_length() == self.chosen_nonce_length(),
            r.has_generator() == self.has_generator(),
            r.chosen_per_request() == self.chosen_per_request(),
            r.chosen_duration() == self.chosen_duration(),
            r.chosen_cache_size() == self.chosen_cache_size(),
            r.chosen_request_header() == Some(header@),
    {
        proof {
            use_type_invariant(&self);
        }
        let mut this = self;
        this.nonce_request_header = Some(Cow::Owned(header.to_owned()));
        this
    }

    pub fn with_cache_duration(self, duration: Duration) -> (r: Self)
        ensures
            r.chosen_policy() == self.chosen_policy(),
            r.chosen_nonce_length() == self.chosen_nonce_length(),
            r.has_generator() == self.has_generator(),
            r.chosen_per_request() == self.chosen_per_request(),
            r.chosen_duration() == Some(duration),
            r.chosen_cache_size() == self.chosen_cache_size(),
            r.chosen_request_header() == self.chosen_request_header(),
    {
        proof {
            use_type_invariant(&self);
        }
        let mut this = self;
        this.cache_duration = Some(duration);
        this
    }

    pub fn with_cache_size(self, size: usize) -> (r: Self)
        ensures
            r.chosen_policy() == self.chosen_policy(),
            r.chosen_nonce_length() == self.chosen_nonce_length(),
            r.has_generator() == self.has_generator(),
            r.chosen_per_request() == self.chosen_per_request(),
            r.chosen_duration() == self.chosen_duration(),
            r.chosen_cache_size() == Some(size),
            r.chosen_request_header() == self.chosen_request_header(),
    {
        proof {
            use_type_invariant(&self);
        }
        let mut this = self;
        this.cache_size = Some(size);
        this
    }

    /// The configuration as chosen. What was not chosen takes its default:
    /// an empty policy, no nonces, header values fresh for a minute and room
    /// for sixty-four compiled policies. A cache size of zero is set aside.
    pub fn build(self) -> (r: CspConfig)
        ensures
            r.wf(),
            match self.chosen_policy() {
                Some(policy) => r.policy_spec() == policy,
                None => r.policy_spec()@ == CspPolicy::empty_view(),
            },
            r.nonce_length() == self.chosen_nonce_length(),
            r.per_request() == self.chosen_per_request(),
            r.request_nonces() == empty_memo(),
            r.cache_secs() == match self.chosen_duration() {
                Some(duration) => (duration_nanos(duration) / 1_000_000_000) as u64,
                None => DEFAULT_CACHE_DURATION_SECS,
            },
            r.cache_capacity() == match self.chosen_cache_size() {
                Some(size) if size > 0 => size,
                _ => DEFAULT_POLICY_CACHE_ENTRIES,
            },
            r.request_header() == self.chosen_request_header(),
            r.cached_policies().len() == 0,
            r.stats_spec() == StatsView::zero(),
            r.metrics_spec() == crate::perf::MetricsView::initial(),
            r.listeners() == Seq::<usize>::empty(),
    {
        proof {
            use_type_invariant(&self);
        }
        let policy = match self.policy {
            Some(policy) => policy,
            None => CspPolicy::new(),
        };
        let mut config = CspConfig::new(policy);
        match self.nonce_generator {
            Some(generator) => {
                config.nonce_generator = Some(generator);
            },
            None => {
                match self.nonce_length {
                    Some(length) => {
                        config.nonce_generator = Some(NonceGenerator::with_capacity(32, length));
                    },
                    None => {},
                }
            },
        }
        if self.nonce_per_request {
            config.nonce_per_request = true;
        }
        match self.nonce_request_header {
            Some(header) => {
                config.nonce_request_header = Some(header);
            },
            None => {},
        }
        match self.cache_duration {
            Some(duration) => {
                config.cache_duration = duration.as_secs();
            },
            None => {},
        }
        match self.cache_size {
            Some(size) => {
                if size > 0 {
                    config.policy_cache = policy_cache_new(size);
                }
            },
            None => {},
        }
        config
    }
}

/// Adding the default directives twice is adding them once.
pub proof fn lemma_defaults_idempotent(policy: PolicyView)
    ensures
        with_defaults(with_defaults(policy)) == with_defaults(policy),
{
    let default_src = listed("default-src"@, seq![SourceView::Self_]);
    let object_src = listed("object-src"@, seq![SourceView::None_]);
    let first = if policy.has("default-src"@) {
        policy
    } else {
        policy.with_directive(default_src)
    };
    assert(first.has("default-src"@)) by {
        if !policy.has("default-src"@) {
            assert(first.directives == policy.directives.push(default_src));
            assert(first.directives[policy.directives.len() as int].name == "default-src"@);
        }
    }
    let second = with_defaults(policy);
    assert(second.has("object-src"@)) by {
        if !first.has("object-src"@) {
            assert(second.directives == first.directives.push(object_src));
            assert(second.directives[first.directives.len() as int].name == "object-src"@);
        }
    }
    assert(second.has("default-src"@)) by {
        let k = first.position("default-src"@);
        if !first.has("object-src"@) {
            assert(second.directives[k] == first.directives[k]);
        }
    }
}

/// A list of one source is that source added to the empty list.
pub proof fn lemma_listed_one(source: SourceView)
    ensures
        crate::directive::with_sources(Seq::<SourceView>::empty(), seq![source]) == seq![source],
{
    let one = seq![source];
    assert(one.drop_last() == Seq::<SourceView>::empty());
    assert(one.last() == source);
    assert(crate::directive::with_sources(Seq::<SourceView>::empty(), one.drop_last()) == Seq::<
        SourceView,
    >::empty());
    assert(Seq::<SourceView>::empty().push(source) == seq![source]);
}

/// Taking out the one place where an identifier stands is taking out the
/// identifier.
pub proof fn lemma_filter_removes_one(ids: Seq<usize>, id: usize, at: int)
    requires
        ids.no_duplicates(),
        0 <= at < ids.len(),
        ids[at] == id,
    ensures
        ids.filter(|other: usize| other != id) == ids.remove(at),
    decreases ids.len(),
{
    let keep = |other: usize| other != id;
    reveal(Seq::filter);
    if at == ids.len() - 1 {
        let rest = ids.drop_last();
        assert(ids.remove(at) == rest);
        assert(!rest.contains(id)) by {
            if rest.contains(id) {
                let k = choose|k: int| 0 <= k < rest.len() && rest[k] == id;
                assert(ids[k] == id);
            }
        }
        lemma_filter_keeps_all(rest, id);
    } else {
        let rest = ids.drop_last();
        assert(rest[at] == id);
        lemma_filter_removes_one(rest, id, at);
        assert(ids.last() != id);
        assert(ids.remove(at) == rest.remove(at).push(ids.last()));
    }
}

/// Taking out an identifier that does not occur changes nothing.
pub proof fn lemma_filter_keeps_all(ids: Seq<usize>, id: usize)
    requires
        !ids.contains(id),
    ensures
        ids.filter(|other: usize| other != id) == ids,
    decreases ids.len(),
{
    reveal(Seq::filter);
    if ids.len() > 0 {
        let rest = ids.drop_last();
        assert(!rest.contains(id)) by {
            if rest.contains(id) {
                let k = choose|k: int| 0 <= k < rest.len() && rest[k] == id;
                assert(ids[k] == id);
            }
        }
        lemma_filter_keeps_all(rest, id);
        assert(ids.last() != id) by {
            assert(ids[ids.len() - 1] == ids.last());
        }
        assert(rest.push(ids.last()) == ids);
    }
}

} // verus!
