use vstd::prelude::*;
use std::time::Duration;
use std::time::Instant;
use crate::clock::duration_nanos;
use crate::utils::wrapped_sum;
use crate::utils::wrapping_sum;

verus! {

/// Measurements of header generation and hashing as mathematical values.
pub struct MetricsView {
    pub header_generation_samples: usize,
    pub header_generation_total_ns: u64,
    pub header_generation_min_ns: u64,
    pub header_generation_max_ns: u64,
    pub policy_hash_samples: usize,
    pub policy_hash_total_ns: u64,
    pub cache_hits: usize,
    pub cache_misses: usize,
    pub memory_pressure_events: usize,
    pub gc_events: usize,
}

impl MetricsView {
    /// Nothing measured yet: the minimum stands at `u64::MAX`, all else at
    /// zero.
    pub open spec fn initial() -> MetricsView {
        MetricsView {
            header_generation_samples: 0,
            header_generation_total_ns: 0,
            header_generation_min_ns: u64::MAX,
            header_generation_max_ns: 0,
            policy_hash_samples: 0,
            policy_hash_total_ns: 0,
            cache_hits: 0,
            cache_misses: 0,
            memory_pressure_events: 0,
            gc_events: 0,
        }
    }

    /// The measurements after one header generation that took `ns`
    /// nanoseconds. A generation of more than a millisecond counts as a
    /// memory pressure event.
    pub open spec fn with_header_generation(self, ns: u64) -> MetricsView {
        MetricsView {
            header_generation_samples: wrapped_sum(self.header_generation_samples, 1),
            header_generation_total_ns: wrapped_sum_u64(self.header_generation_total_ns, ns),
            header_generation_min_ns: if ns < self.header_generation_min_ns {
                ns
            } else {
                self.header_generation_min_ns
            },
            header_generation_max_ns: if ns > self.header_generation_max_ns {
                ns
            } else {
                self.header_generation_max_ns
            },
            memory_pressure_events: if ns > 1_000_000 {
                wrapped_sum(self.memory_pressure_events, 1)
            } else {
                self.memory_pressure_events
            },
            ..self
        }
    }

    /// The measurements after one hash that took `ns` nanoseconds.
    pub open spec fn with_policy_hash(self, ns: u64) -> MetricsView {
        MetricsView {
            policy_hash_samples: wrapped_sum(self.policy_hash_samples, 1),
            policy_hash_total_ns: wrapped_sum_u64(self.policy_hash_total_ns, ns),
            ..self
        }
    }
}

/// A sum of nanoseconds that starts again from zero where it passes
/// `u64::MAX`.
pub open spec fn wrapped_sum_u64(n: u64, by: u64) -> u64 {
    if n + by <= u64::MAX {
        (n + by) as u64
    } else {
        (n + by - u64::MAX - 1) as u64
    }
}

/// Adds nanoseconds, wrapping around at `u64::MAX`.
pub fn wrapping_sum_u64(n: u64, by: u64) -> (r: u64)
    ensures
        r == wrapped_sum_u64(n, by),
{
    if n <= u64::MAX - by {
        n + by
    } else {
        by - (u64::MAX - n) - 1
    }
}

/// The nanoseconds of a span as they are recorded: the low 64 bits.
pub open spec fn recorded_nanos(span: Duration) -> u64 {
    (duration_nanos(span) % 0x1_0000_0000_0000_0000) as u64
}

/// The nanoseconds of a span, cut to 64 bits.
pub fn nanos_of(span: Duration) -> (r: u64)
    ensures
        r == recorded_nanos(span),
{
    let nanos: u128 = span.as_nanos();
    (nanos % 0x1_0000_0000_0000_0000u128) as u64
}

/// Measurements of header generation and hashing.
#[derive(Debug)]
pub struct PerformanceMetrics {
    header_generation_samples: usize,
    header_generation_total_ns: u64,
    header_generation_min_ns: u64,
    header_generation_max_ns: u64,
    policy_hash_samples: usize,
    policy_hash_total_ns: u64,
    cache_hit_ratio: usize,
    cache_miss_ratio: usize,
    memory_pressure_events: usize,
    gc_events: usize,
}

impl View for PerformanceMetrics {
    type V = MetricsView;

    closed spec fn view(&self) -> MetricsView {
        MetricsView {
            header_generation_samples: self.header_generation_samples,
            header_generation_total_ns: self.header_generation_total_ns,
            header_generation_min_ns: self.header_generation_min_ns,
            header_generation_max_ns: self.header_generation_max_ns,
            policy_hash_samples: self.policy_hash_samples,
            policy_hash_total_ns: self.policy_hash_total_ns,
            cache_hits: self.cache_hit_ratio,
            cache_misses: self.cache_miss_ratio,
            memory_pressure_events: self.memory_pressure_events,
            gc_events: self.gc_events,
        }
    }
}

impl Default for PerformanceMetrics {
    fn default() -> (r: Self)
        ensures
            r@ == MetricsView::initial(),
    {
        PerformanceMetrics {
            header_generation_samples: 0,
            header_generation_total_ns: 0,
            header_generation_min_ns: u64::MAX,
            header_generation_max_ns: 0,
            policy_hash_samples: 0,
            policy_hash_total_ns: 0,
            cache_hit_ratio: 0,
            cache_miss_ratio: 0,
            memory_pressure_events: 0,
            gc_events: 0,
        }
    }
}

impl PerformanceMetrics {
    pub fn new() -> (r: Self)
        ensures
            r@ == MetricsView::initial(),
    {
        PerformanceMetrics {
            header_generation_samples: 0,
            header_generation_total_ns: 0,
            header_generation_min_ns: u64::MAX,
            header_generation_max_ns: 0,
            policy_hash_samples: 0,
            policy_hash_total_ns: 0,
            cache_hit_ratio: 0,
            cache_miss_ratio: 0,
            memory_pressure_events: 0,
            gc_events: 0,
        }
    }

    /// Records how long one header generation took.
    pub fn record_header_generation(&mut self, duration: Duration)
        ensures
            final(self)@ == old(self)@.with_header_generation(recorded_nanos(duration)),
    {
        let ns = nanos_of(duration);
        self.header_generation_samples = wrapping_sum(self.header_generation_samples, 1);
        self.header_generation_total_ns = wrapping_sum_u64(self.header_generation_total_ns, ns);
        if ns < self.header_generation_min_ns {
            self.header_generation_min_ns = ns;
        }
        if ns > self.header_generation_max_ns {
            self.header_generation_max_ns = ns;
        }
        if ns > 1_000_000 {
            self.memory_pressure_events = wrapping_sum(self.memory_pressure_events, 1);
        }
    }

    /// Records how long one structural hash took.
    pub fn record_policy_hash(&mut self, duration: Duration)
        ensures
            final(self)@ == old(self)@.with_policy_hash(recorded_nanos(duration)),
    {
        let ns = nanos_of(duration);
        self.policy_hash_samples = wrapping_sum(self.policy_hash_samples, 1);
        self.policy_hash_total_ns = wrapping_sum_u64(self.policy_hash_total_ns, ns);
    }

    pub fn record_cache_hit(&mut self)
        ensures
            final(self)@ == (MetricsView {
                cache_hits: wrapped_sum(old(self)@.cache_hits, 1),
                ..old(self)@
            }),
    {
        self.cache_hit_ratio = wrapping_sum(self.cache_hit_ratio, 1);
    }

    pub fn record_cache_miss(&mut self)
        ensures
            final(self)@ == (MetricsView {
                cache_misses: wrapped_sum(old(self)@.cache_misses, 1),
                ..old(self)@
            }),
    {
        self.cache_miss_ratio = wrapping_sum(self.cache_miss_ratio, 1);
    }

    /// The number of header generations recorded.
    pub fn header_generation_samples(&self) -> (r: usize)
        ensures
            r == self@.header_generation_samples,
    {
        self.header_generation_samples
    }

    /// The nanoseconds of all header generations recorded.
    pub fn header_generation_total_ns(&self) -> (r: u64)
        ensures
            r == self@.header_generation_total_ns,
    {
        self.header_generation_total_ns
    }

    /// The number of structural hashes recorded.
    pub fn policy_hash_samples(&self) -> (r: usize)
        ensures
            r == self@.policy_hash_samples,
    {
        self.policy_hash_samples
    }

    /// The nanoseconds of all structural hashes recorded.
    pub fn policy_hash_total_ns(&self) -> (r: u64)
        ensures
            r == self@.policy_hash_total_ns,
    {
        self.policy_hash_total_ns
    }

    /// The number of cache hits recorded.
    pub fn cache_hits(&self) -> (r: usize)
        ensures
            r == self@.cache_hits,
    {
        self.cache_hit_ratio
    }

    /// The number of cache misses recorded.
    pub fn cache_misses(&self) -> (r: usize)
        ensures
            r == self@.cache_misses,
    {
        self.cache_miss_ratio
    }

    /// The shortest header generation recorded, zero where there is none.
    pub fn min_header_generation_ns(&self) -> (r: u64)
        ensures
            r == if self@.header_generation_min_ns == u64::MAX {
                0
            } else {
                self@.header_generation_min_ns
            },
    {
        if self.header_generation_min_ns == u64::MAX {
            0
        } else {
            self.header_generation_min_ns
        }
    }

    /// The longest header generation recorded.
    pub fn max_header_generation_ns(&self) -> (r: u64)
        ensures
            r == self@.header_generation_max_ns,
    {
        self.header_generation_max_ns
    }

    /// Forgets every measurement.
    pub fn reset(&mut self)
        ensures
            final(self)@ == MetricsView::initial(),
    {
        self.header_generation_samples = 0;
        self.header_generation_total_ns = 0;
        self.header_generation_min_ns = u64::MAX;
        self.header_generation_max_ns = 0;
        self.policy_hash_samples = 0;
        self.policy_hash_total_ns = 0;
        self.cache_hit_ratio = 0;
        self.cache_miss_ratio = 0;
        self.memory_pressure_events = 0;
        self.gc_events = 0;
    }
}

/// A stopwatch started at its creation.
#[derive(Debug)]
pub struct PerformanceTimer {
    start: Instant,
}

impl PerformanceTimer {
    pub fn new() -> Self {
        PerformanceTimer { start: Instant::now() }
    }

    /// The time since the stopwatch was started. Nothing is promised of the
    /// clock.
    pub fn elapsed(&self) -> Duration {
        self.start.elapsed()
    }
}

impl Default for PerformanceTimer {
    fn default() -> Self {
        PerformanceTimer::new()
    }
}

} // verus!
