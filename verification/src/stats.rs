use vstd::prelude::*;
use std::time::Duration;
use std::time::Instant;
use crate::utils::decimal_digits;
use crate::utils::decimal_string;
use crate::utils::wrapped_sum;
use crate::utils::wrapping_sum;

verus! {

/// The counters of a running policy service as mathematical values.
pub struct StatsView {
    pub request_count: usize,
    pub nonce_generation_count: usize,
    pub policy_update_count: usize,
    pub header_generation_time_ns: usize,
    pub violation_count: usize,
    pub cache_hit_count: usize,
    pub policy_hash_time_ns: usize,
    pub policy_serialize_time_ns: usize,
    pub policy_validations: usize,
}

impl StatsView {
    /// Every counter at zero.
    pub open spec fn zero() -> StatsView {
        StatsView {
            request_count: 0,
            nonce_generation_count: 0,
            policy_update_count: 0,
            header_generation_time_ns: 0,
            violation_count: 0,
            cache_hit_count: 0,
            policy_hash_time_ns: 0,
            policy_serialize_time_ns: 0,
            policy_validations: 0,
        }
    }

    /// The counters as a report of several lines, given the uptime.
    pub open spec fn report(self, uptime_secs: u64) -> Seq<char> {
        "CSP Middleware Statistics:\n"@ + "  Uptime: "@ + decimal_digits(uptime_secs as nat)
            + " seconds\n"@ + "  Requests processed: "@ + decimal_digits(
            self.request_count as nat,
        ) + "\n"@ + "  Nonces generated: "@ + decimal_digits(self.nonce_generation_count as nat)
            + "\n"@ + "  Policy updates: "@ + decimal_digits(self.policy_update_count as nat)
            + "\n"@ + "  Policy validations: "@ + decimal_digits(self.policy_validations as nat)
            + "\n"@ + "  Total policy hash time: "@ + decimal_digits(
            self.policy_hash_time_ns as nat,
        ) + " ns\n"@ + "  Total policy serialize time: "@ + decimal_digits(
            self.policy_serialize_time_ns as nat,
        ) + " ns\n"@ + "  Violations reported: "@ + decimal_digits(self.violation_count as nat)
            + "\n"@ + "  Cache hits: "@ + decimal_digits(self.cache_hit_count as nat) + "\n"@
    }
}

/// Counters of what a policy service has done since it started. A counter
/// that passes `usize::MAX` starts again from zero.
#[derive(Debug)]
pub struct CspStats {
    request_count: usize,
    nonce_generation_count: usize,
    policy_update_count: usize,
    header_generation_time_ns: usize,
    violation_count: usize,
    cache_hit_count: usize,
    policy_hash_time_ns: usize,
    policy_serialize_time_ns: usize,
    policy_validations: usize,
    start_time: Instant,
}

impl View for CspStats {
    type V = StatsView;

    closed spec fn view(&self) -> StatsView {
        StatsView {
            request_count: self.request_count,
            nonce_generation_count: self.nonce_generation_count,
            policy_update_count: self.policy_update_count,
            header_generation_time_ns: self.header_generation_time_ns,
            violation_count: self.violation_count,
            cache_hit_count: self.cache_hit_count,
            policy_hash_time_ns: self.policy_hash_time_ns,
            policy_serialize_time_ns: self.policy_serialize_time_ns,
            policy_validations: self.policy_validations,
        }
    }
}

impl Default for CspStats {
    fn default() -> (r: Self)
        ensures
            r@ == StatsView::zero(),
    {
        CspStats::new()
    }
}

impl CspStats {
    pub fn request_count(&self) -> (r: usize)
        ensures
            r == self@.request_count,
    {
        self.request_count
    }

    pub fn nonce_generation_count(&self) -> (r: usize)
        ensures
            r == self@.nonce_generation_count,
    {
        self.nonce_generation_count
    }

    pub fn policy_update_count(&self) -> (r: usize)
        ensures
            r == self@.policy_update_count,
    {
        self.policy_update_count
    }

    pub fn total_header_generation_time_ns(&self) -> (r: usize)
        ensures
            r == self@.header_generation_time_ns,
    {
        self.header_generation_time_ns
    }

    pub fn violation_count(&self) -> (r: usize)
        ensures
            r == self@.violation_count,
    {
        self.violation_count
    }

    pub fn cache_hit_count(&self) -> (r: usize)
        ensures
            r == self@.cache_hit_count,
    {
        self.cache_hit_count
    }

    pub fn total_policy_hash_time_ns(&self) -> (r: usize)
        ensures
            r == self@.policy_hash_time_ns,
    {
        self.policy_hash_time_ns
    }

    pub fn total_policy_serialize_time_ns(&self) -> (r: usize)
        ensures
            r == self@.policy_serialize_time_ns,
    {
        self.policy_serialize_time_ns
    }

    pub fn policy_validations(&self) -> (r: usize)
        ensures
            r == self@.policy_validations,
    {
        self.policy_validations
    }

    /// The whole seconds since the counters were created. Nothing is
    /// promised of the clock.
    pub fn uptime_secs(&self) -> u64 {
        self.start_time.elapsed().as_secs()
    }

    /// The time since the counters were created. Nothing is promised of the
    /// clock.
    pub fn uptime(&self) -> Duration {
        self.start_time.elapsed()
    }

    pub fn increment_request_count(&mut self)
        ensures
            final(self)@ == (StatsView {
                request_count: wrapped_sum(old(self)@.request_count, 1),
                ..old(self)@
            }),
    {
        self.request_count = wrapping_sum(self.request_count, 1);
    }

    pub fn increment_nonce_generation_count(&mut self)
        ensures
            final(self)@ == (StatsView {
                nonce_generation_count: wrapped_sum(old(self)@.nonce_generation_count, 1),
                ..old(self)@
            }),
    {
        self.nonce_generation_count = wrapping_sum(self.nonce_generation_count, 1);
    }

    pub fn increment_policy_update_count(&mut self)
        ensures
            final(self)@ == (StatsView {
                policy_update_count: wrapped_sum(old(self)@.policy_update_count, 1),
                ..old(self)@
            }),
    {
        self.policy_update_count = wrapping_sum(self.policy_update_count, 1);
    }

    pub fn add_header_generation_time(&mut self, time_ns: usize)
        ensures
            final(self)@ == (StatsView {
                header_generation_time_ns: wrapped_sum(
                    old(self)@.header_generation_time_ns,
                    time_ns,
                ),
                ..old(self)@
            }),
    {
        self.header_generation_time_ns = wrapping_sum(self.header_generation_time_ns, time_ns);
    }

    pub fn increment_violation_count(&mut self)
        ensures
            final(self)@ == (StatsView {
                violation_count: wrapped_sum(old(self)@.violation_count, 1),
                ..old(self)@
            }),
    {
        self.violation_count = wrapping_sum(self.violation_count, 1);
    }

    pub fn increment_cache_hit_count(&mut self)
        ensures
            final(self)@ == (StatsView {
                cache_hit_count: wrapped_sum(old(self)@.cache_hit_count, 1),
                ..old(self)@
            }),
    {
        self.cache_hit_count = wrapping_sum(self.cache_hit_count, 1);
    }

    pub fn add_policy_hash_time(&mut self, time_ns: usize)
        ensures
            final(self)@ == (StatsView {
                policy_hash_time_ns: wrapped_sum(old(self)@.policy_hash_time_ns, time_ns),
                ..old(self)@
            }),
    {
        self.policy_hash_time_ns = wrapping_sum(self.policy_hash_time_ns, time_ns);
    }

    pub fn add_policy_serialize_time(&mut self, time_ns: usize)
        ensures
            final(self)@ == (StatsView {
                policy_serialize_time_ns: wrapped_sum(
                    old(self)@.policy_serialize_time_ns,
                    time_ns,
                ),
                ..old(self)@
            }),
    {
        self.policy_serialize_time_ns = wrapping_sum(self.policy_serialize_time_ns, time_ns);
    }

    /// Counters at zero, started now.
    pub fn new() -> (r: Self)
        ensures
            r@ == StatsView::zero(),
    {
        CspStats {
            request_count: 0,
            nonce_generation_count: 0,
            policy_update_count: 0,
            header_generation_time_ns: 0,
            violation_count: 0,
            cache_hit_count: 0,
            policy_hash_time_ns: 0,
            policy_serialize_time_ns: 0,
            policy_validations: 0,
            start_time: Instant::now(),
        }
    }

    /// Sets every counter back to zero. The start time stays.
    pub fn reset(&mut self)
        ensures
            final(self)@ == StatsView::zero(),
    {
        self.request_count = 0;
        self.nonce_generation_count = 0;
        self.policy_update_count = 0;
        self.header_generation_time_ns = 0;
        self.violation_count = 0;
        self.cache_hit_count = 0;
        self.policy_hash_time_ns = 0;
        self.policy_serialize_time_ns = 0;
        self.policy_validations = 0;
    }

    /// The counters as a report of several lines, for the given uptime.
    pub fn report(&self, uptime_secs: u64) -> (r: String)
        ensures
            r@ == self@.report(uptime_secs),
    {
        let mut out = String::from_str("CSP Middleware Statistics:\n");
        out.append("  Uptime: ");
        out.append(decimal_string(uptime_secs).as_str());
        out.append(" seconds\n");
        out.append("  Requests processed: ");
        out.append(decimal_string(self.request_count as u64).as_str());
        out.append("\n");
        out.append("  Nonces generated: ");
        out.append(decimal_string(self.nonce_generation_count as u64).as_str());
        out.append("\n");
        out.append("  Policy updates: ");
        out.append(decimal_string(self.policy_update_count as u64).as_str());
        out.append("\n");
        out.append("  Policy validations: ");
        out.append(decimal_string(self.policy_validations as u64).as_str());
        out.append("\n");
        out.append("  Total policy hash time: ");
        out.append(decimal_string(self.policy_hash_time_ns as u64).as_str());
        out.append(" ns\n");
        out.append("  Total policy serialize time: ");
        out.append(decimal_string(self.policy_serialize_time_ns as u64).as_str());
        out.append(" ns\n");
        out.append("  Violations reported: ");
        out.append(decimal_string(self.violation_count as u64).as_str());
        out.append("\n");
        out.append("  Cache hits: ");
        out.append(decimal_string(self.cache_hit_count as u64).as_str());
        out.append("\n");
        out
    }

    /// The report for the uptime that the clock gives now.
    pub fn to_string(&self) -> (r: String)
        ensures
            exists|uptime_secs: u64| r@ == #[trigger] self@.report(uptime_secs),
    {
        self.report(self.uptime_secs())
    }
}

} // verus!
