use vstd::prelude::*;
use actix_web::http::header::HeaderValue;
use crate::config::header_outcome;
use crate::config::nonce_outcome;
use crate::config::CspConfig;
use crate::config::CspConfigBuilder;
use crate::encoding::encodable_len;
use crate::error::CspError;
use crate::perf::PerformanceTimer;
use crate::policy::CspPolicy;
use crate::stats::StatsView;
use crate::utils::wrapped_sum;

verus! {

/// The part of a policy service that does not touch the network: it holds
/// the configuration and decides, for each request, which nonce the request
/// gets and which header its response carries.
pub struct CspMiddleware {
    config: CspConfig,
}

impl CspMiddleware {
    /// The configuration held.
    pub closed spec fn config_spec(&self) -> CspConfig {
        self.config
    }

    pub fn new(config: CspConfig) -> (r: Self)
        ensures
            r.config_spec() == config,
    {
        CspMiddleware { config }
    }

    pub fn config(&self) -> (r: &CspConfig)
        ensures
            *r == self.config_spec(),
    {
        &self.config
    }

    /// The configuration, to be changed in place.
    pub fn config_mut(&mut self) -> (r: &mut CspConfig)
        ensures
            *r == old(self).config_spec(),
            final(self).config_spec() == *final(r),
    {
        &mut self.config
    }

    /// Takes a request in: it is counted, and it gets the nonce that
    /// belongs to its identifier, where requests get nonces.
    pub fn begin_request(&mut self, request_id: &str) -> (r: Result<Option<String>, CspError>)
        requires
            old(self).config_spec().wf(),
        ensures
            final(self).config_spec().wf(),
            nonce_outcome(
                old(self).config_spec(),
                final(self).config_spec(),
                request_id@,
                r,
                StatsView {
                    request_count: wrapped_sum(
                        old(self).config_spec().stats_spec().request_count,
                        1,
                    ),
                    ..old(self).config_spec().stats_spec()
                },
            ),
    {
        self.config.stats_mut().increment_request_count();
        self.config.get_or_generate_request_nonce(request_id)
    }

    /// The header that the response to a request carries, with the time it
    /// took to make added to the counters.
    pub fn finish_response(&mut self) -> (r: Result<(&'static str, HeaderValue), CspError>)
        requires
            old(self).config_spec().wf(),
        ensures
            final(self).config_spec().wf(),
            header_outcome(old(self).config_spec(), final(self).config_spec(), r),
    {
        let timer = PerformanceTimer::new();
        let header = self.config.response_header();
        self.config.record_header_generation(&timer);
        header
    }
}

/// The service for a policy with the default configuration.
pub fn csp_middleware(policy: CspPolicy) -> (r: CspMiddleware)
    ensures
        r.config_spec().wf(),
        r.config_spec().policy_spec() == policy,
        r.config_spec().nonce_length() is None,
        !r.config_spec().per_request(),
        r.config_spec().stats_spec() == StatsView::zero(),
{
    CspMiddleware::new(CspConfig::new(policy))
}

/// The service for a policy, with a generator of nonces of that length.
pub fn csp_middleware_with_nonce(policy: CspPolicy, nonce_length: usize) -> (r: CspMiddleware)
    requires
        encodable_len(nonce_length as nat),
    ensures
        r.config_spec().wf(),
        r.config_spec().policy_spec() == policy,
        r.config_spec().nonce_length() == Some(nonce_length),
        !r.config_spec().per_request(),
{
    CspMiddleware::new(
        CspConfigBuilder::new().policy(policy).with_nonce_generator(nonce_length).build(),
    )
}

/// The service for a policy in which each request gets a nonce of its own,
/// of that length.
pub fn csp_middleware_with_request_nonce(policy: CspPolicy, nonce_length: usize) -> (r:
    CspMiddleware)
    requires
        encodable_len(nonce_length as nat),
    ensures
        r.config_spec().wf(),
        r.config_spec().policy_spec() == policy,
        r.config_spec().nonce_length() == Some(nonce_length),
        r.config_spec().per_request(),
{
    CspMiddleware::new(
        CspConfigBuilder::new().policy(policy).with_nonce_generator(
            nonce_length,
        ).with_nonce_per_request(true).build(),
    )
}

} // verus!
