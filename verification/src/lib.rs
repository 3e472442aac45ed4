use vstd::prelude::*;

pub mod buffer;
pub mod builders;
pub mod cache;
pub mod clock;
pub mod config;
pub mod digest;
pub mod directive;
pub mod encoding;
pub mod error;
pub mod fx;
pub mod hash;
pub mod list;
pub mod memo;
pub mod middleware;
pub mod nonce;
pub mod ordered;
pub mod perf;
pub mod policy;
pub mod policy_builder;
pub mod pool;
pub mod random;
pub mod report;
pub mod reporting;
pub mod source;
pub mod stats;
pub mod text;
pub mod uri;
pub mod utils;
pub mod verify;

pub use builders::DirectiveSpec;
pub use builders::Sandbox;
pub use config::CspConfig;
pub use config::CspConfigBuilder;
pub use config::UpdateListener;
pub use directive::Directive;
pub use error::CspError;
pub use hash::HashAlgorithm;
pub use hash::HashGenerator;
pub use middleware::csp_middleware;
pub use middleware::csp_middleware_with_nonce;
pub use middleware::csp_middleware_with_request_nonce;
pub use middleware::CspMiddleware;
pub use nonce::NonceGenerator;
pub use nonce::RequestNonce;
pub use perf::PerformanceMetrics;
pub use perf::PerformanceTimer;
pub use policy::CspPolicy;
pub use policy_builder::CspPolicyBuilder;
pub use report::CspViolationReport;
pub use reporting::csp_reporting_middleware;
pub use reporting::CspReportingMiddleware;
pub use reporting::ViolationHandler;
pub use source::Source;
pub use stats::CspStats;
pub use verify::PolicyVerifier;
