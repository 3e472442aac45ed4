use actix_web_csp::csp_middleware;
use actix_web_csp::csp_middleware_with_nonce;
use actix_web_csp::csp_middleware_with_request_nonce;
use actix_web_csp::CspConfigBuilder;
use actix_web_csp::CspMiddleware;
use actix_web_csp::CspPolicy;
use actix_web_csp::CspPolicyBuilder;
use actix_web_csp::Source;

#[test]
fn test_csp_middleware_creation() {
    let policy = CspPolicyBuilder::new()
        .default_src([Source::Self_])
        .script_src([Source::Self_, Source::UnsafeInline])
        .build_unchecked();

    let middleware = csp_middleware(policy);

    assert!(middleware
        .config()
        .policy()
        .get_directive("default-src")
        .is_some());
    assert!(middleware
        .config()
        .policy()
        .get_directive("script-src")
        .is_some());
}

#[test]
fn test_csp_middleware_with_config() {
    let policy = CspPolicyBuilder::new()
        .default_src([Source::Self_])
        .build_unchecked();

    let config = CspConfigBuilder::new()
        .policy(policy)
        .with_nonce_generator(16)
        .with_cache_size(100)
        .build();

    let middleware = CspMiddleware::new(config);

    assert!(middleware
        .config()
        .policy()
        .get_directive("default-src")
        .is_some());
}

#[test]
fn test_csp_middleware_with_report_only() {
    let policy = CspPolicyBuilder::new()
        .default_src([Source::Self_])
        .report_only(true)
        .build_unchecked();

    let middleware = csp_middleware(policy);

    assert!(middleware.config().policy().is_report_only());
}

#[test]
fn test_csp_middleware_with_report_uri() {
    let policy = CspPolicyBuilder::new()
        .default_src([Source::Self_])
        .report_uri("https://example.com/csp-report")
        .build_unchecked();

    let middleware = csp_middleware(policy);

    assert_eq!(
        middleware.config().policy().report_uri(),
        Some("https://example.com/csp-report")
    );
}

#[test]
fn test_csp_middleware_with_report_to() {
    let policy = CspPolicyBuilder::new()
        .default_src([Source::Self_])
        .report_to("csp-endpoint")
        .build_unchecked();

    let middleware = csp_middleware(policy);

    assert_eq!(
        middleware.config().policy().report_to(),
        Some("csp-endpoint")
    );
}

#[test]
fn test_csp_middleware_with_multiple_directives() {
    let policy = CspPolicyBuilder::new()
        .default_src([Source::Self_])
        .script_src([Source::Self_, Source::UnsafeInline])
        .style_src([Source::Self_, Source::UnsafeInline])
        .img_src([Source::Self_, Source::Host("example.com".into())])
        .connect_src([Source::Self_, Source::Scheme("https".into())])
        .build_unchecked();

    let middleware = csp_middleware(policy);

    let policy = middleware.config().policy();
    assert!(policy.get_directive("default-src").is_some());
    assert!(policy.get_directive("script-src").is_some());
    assert!(policy.get_directive("style-src").is_some());
    assert!(policy.get_directive("img-src").is_some());
    assert!(policy.get_directive("connect-src").is_some());
}

#[test]
fn test_csp_middleware_empty_policy() {
    let policy = CspPolicy::new();
    let middleware = csp_middleware(policy);

    assert_eq!(middleware.config().policy().directives().iter().count(), 0);
}

#[test]
fn test_csp_middleware_with_nonce_generator() {
    let policy = CspPolicyBuilder::new()
        .default_src([Source::Self_])
        .build_unchecked();

    let config = CspConfigBuilder::new()
        .policy(policy)
        .with_nonce_generator(16)
        .build();

    let mut middleware = CspMiddleware::new(config);

    let nonce = middleware.config_mut().generate_nonce().unwrap();
    assert!(nonce.is_some());
    assert!(!nonce.unwrap().is_empty());
}

#[test]
fn middleware_with_nonce_generates_nonces_of_that_length() {
    let mut middleware = csp_middleware_with_nonce(CspPolicy::new(), 9);
    let nonce = middleware.config_mut().generate_nonce().unwrap().unwrap();
    assert_eq!(nonce.len(), 12);
    assert!(middleware.begin_request("r").unwrap().is_none());
}

#[test]
fn requests_are_counted_and_answered() {
    let policy = CspPolicyBuilder::new()
        .default_src([Source::Self_])
        .build_unchecked();
    let mut middleware = csp_middleware_with_request_nonce(policy, 16);

    let first = middleware.begin_request("request-1").unwrap().unwrap();
    let again = middleware.begin_request("request-1").unwrap().unwrap();
    let other = middleware.begin_request("request-2").unwrap().unwrap();
    assert_eq!(first, again);
    assert_ne!(first, other);
    assert_eq!(middleware.config().stats().request_count(), 3);
    assert_eq!(middleware.config().stats().nonce_generation_count(), 2);

    let (name, value) = middleware.finish_response().unwrap();
    assert_eq!(name, "content-security-policy");
    assert_eq!(value.to_str().unwrap(), "default-src 'self'");
    let (_, value) = middleware.finish_response().unwrap();
    assert_eq!(value.to_str().unwrap(), "default-src 'self'");
    assert_eq!(middleware.config().stats().cache_hit_count(), 1);
    assert_eq!(
        middleware.config().perf_metrics().header_generation_samples(),
        2
    );

    let mut plain = csp_middleware(CspPolicy::new());
    assert!(plain.begin_request("request-1").unwrap().is_none());
    assert_eq!(plain.config().stats().request_count(), 1);
}
