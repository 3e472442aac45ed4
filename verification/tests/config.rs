use actix_web_csp::config::UpdateListener;
use actix_web_csp::CspConfig;
use actix_web_csp::CspConfigBuilder;
use actix_web_csp::CspPolicy;
use actix_web_csp::CspPolicyBuilder;
use actix_web_csp::Directive;
use actix_web_csp::NonceGenerator;
use actix_web_csp::Source;
use std::borrow::Cow;
use std::time::Duration;

struct Silent;

impl UpdateListener for Silent {
    fn on_policy_updated(&self, _policy: &mut CspPolicy) {}
}

struct AddsSandbox;

impl UpdateListener for AddsSandbox {
    fn on_policy_updated(&self, policy: &mut CspPolicy) {
        policy.add_directive(Directive::new("sandbox"));
    }
}

#[test]
fn test_csp_config_creation() {
    let policy = CspPolicy::new();
    let config = CspConfig::new(policy);

    assert!(config.stats().policy_update_count() == 0);
}

#[test]
fn test_csp_config_builder_default() {
    let mut config = CspConfigBuilder::new().build();

    assert!(config.generate_nonce().unwrap().is_none());
}

#[test]
fn test_csp_config_builder_with_policy() {
    let policy = CspPolicy::new();
    let mut config = CspConfigBuilder::new().policy(policy).build();

    assert!(config.generate_nonce().unwrap().is_none());
}

#[test]
fn test_csp_config_with_nonce_generator() {
    let mut config = CspConfigBuilder::new().with_nonce_generator(16).build();

    let nonce = config.generate_nonce().unwrap();
    assert!(nonce.is_some());
    let nonce_str = nonce.unwrap();
    assert!(nonce_str.len() > 0);
}

#[test]
fn test_csp_config_with_prebuilt_nonce_generator() {
    let generator = NonceGenerator::with_capacity(32, 12);
    let mut config = CspConfigBuilder::new()
        .with_prebuilt_nonce_generator(generator)
        .build();

    let nonce = config.generate_nonce().unwrap();
    assert!(nonce.is_some());
    let nonce_str = nonce.unwrap();
    assert!(nonce_str.len() > 0);
}

#[test]
fn test_csp_config_with_cache_settings() {
    let config = CspConfigBuilder::new()
        .with_cache_duration(Duration::from_secs(120))
        .with_cache_size(100)
        .build();

    assert_eq!(config.cache_duration(), Duration::from_secs(120));
}

#[test]
fn test_csp_config_nonce_per_request() {
    let mut config = CspConfigBuilder::new()
        .with_nonce_generator(16)
        .with_nonce_per_request(true)
        .build();

    let nonce1 = config.get_or_generate_request_nonce("request1").unwrap();
    let nonce2 = config.get_or_generate_request_nonce("request1").unwrap();
    let nonce3 = config.get_or_generate_request_nonce("request2").unwrap();

    assert!(nonce1.is_some());
    assert!(nonce2.is_some());
    assert!(nonce3.is_some());

    assert_eq!(nonce1.as_ref().unwrap(), nonce2.as_ref().unwrap());

    assert_ne!(nonce1.as_ref().unwrap(), nonce3.as_ref().unwrap());
}

#[test]
fn test_csp_config_clear_request_nonces() {
    let mut config = CspConfigBuilder::new()
        .with_nonce_generator(16)
        .with_nonce_per_request(true)
        .build();

    let _nonce = config.get_or_generate_request_nonce("request1").unwrap();
    config.clear_request_nonces();

    let new_nonce = config.get_or_generate_request_nonce("request1").unwrap();
    assert!(new_nonce.is_some());
}

#[test]
fn test_csp_config_policy_update() {
    let policy = CspPolicy::new();
    let mut config = CspConfig::new(policy);

    config.update_policy(|_policy| {});

    assert!(config.stats().policy_update_count() > 0);
}

#[test]
fn test_csp_config_update_listeners() {
    let policy = CspPolicy::new();
    let mut config = CspConfig::new(policy);

    let listener_id = config.add_update_listener(Box::new(Silent));

    assert!(config.remove_update_listener(listener_id));
    assert!(!config.remove_update_listener(listener_id));
}

#[test]
fn test_csp_config_with_default_directives() {
    let policy = CspPolicy::new();
    let config = CspConfig::new(policy).with_default_directives();

    let policy_ref = config.policy();
    assert!(policy_ref.get_directive("default-src").is_some());
    assert!(policy_ref.get_directive("object-src").is_some());
}

fn text_of(policy: &CspPolicy) -> String {
    policy
        .clone()
        .header_value()
        .unwrap()
        .to_str()
        .unwrap()
        .to_string()
}

#[test]
fn default_directives_are_added_once() {
    let config = CspConfig::new(CspPolicy::new()).with_default_directives();
    assert_eq!(
        text_of(config.policy()),
        "default-src 'self'; object-src 'none'"
    );
    let again = config.with_default_directives();
    assert_eq!(
        text_of(again.policy()),
        "default-src 'self'; object-src 'none'"
    );

    let own = CspPolicyBuilder::new()
        .object_src([Source::Self_])
        .build_unchecked();
    let kept = CspConfig::new(own).with_default_directives();
    assert_eq!(
        text_of(kept.policy()),
        "object-src 'self'; default-src 'self'"
    );
}

#[test]
fn update_clears_the_cache_and_the_header_follows() {
    let policy = CspPolicyBuilder::new()
        .default_src([Source::Self_])
        .build_unchecked();
    let mut config = CspConfig::new(policy);

    let (name, value) = config.response_header().unwrap();
    assert_eq!(name, "content-security-policy");
    assert_eq!(value.to_str().unwrap(), "default-src 'self'");

    let old_hash = config.policy().clone().hash();
    assert!(config.get_cached_policy(old_hash).is_some());
    let (_, again) = config.response_header().unwrap();
    assert_eq!(again.to_str().unwrap(), "default-src 'self'");
    assert_eq!(config.stats().cache_hit_count(), 1);

    config.update_policy(|policy| {
        policy.add_directive(Directive::new("upgrade-insecure-requests"));
        policy.set_report_only(true);
    });

    assert!(config.get_cached_policy(old_hash).is_none());
    assert_eq!(config.stats().policy_update_count(), 1);
    let (name, value) = config.response_header().unwrap();
    assert_eq!(name, "content-security-policy-report-only");
    assert_eq!(
        value.to_str().unwrap(),
        "default-src 'self'; upgrade-insecure-requests"
    );
}

#[test]
fn listeners_are_told_in_registration_order() {
    let mut config = CspConfig::new(CspPolicy::new());
    let first = config.add_update_listener(Box::new(Silent));
    let second = config.add_update_listener(Box::new(AddsSandbox));
    assert_eq!(first, 0);
    assert_eq!(second, 1);

    config.update_policy(|policy| {
        policy.set_report_uri("/r");
    });
    assert_eq!(text_of(config.policy()), "sandbox; report-uri /r");

    assert!(config.remove_update_listener(second));
    config.update_policy(|policy| {
        policy.add_directive(Directive::new("block-all-mixed-content"));
    });
    assert_eq!(
        text_of(config.policy()),
        "sandbox; block-all-mixed-content; report-uri /r"
    );
    assert_eq!(config.stats().policy_update_count(), 2);
    assert_eq!(config.add_update_listener(Box::new(Silent)), 2);
}

#[test]
fn cache_keeps_the_most_recently_used() {
    let mut config = CspConfigBuilder::new().with_cache_size(2).build();
    let named = |name: &'static str| {
        CspPolicyBuilder::new()
            .with_directive(Directive::new(name))
            .build_unchecked()
    };
    config.cache_policy(1, named("one"));
    config.cache_policy(2, named("two"));
    assert_eq!(text_of(&config.get_cached_policy(1).unwrap()), "one");
    config.cache_policy(3, named("three"));
    assert!(config.get_cached_policy(2).is_none());
    assert_eq!(text_of(&config.get_cached_policy(1).unwrap()), "one");
    assert_eq!(text_of(&config.get_cached_policy(3).unwrap()), "three");
    config.cache_policy(1, named("uno"));
    assert_eq!(text_of(&config.get_cached_policy(1).unwrap()), "uno");
    assert_eq!(text_of(&config.get_cached_policy(3).unwrap()), "three");
}

#[test]
fn zero_cache_size_keeps_the_default() {
    let mut config = CspConfigBuilder::new().with_cache_size(0).build();
    for key in 1..=64u64 {
        config.cache_policy(key, CspPolicy::new());
    }
    assert!(config.get_cached_policy(1).is_some());
    config.cache_policy(65, CspPolicy::new());
    assert!(config.get_cached_policy(2).is_none());
    assert!(config.get_cached_policy(1).is_some());
}

#[test]
fn request_nonces_are_off_unless_asked_for() {
    let mut no_generator = CspConfigBuilder::new()
        .with_nonce_per_request(true)
        .build();
    assert!(no_generator
        .get_or_generate_request_nonce("r")
        .unwrap()
        .is_none());

    let mut not_per_request = CspConfigBuilder::new().with_nonce_generator(16).build();
    assert!(not_per_request
        .get_or_generate_request_nonce("r")
        .unwrap()
        .is_none());
    assert_eq!(not_per_request.stats().nonce_generation_count(), 0);
    assert!(not_per_request.generate_nonce().unwrap().is_some());
    assert_eq!(not_per_request.stats().nonce_generation_count(), 1);
}

#[test]
fn request_nonce_is_generated_once_per_identifier() {
    let mut config = CspConfigBuilder::new()
        .with_nonce_generator(16)
        .with_nonce_per_request(true)
        .build();
    let a1 = config.get_or_generate_request_nonce("a").unwrap().unwrap();
    let b1 = config.get_or_generate_request_nonce("b").unwrap().unwrap();
    let a2 = config.get_or_generate_request_nonce("a").unwrap().unwrap();
    assert_eq!(a1, a2);
    assert_ne!(a1, b1);
    assert_eq!(a1.len(), 22);
    assert_eq!(config.stats().nonce_generation_count(), 2);
    config.clear_request_nonces();
    let a3 = config.get_or_generate_request_nonce("a").unwrap().unwrap();
    assert_ne!(a1, a3);
    assert_eq!(config.stats().nonce_generation_count(), 3);
}

#[test]
fn cache_duration_defaults_to_a_minute() {
    let config = CspConfig::new(CspPolicy::new());
    assert_eq!(config.cache_duration(), Duration::from_secs(60));
    let cut = CspConfigBuilder::new()
        .with_cache_duration(Duration::from_millis(2_999))
        .with_nonce_request_header("x-nonce")
        .build();
    assert_eq!(cut.cache_duration(), Duration::from_secs(2));
}

#[test]
fn a_cached_policy_is_served_under_its_hash() {
    let live = CspPolicyBuilder::new()
        .default_src([Source::Self_])
        .build_unchecked();
    let mut config = CspConfig::new(live);
    let hash = config.policy().clone().hash();
    let other = CspPolicyBuilder::new()
        .default_src([Source::Host(Cow::Borrowed("kept.example"))])
        .report_only(true)
        .build_unchecked();
    config.cache_policy(hash, other);
    let (name, value) = config.response_header().unwrap();
    assert_eq!(name, "content-security-policy-report-only");
    assert_eq!(value.to_str().unwrap(), "default-src kept.example");
}

#[test]
fn request_header_choice_is_kept() {
    let chosen = CspConfigBuilder::new()
        .with_nonce_request_header("x-csp-nonce")
        .with_cache_size(3)
        .build();
    assert_eq!(chosen.nonce_request_header(), Some("x-csp-nonce"));
    assert_eq!(CspConfigBuilder::new().build().nonce_request_header(), None);
    assert_eq!(CspConfig::new(CspPolicy::new()).nonce_request_header(), None);
}

#[test]
fn header_generation_time_is_recorded() {
    let mut config = CspConfig::new(CspPolicy::new());
    config.record_header_generation_of(Duration::from_nanos(1_500));
    config.record_header_generation_of(Duration::from_millis(3));
    assert_eq!(config.stats().total_header_generation_time_ns(), 3_001_500);
    assert_eq!(config.perf_metrics().header_generation_samples(), 2);
    assert_eq!(config.perf_metrics().header_generation_total_ns(), 3_001_500);
    assert_eq!(config.perf_metrics().min_header_generation_ns(), 1_500);
    assert_eq!(config.perf_metrics().max_header_generation_ns(), 3_000_000);
    assert_eq!(config.stats().request_count(), 0);

    let timer = actix_web_csp::PerformanceTimer::new();
    config.record_header_generation(&timer);
    assert_eq!(config.perf_metrics().header_generation_samples(), 3);
    assert!(config.stats().total_header_generation_time_ns() >= 3_001_500);
}
