use actix_web::http::header::HeaderName;
use actix_web_csp::builders::ScriptSrc;
use actix_web_csp::CspError;
use actix_web_csp::CspPolicy;
use actix_web_csp::CspPolicyBuilder;
use actix_web_csp::Directive;
use actix_web_csp::DirectiveSpec;
use actix_web_csp::HashAlgorithm;
use actix_web_csp::Sandbox;
use actix_web_csp::Source;
use std::borrow::Cow;
use std::time::Duration;

#[test]
fn test_csp_policy_creation() {
    let policy = CspPolicy::new();

    assert!(!policy.is_report_only());
    assert!(policy.report_uri().is_none());
    assert!(policy.report_to().is_none());
    assert_eq!(policy.directives().iter().count(), 0);
}

#[test]
fn test_csp_policy_default() {
    let policy = CspPolicy::default();

    assert!(!policy.is_report_only());
    assert!(policy.report_uri().is_none());
    assert!(policy.report_to().is_none());
}

#[test]
fn test_csp_policy_report_only() {
    let mut policy = CspPolicy::new();

    policy.set_report_only(true);
    assert!(policy.is_report_only());

    policy.set_report_only(false);
    assert!(!policy.is_report_only());
}

#[test]
fn test_csp_policy_report_uri() {
    let mut policy = CspPolicy::new();

    policy.set_report_uri("https://example.com/csp-report");
    assert_eq!(policy.report_uri(), Some("https://example.com/csp-report"));
}

#[test]
fn test_csp_policy_report_to() {
    let mut policy = CspPolicy::new();

    policy.set_report_to("csp-endpoint");
    assert_eq!(policy.report_to(), Some("csp-endpoint"));
}

#[test]
fn test_csp_policy_header_name() {
    let mut policy = CspPolicy::new();

    assert_eq!(
        HeaderName::from_static(policy.header_name()),
        HeaderName::from_static("content-security-policy")
    );

    policy.set_report_only(true);
    assert_eq!(
        HeaderName::from_static(policy.header_name()),
        HeaderName::from_static("content-security-policy-report-only")
    );
}

#[test]
fn test_csp_policy_validate_empty() {
    let policy = CspPolicy::new();

    assert!(policy.validate().is_ok());
}

#[test]
fn test_csp_policy_hash() {
    let mut policy1 = CspPolicy::new();
    let mut policy2 = CspPolicy::new();

    assert_eq!(policy1.hash(), policy2.hash());

    policy2.set_report_only(true);
    assert_ne!(policy1.hash(), policy2.hash());
}

#[test]
fn test_csp_policy_builder_creation() {
    let builder = CspPolicyBuilder::new();
    let policy = builder.build_unchecked();

    assert!(!policy.is_report_only());
    assert_eq!(policy.directives().iter().count(), 0);
}

#[test]
fn test_csp_policy_builder_default_src() {
    let policy = CspPolicyBuilder::new()
        .default_src([Source::Self_])
        .build_unchecked();

    assert!(policy.get_directive("default-src").is_some());
}

#[test]
fn test_csp_policy_builder_script_src() {
    let policy = CspPolicyBuilder::new()
        .script_src([Source::Self_, Source::UnsafeInline])
        .build_unchecked();

    assert!(policy.get_directive("script-src").is_some());
}

#[test]
fn test_csp_policy_builder_style_src() {
    let policy = CspPolicyBuilder::new()
        .style_src([Source::Self_, Source::UnsafeInline])
        .build_unchecked();

    assert!(policy.get_directive("style-src").is_some());
}

#[test]
fn test_csp_policy_builder_multiple_directives() {
    let policy = CspPolicyBuilder::new()
        .default_src([Source::Self_])
        .script_src([Source::Self_])
        .style_src([Source::Self_])
        .img_src([Source::Self_])
        .build_unchecked();

    assert!(policy.get_directive("default-src").is_some());
    assert!(policy.get_directive("script-src").is_some());
    assert!(policy.get_directive("style-src").is_some());
    assert!(policy.get_directive("img-src").is_some());
    assert_eq!(policy.directives().iter().count(), 4);
}

#[test]
fn test_csp_policy_builder_report_settings() {
    let policy = CspPolicyBuilder::new()
        .report_uri("https://example.com/csp-report")
        .report_to("csp-endpoint")
        .report_only(true)
        .build_unchecked();

    assert!(policy.is_report_only());
    assert_eq!(policy.report_uri(), Some("https://example.com/csp-report"));
    assert_eq!(policy.report_to(), Some("csp-endpoint"));
}

#[test]
fn test_csp_policy_builder_special_directives() {
    let policy = CspPolicyBuilder::new()
        .upgrade_insecure_requests()
        .block_all_mixed_content()
        .build_unchecked();

    assert!(policy.get_directive("upgrade-insecure-requests").is_some());
    assert!(policy.get_directive("block-all-mixed-content").is_some());
}

#[test]
fn test_csp_policy_builder_all_source_directives() {
    let policy = CspPolicyBuilder::new()
        .default_src([Source::Self_])
        .script_src([Source::Self_])
        .style_src([Source::Self_])
        .img_src([Source::Self_])
        .connect_src([Source::Self_])
        .font_src([Source::Self_])
        .object_src([Source::None_])
        .media_src([Source::Self_])
        .frame_src([Source::Self_])
        .worker_src([Source::Self_])
        .manifest_src([Source::Self_])
        .child_src([Source::Self_])
        .frame_ancestors([Source::Self_])
        .base_uri([Source::Self_])
        .form_action([Source::Self_])
        .build_unchecked();

    assert_eq!(policy.directives().iter().count(), 15);
}

#[test]
fn test_csp_policy_builder_build_with_validation() {
    let result = CspPolicyBuilder::new().default_src([Source::Self_]).build();

    assert!(result.is_ok());
}

#[test]
fn test_csp_policy_builder_build_unchecked() {
    let policy = CspPolicyBuilder::new()
        .default_src([Source::Self_])
        .build_unchecked();

    assert!(policy.get_directive("default-src").is_some());
}

#[test]
fn test_csp_policy_contains_nonce() {
    let policy_without_nonce = CspPolicyBuilder::new()
        .default_src([Source::Self_])
        .build_unchecked();

    let policy_with_nonce = CspPolicyBuilder::new()
        .script_src([Source::Nonce(Cow::Borrowed("test123"))])
        .build_unchecked();

    assert!(!policy_without_nonce.contains_nonce());
    assert!(policy_with_nonce.contains_nonce());
}

#[test]
fn test_csp_policy_contains_hash() {
    let policy_without_hash = CspPolicyBuilder::new()
        .default_src([Source::Self_])
        .build_unchecked();

    let policy_with_hash = CspPolicyBuilder::new()
        .script_src([Source::Hash {
            algorithm: HashAlgorithm::Sha256,
            value: Cow::Borrowed("abc123"),
        }])
        .build_unchecked();

    assert!(!policy_without_hash.contains_hash());
    assert!(policy_with_hash.contains_hash());
}

#[test]
fn test_csp_policy_header_value_generation() {
    let mut policy = CspPolicyBuilder::new()
        .default_src([Source::Self_])
        .script_src([Source::Self_, Source::UnsafeInline])
        .build_unchecked();

    let header_value = policy.header_value();
    assert!(header_value.is_ok());

    let header = header_value.unwrap();
    let header_str = header.to_str().unwrap();
    assert!(header_str.contains("default-src 'self'"));
    assert!(header_str.contains("script-src 'self' 'unsafe-inline'"));
}

fn header_text(policy: &mut CspPolicy) -> String {
    policy
        .header_value()
        .unwrap()
        .to_str()
        .unwrap()
        .to_string()
}

#[test]
fn end_to_end_header_is_exact() {
    let mut policy = CspPolicyBuilder::new()
        .default_src([Source::Self_])
        .script_src([Source::Self_, Source::UnsafeInline])
        .build_unchecked();

    assert_eq!(
        header_text(&mut policy),
        "default-src 'self'; script-src 'self' 'unsafe-inline'"
    );
}

#[test]
fn header_of_an_empty_policy_is_empty() {
    let mut policy = CspPolicy::new();
    assert_eq!(header_text(&mut policy), "");
}

#[test]
fn header_with_report_settings() {
    let mut only_uri = CspPolicy::new();
    only_uri.set_report_uri("/reports");
    assert_eq!(header_text(&mut only_uri), "report-uri /reports");

    let mut only_to = CspPolicy::new();
    only_to.set_report_to("group");
    assert_eq!(header_text(&mut only_to), "report-to group");

    let mut both = CspPolicy::new();
    both.set_report_to("group");
    both.set_report_uri("/reports");
    assert_eq!(
        header_text(&mut both),
        "report-uri /reports; report-to group"
    );

    let mut full = CspPolicyBuilder::new()
        .default_src([Source::Self_])
        .img_src([
            Source::Self_,
            Source::Scheme(Cow::Borrowed("data")),
            Source::Host(Cow::Borrowed("*.example.com")),
        ])
        .upgrade_insecure_requests()
        .report_uri("/reports")
        .report_to("group")
        .build_unchecked();
    assert_eq!(
        header_text(&mut full),
        "default-src 'self'; img-src 'self' data: *.example.com; upgrade-insecure-requests; report-uri /reports; report-to group"
    );
}

#[test]
fn header_is_the_same_when_compiled_twice() {
    let mut policy = CspPolicyBuilder::new()
        .default_src([Source::Self_])
        .script_src([Source::Nonce(Cow::Borrowed("abc"))])
        .report_uri("/r")
        .build_unchecked();
    let first = policy.header_value().unwrap();
    let second = policy.header_value().unwrap();
    let third = policy
        .header_value_with_cache_duration(Duration::from_secs(0))
        .unwrap();
    let fourth = policy
        .header_value_with_cache_duration(Duration::from_secs(0))
        .unwrap();
    assert_eq!(first.as_bytes(), second.as_bytes());
    assert_eq!(first.as_bytes(), third.as_bytes());
    assert_eq!(first.as_bytes(), fourth.as_bytes());

    let h1 = policy.hash();
    let h2 = policy.hash();
    assert_eq!(h1, h2);
    assert_ne!(h1, 0);
}

#[test]
fn header_follows_every_change() {
    let mut policy = CspPolicyBuilder::new()
        .default_src([Source::Self_])
        .build_unchecked();
    assert_eq!(header_text(&mut policy), "default-src 'self'");

    policy.add_directive(
        ScriptSrc::new()
            .add_source(Source::StrictDynamic)
            .build(),
    );
    assert_eq!(
        header_text(&mut policy),
        "default-src 'self'; script-src 'strict-dynamic'"
    );

    let mut replaced = Directive::new("default-src");
    replaced.add_source(Source::None_);
    policy.add_directive(replaced);
    assert_eq!(
        header_text(&mut policy),
        "default-src 'none'; script-src 'strict-dynamic'"
    );
    assert_eq!(policy.directives().len(), 2);

    policy.set_report_uri("/a");
    assert_eq!(
        header_text(&mut policy),
        "default-src 'none'; script-src 'strict-dynamic'; report-uri /a"
    );
    policy.set_report_uri("/b");
    assert_eq!(
        header_text(&mut policy),
        "default-src 'none'; script-src 'strict-dynamic'; report-uri /b"
    );
}

#[test]
fn hash_changes_with_each_hashed_part() {
    let base = || {
        CspPolicyBuilder::new()
            .default_src([Source::Self_])
            .script_src([Source::Self_])
            .report_uri("/r")
            .build_unchecked()
    };
    let mut original = base();
    let reference = original.hash();

    let mut other_directive = base();
    other_directive.add_directive(ScriptSrc::new().add_source(Source::UnsafeEval).build());
    assert_ne!(other_directive.hash(), reference);

    let mut other_uri = base();
    other_uri.set_report_uri("/s");
    assert_ne!(other_uri.hash(), reference);

    let mut other_to = base();
    other_to.set_report_to("group");
    assert_ne!(other_to.hash(), reference);

    let mut other_flag = base();
    other_flag.set_report_only(true);
    assert_ne!(other_flag.hash(), reference);

    let mut reordered = CspPolicyBuilder::new()
        .script_src([Source::Self_])
        .default_src([Source::Self_])
        .report_uri("/r")
        .build_unchecked();
    assert_ne!(reordered.hash(), reference);

    let mut same = base();
    assert_eq!(same.hash(), reference);
}

#[test]
fn hash_input_is_exact() {
    let policy = CspPolicyBuilder::new()
        .default_src([Source::Self_])
        .report_to("g")
        .build_unchecked();
    let mut expected: Vec<u8> = vec![1, 0, 0, 0, 0, 0, 0, 0];
    expected.extend_from_slice(b"default-src");
    expected.push(0xff);
    expected.extend_from_slice(b"default-src 'self'");
    expected.push(0xff);
    expected.push(0);
    expected.push(0);
    expected.push(1);
    expected.extend_from_slice(b"g");
    expected.push(0xff);
    assert_eq!(policy.hash_input(), expected);
}

#[test]
fn header_with_a_forbidden_byte_is_an_error() {
    let mut policy = CspPolicyBuilder::new()
        .default_src([Source::Host(Cow::Borrowed("bad\nhost"))])
        .build_unchecked();
    match policy.header_value() {
        Err(CspError::InvalidDirectiveValue(message)) => {
            assert_eq!(message, "Failed to create header value");
        }
        _ => panic!("a line feed may not stand in a header value"),
    }

    let mut tab = CspPolicyBuilder::new()
        .default_src([Source::Host(Cow::Borrowed("a\tb"))])
        .build_unchecked();
    assert!(tab.header_value().is_ok());
}

#[test]
fn validation_reports_the_first_complaint() {
    let result = CspPolicyBuilder::new()
        .default_src([Source::Self_])
        .script_src([Source::Self_, Source::Scheme(Cow::Borrowed(""))])
        .img_src([Source::Host(Cow::Borrowed(""))])
        .build();
    match result {
        Err(CspError::ValidationError(message)) => {
            assert_eq!(message, "Directive 'script-src' contains empty scheme");
        }
        _ => panic!("an empty scheme is refused"),
    }

    let unchecked = CspPolicyBuilder::new()
        .img_src([Source::Host(Cow::Borrowed(""))])
        .build_unchecked();
    match unchecked.validate() {
        Err(CspError::ValidationError(message)) => {
            assert_eq!(message, "Directive 'img-src' contains empty host");
        }
        _ => panic!("an empty host is refused"),
    }
}

#[test]
fn clone_is_independent() {
    let mut original = CspPolicyBuilder::new()
        .default_src([Source::Self_])
        .build_unchecked();
    let mut copy = original.clone();
    original.set_report_only(true);
    original.add_directive(Directive::new("sandbox"));
    assert!(!copy.is_report_only());
    assert_eq!(header_text(&mut copy), "default-src 'self'");
    assert_eq!(header_text(&mut original), "default-src 'self'; sandbox");
}

#[test]
fn sandbox_and_trusted_types_directives() {
    let sandbox = Sandbox::new()
        .allow_scripts()
        .allow_forms()
        .allow_scripts()
        .add_value("allow-downloads");
    let mut policy = CspPolicyBuilder::new()
        .sandbox(sandbox)
        .require_trusted_types_for(["'script'"])
        .trusted_types(["one", "two", "one"])
        .build_unchecked();
    assert_eq!(
        header_text(&mut policy),
        "sandbox allow-scripts allow-forms allow-downloads; require-trusted-types-for 'script'; trusted-types one two"
    );
}

#[test]
fn test_csp_policy_builder() {
    let policy = CspPolicyBuilder::new()
        .default_src([Source::Self_])
        .script_src([Source::Self_, Source::UnsafeInline])
        .style_src([Source::Self_, Source::UnsafeInline])
        .build_unchecked();

    assert!(!policy.is_report_only());
}
