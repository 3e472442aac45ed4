use actix_web_csp::verify::match_host;
use actix_web_csp::CspError;
use actix_web_csp::CspPolicy;
use actix_web_csp::CspPolicyBuilder;
use actix_web_csp::Directive;
use actix_web_csp::HashAlgorithm;
use actix_web_csp::HashGenerator;
use actix_web_csp::PolicyVerifier;
use actix_web_csp::Source;
use std::borrow::Cow;

#[test]
fn test_policy_verifier_creation() {
    let policy = CspPolicyBuilder::new()
        .default_src([Source::Self_])
        .build_unchecked();

    let verifier = PolicyVerifier::new(policy);
    assert!(verifier.policy().get_directive("default-src").is_some());
}

#[test]
fn test_verify_uri_allowed() {
    let policy = CspPolicyBuilder::new()
        .default_src([Source::Self_])
        .script_src([
            Source::Self_,
            Source::Host(Cow::Borrowed("example.com")),
            Source::Host(Cow::Borrowed("*.trusted.com")),
        ])
        .build_unchecked();

    let mut verifier = PolicyVerifier::new(policy);

    assert!(verifier
        .verify_uri("https://example.com/script.js", "script-src")
        .unwrap());
    assert!(verifier
        .verify_uri("https://sub.trusted.com/script.js", "script-src")
        .unwrap());
    assert!(!verifier
        .verify_uri("https://evil.com/script.js", "script-src")
        .unwrap());
}

#[test]
fn test_verify_uri_fallback_to_default_src() {
    let policy = CspPolicyBuilder::new()
        .default_src([Source::Self_, Source::Host(Cow::Borrowed("example.com"))])
        .build_unchecked();

    let mut verifier = PolicyVerifier::new(policy);

    assert!(verifier
        .verify_uri("https://example.com/script.js", "script-src")
        .unwrap());
    assert!(!verifier
        .verify_uri("https://evil.com/script.js", "script-src")
        .unwrap());
}

#[test]
fn test_verify_uri_none_source() {
    let policy = CspPolicyBuilder::new()
        .default_src([Source::Self_])
        .script_src([Source::None_])
        .build_unchecked();

    let mut verifier = PolicyVerifier::new(policy);

    assert!(!verifier
        .verify_uri("https://example.com/script.js", "script-src")
        .unwrap());
    assert!(!verifier
        .verify_uri("https://self.com/script.js", "script-src")
        .unwrap());
}

#[test]
fn test_verify_hash() {
    let script = b"console.log('test');";
    let hash = HashGenerator::generate(HashAlgorithm::Sha256, script);

    let policy = CspPolicyBuilder::new()
        .script_src([Source::Hash {
            algorithm: HashAlgorithm::Sha256,
            value: Cow::Owned(hash),
        }])
        .build_unchecked();

    let verifier = PolicyVerifier::new(policy);

    assert!(verifier.verify_hash(script, "script-src").unwrap());
    assert!(!verifier
        .verify_hash(b"console.log('different');", "script-src")
        .unwrap());
}

#[test]
fn test_verify_nonce() {
    let nonce = "random123";

    let policy = CspPolicyBuilder::new()
        .script_src([Source::Nonce(Cow::Borrowed(nonce))])
        .build_unchecked();

    let verifier = PolicyVerifier::new(policy);

    assert!(verifier.verify_nonce(nonce, "script-src").unwrap());
    assert!(!verifier.verify_nonce("different456", "script-src").unwrap());
}

#[test]
fn test_verify_inline_script() {
    let script = b"console.log('test');";
    let nonce = "random123";

    let policy = CspPolicyBuilder::new()
        .script_src([
            Source::Nonce(Cow::Borrowed(nonce)),
            Source::Hash {
                algorithm: HashAlgorithm::Sha256,
                value: Cow::Owned(HashGenerator::generate(HashAlgorithm::Sha256, script)),
            },
        ])
        .build_unchecked();

    let verifier = PolicyVerifier::new(policy);

    assert!(verifier.verify_inline_script(script, Some(nonce)).unwrap());

    assert!(verifier.verify_inline_script(script, None).unwrap());

    assert!(verifier
        .verify_inline_script(b"console.log('different');", Some(nonce))
        .unwrap());

    assert!(verifier
        .verify_inline_script(script, Some("wrong456"))
        .unwrap());

    assert!(!verifier
        .verify_inline_script(b"console.log('different');", None)
        .unwrap());

    assert!(!verifier
        .verify_inline_script(b"console.log('different');", Some("wrong456"))
        .unwrap());
}

#[test]
fn test_verify_inline_style() {
    let style = b"body { color: red; }";
    let nonce = "random123";

    let policy = CspPolicyBuilder::new()
        .style_src([Source::Nonce(Cow::Borrowed(nonce)), Source::UnsafeInline])
        .build_unchecked();

    let verifier = PolicyVerifier::new(policy);

    assert!(verifier.verify_inline_style(style, Some(nonce)).unwrap());

    assert!(verifier.verify_inline_style(style, None).unwrap());

    assert!(verifier
        .verify_inline_style(style, Some("wrong456"))
        .unwrap());
}

#[test]
fn test_clear_caches() {
    let policy = CspPolicyBuilder::new()
        .default_src([Source::Self_])
        .build_unchecked();

    let mut verifier = PolicyVerifier::new(policy);

    let _ = verifier.verify_uri("https://example.com/script.js", "script-src");

    verifier.clear_caches();

    assert!(!verifier
        .verify_uri("https://evil.com/script.js", "script-src")
        .unwrap());
}

#[test]
fn wildcard_host_matches_one_label_only() {
    assert!(match_host("*.example.com", "cdn.example.com"));
    assert!(match_host("*.example.com", "a.example.com"));
    assert!(!match_host("*.example.com", "example.com"));
    assert!(!match_host("*.example.com", "a.b.example.com"));
    assert!(!match_host("*.example.com", "cdnexample.com"));
    assert!(!match_host("*.example.com", "cdn.example.org"));
    assert!(match_host("example.com", "example.com"));
    assert!(!match_host("example.com", "www.example.com"));
    assert!(match_host("*.example.com", "*.example.com"));
    assert!(!match_host("*", "example.com"));
    assert!(!match_host("", "example.com"));

    let policy = CspPolicyBuilder::new()
        .img_src([Source::Host(Cow::Borrowed("*.example.com"))])
        .build_unchecked();
    let mut verifier = PolicyVerifier::new(policy);
    assert!(verifier
        .verify_uri("https://cdn.example.com/a.png", "img-src")
        .unwrap());
    assert!(verifier
        .verify_uri("https://a.example.com/a.png", "img-src")
        .unwrap());
    assert!(!verifier
        .verify_uri("https://example.com/a.png", "img-src")
        .unwrap());
    assert!(!verifier
        .verify_uri("https://a.b.example.com/a.png", "img-src")
        .unwrap());
}

fn with_origin(policy: CspPolicy, origin: &'static str) -> CspPolicy {
    let mut policy = policy;
    let mut directive = Directive::new("origin");
    directive.add_source(Source::Host(Cow::Borrowed(origin)));
    policy.add_directive(directive);
    policy
}

#[test]
fn fallback_to_default_src_for_same_origin() {
    let policy = with_origin(
        CspPolicyBuilder::new()
            .default_src([Source::Self_])
            .build_unchecked(),
        "app.example.com",
    );
    let mut verifier = PolicyVerifier::new(policy);
    assert!(verifier.policy().get_directive("script-src").is_none());
    assert!(verifier
        .verify_uri("https://app.example.com/main.js", "script-src")
        .unwrap());
    assert!(!verifier
        .verify_uri("https://other.example.com/main.js", "script-src")
        .unwrap());
    assert!(verifier.policy().get_directive("script-src").is_none());
}

#[test]
fn self_matches_nothing_without_an_origin() {
    let policy = CspPolicyBuilder::new()
        .default_src([Source::Self_])
        .build_unchecked();
    let mut verifier = PolicyVerifier::new(policy);
    assert!(!verifier
        .verify_uri("https://app.example.com/main.js", "script-src")
        .unwrap());
}

#[test]
fn same_origin_by_scheme_host_and_port() {
    let policy = with_origin(
        CspPolicyBuilder::new()
            .default_src([Source::Self_])
            .build_unchecked(),
        "App.Example.com:8443",
    );
    let mut verifier = PolicyVerifier::new(policy);
    assert!(verifier
        .verify_uri("https://app.example.com:8443/x", "img-src")
        .unwrap());
    assert!(!verifier
        .verify_uri("https://app.example.com/x", "img-src")
        .unwrap());
    assert!(!verifier
        .verify_uri("http://app.example.com:8443/x", "img-src")
        .unwrap());
}

#[test]
fn end_to_end_uri_verdicts() {
    let allows = CspPolicyBuilder::new()
        .script_src([Source::Self_, Source::Host(Cow::Borrowed("cdn.example.com"))])
        .build_unchecked();
    let mut verifier = PolicyVerifier::new(allows);
    assert!(verifier
        .verify_uri("https://cdn.example.com/x.js", "script-src")
        .unwrap());

    let denies = CspPolicyBuilder::new()
        .script_src([Source::Self_])
        .build_unchecked();
    let mut verifier = PolicyVerifier::new(denies);
    assert!(!verifier
        .verify_uri("https://cdn.example.com/x.js", "script-src")
        .unwrap());
}

#[test]
fn no_directive_at_all_allows() {
    let mut verifier = PolicyVerifier::new(CspPolicy::new());
    assert!(verifier
        .verify_uri("https://anywhere.example/x.js", "script-src")
        .unwrap());
    assert!(verifier.verify_uri("not a uri", "default-src").unwrap());
    assert!(verifier.verify_inline_script(b"x", None).unwrap());
    assert!(verifier.verify_inline_style(b"x", None).unwrap());
    assert!(!verifier.verify_hash(b"x", "script-src").unwrap());
    assert!(!verifier.verify_nonce("n", "script-src").unwrap());
}

#[test]
fn unparseable_uri_is_an_error_each_time() {
    let policy = CspPolicyBuilder::new()
        .default_src([Source::Scheme(Cow::Borrowed("https"))])
        .build_unchecked();
    let mut verifier = PolicyVerifier::new(policy);
    for _ in 0..2 {
        match verifier.verify_uri("no scheme here", "img-src") {
            Err(CspError::VerificationError(message)) => {
                assert_eq!(message, "Invalid URI: no scheme here");
            }
            _ => panic!("a text that is no URI is an error"),
        }
    }
    assert!(verifier
        .verify_uri("https://example.com/", "img-src")
        .unwrap());
}

#[test]
fn scheme_sources_match_the_scheme() {
    let policy = CspPolicyBuilder::new()
        .img_src([
            Source::Scheme(Cow::Borrowed("data")),
            Source::Scheme(Cow::Borrowed("https")),
        ])
        .build_unchecked();
    let mut verifier = PolicyVerifier::new(policy);
    assert!(verifier
        .verify_uri("data:image/png;base64,AAAA", "img-src")
        .unwrap());
    assert!(verifier
        .verify_uri("https://example.com/a.png", "img-src")
        .unwrap());
    assert!(!verifier
        .verify_uri("http://example.com/a.png", "img-src")
        .unwrap());
}

#[test]
fn remembered_verdicts_answer_their_own_question() {
    let policy = CspPolicyBuilder::new()
        .script_src([Source::Host(Cow::Borrowed("a.example"))])
        .img_src([Source::Host(Cow::Borrowed("b.example"))])
        .build_unchecked();
    let mut verifier = PolicyVerifier::new(policy);
    for _ in 0..3 {
        assert!(verifier.verify_uri("https://a.example/x", "script-src").unwrap());
        assert!(!verifier.verify_uri("https://a.example/x", "img-src").unwrap());
        assert!(!verifier.verify_uri("https://b.example/x", "script-src").unwrap());
        assert!(verifier.verify_uri("https://b.example/x", "img-src").unwrap());
    }
}

#[test]
fn changing_the_policy_changes_the_verdicts() {
    let policy = CspPolicyBuilder::new()
        .script_src([Source::Host(Cow::Borrowed("a.example"))])
        .build_unchecked();
    let mut verifier = PolicyVerifier::new(policy);
    assert!(verifier.verify_uri("https://a.example/x", "script-src").unwrap());
    let mut replaced = Directive::new("script-src");
    replaced.add_source(Source::None_);
    verifier.policy_mut().add_directive(replaced);
    assert!(!verifier.verify_uri("https://a.example/x", "script-src").unwrap());
}

#[test]
fn none_denies_inline_content_before_anything_else() {
    let mut directive = Directive::new("script-src");
    directive.add_source(Source::None_);
    let mut policy = CspPolicy::new();
    policy.add_directive(directive);
    let verifier = PolicyVerifier::new(policy);
    assert!(!verifier.verify_inline_script(b"x", Some("n")).unwrap());
    assert!(!verifier.verify_hash(b"x", "script-src").unwrap());
    assert!(!verifier.verify_nonce("n", "script-src").unwrap());
}

#[test]
fn inline_checks_fall_back_to_default_src() {
    let content = b"body{}";
    let policy = CspPolicyBuilder::new()
        .default_src([HashGenerator::generate_source(
            HashAlgorithm::Sha384,
            content,
        )])
        .build_unchecked();
    let verifier = PolicyVerifier::new(policy);
    assert!(verifier.verify_inline_style(content, None).unwrap());
    assert!(verifier.verify_inline_script(content, None).unwrap());
    assert!(!verifier.verify_inline_style(b"other{}", None).unwrap());
    assert!(verifier.verify_hash(content, "style-src").unwrap());
}
