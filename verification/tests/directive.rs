use actix_web_csp::builders::DefaultSrc;
use actix_web_csp::builders::FrameAncestors;
use actix_web_csp::builders::PrefetchSrc;
use actix_web_csp::CspError;
use actix_web_csp::Directive;
use actix_web_csp::DirectiveSpec;
use actix_web_csp::HashAlgorithm;
use actix_web_csp::Sandbox;
use actix_web_csp::Source;
use std::borrow::Cow;

fn host(text: &'static str) -> Source {
    Source::Host(Cow::Borrowed(text))
}

#[test]
fn none_collapse_both_ways() {
    let mut first = Directive::new("script-src");
    first.add_source(Source::Self_).add_source(Source::None_);
    assert_eq!(first.sources(), &[Source::None_]);

    let mut second = Directive::new("script-src");
    second.add_source(Source::None_).add_source(host("x"));
    assert_eq!(second.sources(), &[host("x")]);
}

#[test]
fn duplicates_are_left_out_and_order_is_kept() {
    let mut directive = Directive::new("img-src");
    directive.add_sources([
        Source::Self_,
        host("a.example"),
        Source::Self_,
        host("b.example"),
        host("a.example"),
    ]);
    assert_eq!(
        directive.sources(),
        &[Source::Self_, host("a.example"), host("b.example")]
    );
    assert_eq!(directive.to_string(), "img-src 'self' a.example b.example");
}

#[test]
fn fallback_sources_follow_the_sources() {
    let mut directive = Directive::new("script-src");
    assert!(directive.fallback_sources().is_none());
    directive.add_source(Source::StrictDynamic);
    directive.add_fallback_sources([Source::Self_, Source::None_]);
    directive.add_fallback_sources([Source::Self_]);
    assert_eq!(
        directive.fallback_sources().unwrap(),
        &[Source::Self_, Source::None_, Source::Self_]
    );
    assert_eq!(
        directive.to_string(),
        "script-src 'strict-dynamic' 'self' 'none' 'self'"
    );

    let mut bare = Directive::new("x");
    bare.add_fallback_sources([Source::Self_]);
    assert_eq!(bare.to_string(), "x 'self'");
    assert_eq!(bare.estimated_size(), 8);
}

#[test]
fn directive_without_sources_is_its_name() {
    let directive = Directive::new("upgrade-insecure-requests");
    assert_eq!(directive.name(), "upgrade-insecure-requests");
    assert_eq!(directive.to_string(), "upgrade-insecure-requests");
    assert_eq!(directive.estimated_size(), 25);
    assert!(directive.validate().is_ok());
    assert!(!directive.contains_nonce());
    assert!(!directive.contains_hash());
    assert_eq!(Directive::default().name(), "");
}

#[test]
fn estimated_size_is_the_written_length() {
    let mut directive = Directive::new("script-src");
    directive.add_sources([
        Source::Self_,
        Source::Nonce(Cow::Borrowed("abc")),
        Source::Hash {
            algorithm: HashAlgorithm::Sha256,
            value: Cow::Borrowed("xyz"),
        },
    ]);
    directive.add_fallback_sources([Source::Scheme(Cow::Borrowed("https"))]);
    assert_eq!(
        directive.to_string(),
        "script-src 'self' 'nonce-abc' 'sha256-xyz' https:"
    );
    assert_eq!(directive.estimated_size(), directive.to_string().len());
    assert!(directive.contains_nonce());
    assert!(directive.contains_hash());
}

fn complaint(directive: &Directive) -> String {
    match directive.validate() {
        Err(CspError::ValidationError(message)) => message,
        _ => panic!("the directive is refused with a validation error"),
    }
}

#[test]
fn validation_names_the_first_empty_source() {
    let mut empty_host = Directive::new("img-src");
    empty_host.add_sources([Source::Self_, host(""), Source::Nonce(Cow::Borrowed(""))]);
    assert_eq!(complaint(&empty_host), "Directive 'img-src' contains empty host");

    let mut empty_scheme = Directive::new("img-src");
    empty_scheme.add_source(Source::Scheme(Cow::Borrowed("")));
    assert_eq!(
        complaint(&empty_scheme),
        "Directive 'img-src' contains empty scheme"
    );

    let mut empty_nonce = Directive::new("script-src");
    empty_nonce.add_sources([Source::Nonce(Cow::Borrowed("")), host("")]);
    assert_eq!(
        complaint(&empty_nonce),
        "Directive 'script-src' contains empty nonce"
    );

    let mut empty_hash = Directive::new("style-src");
    empty_hash.add_source(Source::Hash {
        algorithm: HashAlgorithm::Sha512,
        value: Cow::Borrowed(""),
    });
    assert_eq!(
        complaint(&empty_hash),
        "Directive 'style-src' contains empty hash"
    );

    let mut fine = Directive::new("style-src");
    fine.add_sources([Source::Self_, host("a")]);
    assert!(fine.validate().is_ok());
}

#[test]
fn directive_clone_is_a_copy() {
    let mut directive = Directive::new("font-src");
    directive.add_sources([Source::Self_, host("fonts.example")]);
    directive.add_fallback_sources([Source::None_]);
    let copy = directive.clone();
    directive.add_source(Source::None_);
    assert_eq!(copy.to_string(), "font-src 'self' fonts.example 'none'");
    assert_eq!(directive.to_string(), "font-src 'none' 'none'");
}

#[test]
fn directives_are_equal_when_all_their_parts_are() {
    let build = |name: &str, with_fallback: bool| {
        let mut directive = Directive::new(name);
        directive.add_sources([Source::Self_, host("a.example")]);
        if with_fallback {
            directive.add_fallback_sources([Source::None_]);
        }
        directive
    };
    assert_eq!(build("img-src", true), build("img-src", true));
    assert_ne!(build("img-src", true), build("img-src", false));
    assert_ne!(build("img-src", true), build("font-src", true));
    let mut longer = build("img-src", true);
    longer.add_source(host("b.example"));
    assert_ne!(longer, build("img-src", true));
    assert_eq!(build("img-src", false).clone(), build("img-src", false));
}

#[test]
fn directive_builders_carry_their_names() {
    assert_eq!(DefaultSrc::NAME, "default-src");
    assert_eq!(DefaultSrc::new().build().name(), "default-src");
    assert_eq!(
        FrameAncestors::new()
            .add_source(Source::None_)
            .build()
            .to_string(),
        "frame-ancestors 'none'"
    );
    assert_eq!(
        PrefetchSrc::new()
            .add_sources([Source::Self_, Source::Self_])
            .fallback_sources([host("cdn.example")])
            .build()
            .to_string(),
        "prefetch-src 'self' cdn.example"
    );
}

#[test]
fn sandbox_keeps_each_flag_once() {
    let directive = Sandbox::new()
        .allow_forms()
        .allow_same_origin()
        .allow_scripts()
        .allow_popups()
        .allow_modals()
        .allow_orientation_lock()
        .allow_pointer_lock()
        .allow_presentation()
        .allow_popups_to_escape_sandbox()
        .allow_top_navigation()
        .allow_forms()
        .add_value("allow-same-origin")
        .build();
    assert_eq!(
        directive.to_string(),
        "sandbox allow-forms allow-same-origin allow-scripts allow-popups allow-modals allow-orientation-lock allow-pointer-lock allow-presentation allow-popups-to-escape-sandbox allow-top-navigation"
    );
    assert_eq!(Sandbox::new().build().to_string(), "sandbox");
    assert_eq!(Sandbox::default().clone().build().to_string(), "sandbox");
}
