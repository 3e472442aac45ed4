use actix_web_csp::utils::decimal_string;
use actix_web_csp::utils::fast_string_compare;
use actix_web_csp::utils::intern_string;
use actix_web_csp::utils::AtomicCounter;
use actix_web_csp::utils::CachedValue;
use std::time::Duration;

#[test]
fn test_intern_string_common_values() {
    assert!(intern_string("'self'").is_some());
    assert!(intern_string("'none'").is_some());
    assert!(intern_string("'unsafe-inline'").is_some());
    assert!(intern_string("'unsafe-eval'").is_some());
    assert!(intern_string("'strict-dynamic'").is_some());

    assert!(intern_string("default-src").is_some());
    assert!(intern_string("script-src").is_some());
    assert!(intern_string("style-src").is_some());
    assert!(intern_string("img-src").is_some());

    assert!(intern_string("https:").is_some());
    assert!(intern_string("http:").is_some());
    assert!(intern_string("data:").is_some());
    assert!(intern_string("blob:").is_some());
}

#[test]
fn test_intern_string_uncommon_values() {
    assert!(intern_string("custom-value").is_none());
    assert!(intern_string("example.com").is_none());
    assert!(intern_string("random-string").is_none());
}

#[test]
fn test_intern_string_returns_same_reference() {
    let interned1 = intern_string("'self'").unwrap();
    let interned2 = intern_string("'self'").unwrap();

    assert_eq!(interned1.as_ptr(), interned2.as_ptr());
}

#[test]
fn test_intern_string_case_sensitive() {
    assert!(intern_string("'SELF'").is_none());
    assert!(intern_string("'Self'").is_none());
    assert!(intern_string("'self'").is_some());
}

#[test]
fn test_cached_value_creation() {
    let value = "test_value";
    let ttl = Duration::from_secs(60);
    let cached = CachedValue::new(value, ttl);

    assert_eq!(cached.value(), &value);
    assert!(cached.is_valid());
}

#[test]
fn test_cached_value_clone() {
    let value = "test_value";
    let ttl = Duration::from_secs(60);
    let cached1 = CachedValue::new(value, ttl);
    let cached2 = cached1.clone();

    assert_eq!(cached1.value(), cached2.value());
    assert!(cached1.is_valid());
    assert!(cached2.is_valid());
}

#[test]
fn test_cached_value_different_types() {
    let string_cached = CachedValue::new("string".to_string(), Duration::from_secs(60));
    let int_cached = CachedValue::new(42i32, Duration::from_secs(60));
    let vec_cached = CachedValue::new(vec![1, 2, 3], Duration::from_secs(60));

    assert_eq!(string_cached.value(), &"string".to_string());
    assert_eq!(int_cached.value(), &42i32);
    assert_eq!(vec_cached.value(), &vec![1, 2, 3]);
}

#[test]
fn test_intern_string_all_common_strings() {
    let common_strings = [
        "'self'",
        "'none'",
        "'unsafe-inline'",
        "'unsafe-eval'",
        "'strict-dynamic'",
        "'report-sample'",
        "'wasm-unsafe-eval'",
        "'unsafe-hashes'",
        "https:",
        "http:",
        "data:",
        "blob:",
        "filesystem:",
        "ws:",
        "wss:",
        "'unsafe-allow-redirects'",
        "default-src",
        "script-src",
        "style-src",
        "img-src",
        "connect-src",
        "font-src",
        "object-src",
        "media-src",
        "frame-src",
        "worker-src",
        "manifest-src",
        "child-src",
        "frame-ancestors",
        "base-uri",
        "form-action",
        "sandbox",
    ];

    for common_str in common_strings.iter() {
        assert!(
            intern_string(common_str).is_some(),
            "String '{}' should be interned",
            common_str
        );
    }
}

#[test]
fn test_cached_value_zero_ttl() {
    let value = "test";
    let cached = CachedValue::new(value, Duration::from_secs(0));

    assert!(!cached.is_valid());
}

#[test]
fn test_intern_string_empty_string() {
    assert!(intern_string("").is_none());
}

#[test]
fn test_intern_string_whitespace() {
    assert!(intern_string(" ").is_none());
    assert!(intern_string("\t").is_none());
    assert!(intern_string("\n").is_none());
    assert!(intern_string("  ").is_none());
}

#[test]
fn test_intern_string_partial_matches() {
    assert!(intern_string("'sel").is_none());
    assert!(intern_string("self'").is_none());
    assert!(intern_string("default").is_none());
    assert!(intern_string("src").is_none());
}

#[test]
fn interned_text_is_the_text_asked_for() {
    let owned = String::from("frame-ancestors");
    assert_eq!(intern_string(&owned), Some("frame-ancestors"));
    assert_eq!(intern_string("sandbox"), Some("sandbox"));
}

#[test]
fn string_comparison_is_equality() {
    assert!(fast_string_compare("", ""));
    assert!(fast_string_compare("a", "a"));
    assert!(!fast_string_compare("a", "b"));
    assert!(!fast_string_compare("a", "ab"));
    assert!(!fast_string_compare("ab", "a"));
    let long_a = "x".repeat(100);
    let mut long_b = "x".repeat(99);
    assert!(!fast_string_compare(&long_a, &long_b));
    long_b.push('x');
    assert!(fast_string_compare(&long_a, &long_b));
    long_b.replace_range(40..41, "y");
    assert!(!fast_string_compare(&long_a, &long_b));
    assert!(fast_string_compare("b\u{fc}cher", "b\u{fc}cher"));
}

#[test]
fn decimal_string_writes_every_digit() {
    assert_eq!(decimal_string(0), "0");
    assert_eq!(decimal_string(7), "7");
    assert_eq!(decimal_string(10), "10");
    assert_eq!(decimal_string(1234567890), "1234567890");
    assert_eq!(decimal_string(u64::MAX), "18446744073709551615");
}

#[test]
fn atomic_counter_holds_its_count() {
    assert_eq!(AtomicCounter::new(5).get(), 5);
    assert_eq!(AtomicCounter::default().get(), 0);
}

#[test]
fn cached_value_is_fresh_while_less_time_has_passed() {
    let cached = CachedValue::new(1u8, Duration::from_secs(60));
    assert!(cached.is_valid_after(Duration::from_secs(0)));
    assert!(cached.is_valid_after(Duration::from_nanos(59_999_999_999)));
    assert!(!cached.is_valid_after(Duration::from_secs(60)));
    assert!(!cached.is_valid_after(Duration::from_secs(61)));
    let never = CachedValue::new(1u8, Duration::from_secs(0));
    assert!(!never.is_valid_after(Duration::from_secs(0)));
}
