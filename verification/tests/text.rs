use actix_web_csp::text::CompactString;
use actix_web_csp::text::FastStringBuilder;

#[test]
fn builder_assembles_in_order() {
    let mut builder = FastStringBuilder::with_capacity(8);
    assert!(builder.is_empty());
    builder.push_str("default-src");
    builder.push_char(' ');
    builder.push_static("'self'");
    builder.push_bytes(b"; ");
    builder.push_char('\u{fc}');
    assert_eq!(builder.as_bytes(), "default-src 'self'; \u{fc}".as_bytes());
    assert_eq!(builder.len(), 22);
    builder.reserve(100);
    assert_eq!(builder.len(), 22);
    let parts: [&[u8]; 3] = [b"ab", b"", b"cde"];
    builder.fast_bulk_copy(&parts);
    assert_eq!(builder.len(), 27);
    let finished = builder.finish();
    assert_eq!(&finished[..], "default-src 'self'; \u{fc}abcde".as_bytes());

    let mut cleared = FastStringBuilder::default();
    cleared.push_str("x");
    cleared.clear();
    assert!(cleared.is_empty());
    assert_eq!(cleared.len(), 0);
}

#[test]
fn compact_string_holds_its_text() {
    let mut text = CompactString::new();
    assert!(text.is_empty());
    assert_eq!(text.as_str(), "");
    text.push_str("script");
    text.push_str("-src");
    assert_eq!(text.as_str(), "script-src");
    assert_eq!(text.len(), 10);
    assert_eq!(text.to_string(), "script-src");
    assert_eq!(text, CompactString::from_str("script-src"));
    assert!(text != CompactString::from_static("style-src"));
    let copy = text.clone();
    text.push_str(" b\u{fc}cher.example and a tail that is longer than the inline room");
    assert_eq!(copy.as_str(), "script-src");
    assert_eq!(
        text.as_str(),
        "script-src b\u{fc}cher.example and a tail that is longer than the inline room"
    );
    assert!(text.capacity() >= text.len());
    assert!(text.is_inline());
    assert!(!copy.is_inline());
    assert_eq!(copy.capacity(), 24);
    assert!(CompactString::new().capacity() >= 24);
    text.clear();
    assert!(text.is_empty());
    assert_eq!(CompactString::default().len(), 0);
}
