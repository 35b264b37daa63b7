use sidecar_supervisor::text::{
    ascii_lowercase, ascii_uppercase, char_is_space, sanitize_short, trim_str, u64_to_dec,
};

#[test]
fn trim_removes_leading_and_trailing_space() {
    assert_eq!(trim_str("  hello world \t\n"), "hello world");
    assert_eq!(trim_str("no-edges"), "no-edges");
    assert_eq!(trim_str("   \t  "), "");
    assert_eq!(trim_str(""), "");
    assert_eq!(trim_str("\u{a0}wide\u{2003}space\u{3000}"), "wide\u{2003}space");
}

#[test]
fn whitespace_classification_matches_unicode() {
    for c in [' ', '\t', '\n', '\r', '\u{b}', '\u{85}', '\u{a0}', '\u{2028}', '\u{3000}'] {
        assert!(char_is_space(c));
        assert!(c.is_whitespace());
    }
    for c in ['a', '0', '-', '_', '\u{200B}'] {
        assert!(!char_is_space(c));
        assert!(!c.is_whitespace());
    }
}

#[test]
fn case_mapping_touches_ascii_letters_only() {
    assert_eq!(ascii_uppercase("running mixed-Case 123"), "RUNNING MIXED-CASE 123");
    assert_eq!(ascii_lowercase("PAPER Live x_9"), "paper live x_9");
    assert_eq!(ascii_uppercase(""), "");
    assert_eq!(ascii_lowercase("äß"), "äß");
}

#[test]
fn decimal_rendering_is_exact() {
    assert_eq!(u64_to_dec(0), "0");
    assert_eq!(u64_to_dec(7), "7");
    assert_eq!(u64_to_dec(42), "42");
    assert_eq!(u64_to_dec(1000000), "1000000");
    assert_eq!(u64_to_dec(u64::MAX), "18446744073709551615");
}

#[test]
fn sanitize_trims_and_clips() {
    assert_eq!(sanitize_short(Some("  running  ".to_string()), "unknown", 24), "running");
    assert_eq!(sanitize_short(Some("abcdefghij".to_string()), "x", 5), "abcde");
}

#[test]
fn sanitize_falls_back_when_empty_or_absent() {
    assert_eq!(sanitize_short(None, "unknown", 24), "unknown");
    assert_eq!(sanitize_short(Some("   ".to_string()), "N/A", 28), "N/A");
    assert_eq!(sanitize_short(Some(String::new()), "-", 24), "-");
}

#[test]
fn sanitize_does_not_clip_the_fallback() {
    // The fallback is returned as given, even past the length limit.
    assert_eq!(sanitize_short(Some("  ".to_string()), "a rather long fallback", 4), "a rather long fallback");
    // A trimmed fallback that stands in for an absent value is clipped.
    assert_eq!(sanitize_short(None, "abcdefgh", 4), "abcd");
}
