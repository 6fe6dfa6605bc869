use solana_service::codec::{is_valid_base58, is_valid_base64};
use solana_service::text::is_suspicious_text;

#[test]
fn empty_text_is_suspicious() {
    assert!(is_suspicious_text(""));
    assert!(is_suspicious_text("   "));
    assert!(is_suspicious_text(" \t\n "));
}

#[test]
fn long_text_is_suspicious() {
    let just_fits = "a".repeat(1000);
    assert!(!is_suspicious_text(&just_fits));
    let too_long = "a".repeat(1001);
    assert!(is_suspicious_text(&too_long));
}

#[test]
fn trimming_happens_before_the_length_check() {
    // 1000 payload bytes plus surrounding whitespace still passes.
    let padded = format!("  {}  ", "b".repeat(1000));
    assert!(!is_suspicious_text(&padded));
}

#[test]
fn control_characters_are_suspicious() {
    assert!(is_suspicious_text("hello\u{0}world"));
    assert!(is_suspicious_text("hello\u{7}world"));
    assert!(!is_suspicious_text("hello\nworld"));
    assert!(!is_suspicious_text("tab\there"));
    assert!(!is_suspicious_text("cr\rhere"));
}

#[test]
fn injection_patterns_are_suspicious() {
    assert!(is_suspicious_text("\"; drop table users"));
    assert!(is_suspicious_text("<script>alert(1)</script>"));
    assert!(is_suspicious_text("../etc/passwd"));
    assert!(is_suspicious_text("click javascript:void(0)"));
    assert!(is_suspicious_text("x onload=evil()"));
}

#[test]
fn patterns_match_after_lowercasing() {
    assert!(is_suspicious_text("DROP TABLE users"));
    assert!(is_suspicious_text("<SCRIPT>"));
    assert!(is_suspicious_text("JavaScript:run()"));
}

#[test]
fn ordinary_text_is_not_suspicious() {
    assert!(!is_suspicious_text("Hello, world!"));
    assert!(!is_suspicious_text("Transfer 5 tokens to Alice"));
    assert!(!is_suspicious_text("data without the colon"));
}

#[test]
fn base58_validation() {
    assert!(is_valid_base58("abc"));
    assert!(is_valid_base58("11111111111111111111111111111111"));
    assert!(!is_valid_base58(""));
    assert!(!is_valid_base58("   "));
    assert!(!is_valid_base58("0"));
    assert!(!is_valid_base58("I"));
    assert!(!is_valid_base58("O0l"));
    assert!(!is_valid_base58("hello world"));
}

#[test]
fn base64_validation() {
    assert!(is_valid_base64("aGVsbG8="));
    assert!(is_valid_base64("AAAA"));
    assert!(!is_valid_base64(""));
    assert!(!is_valid_base64("   "));
    assert!(!is_valid_base64("a"));
    assert!(!is_valid_base64("####"));
}
