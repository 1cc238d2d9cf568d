use nightfall::error::NightfallError;
use nightfall::text::decimal_string;
use nightfall::text::is_text;
use nightfall::text::joined;

#[test]
fn decimal_of_small_and_large_numbers() {
    assert_eq!(decimal_string(0), "0");
    assert_eq!(decimal_string(7), "7");
    assert_eq!(decimal_string(9), "9");
    assert_eq!(decimal_string(10), "10");
    assert_eq!(decimal_string(120_000), "120000");
    assert_eq!(decimal_string(1_234_567_890), "1234567890");
    assert_eq!(decimal_string(18_446_744_073_709_551_615), "18446744073709551615");
}

#[test]
fn decimal_agrees_with_the_standard_rendering() {
    let mut n: u64 = 1;
    for _ in 0..64 {
        assert_eq!(decimal_string(n), n.to_string());
        assert_eq!(decimal_string(n - 1), (n - 1).to_string());
        n = n.wrapping_mul(2);
    }
    for n in 0..2_000u64 {
        assert_eq!(decimal_string(n), n.to_string());
    }
}

#[test]
fn joined_puts_the_tail_after_the_head() {
    assert_eq!(joined("0:", "17"), "0:17");
    assert_eq!(joined("", "x"), "x");
    assert_eq!(joined("x", ""), "x");
}

#[test]
fn is_text_compares_whole_texts() {
    assert!(is_text(&"aac".to_string(), "aac"));
    assert!(!is_text(&"aac".to_string(), "aa"));
    assert!(!is_text(&"aac".to_string(), "aacx"));
    assert!(!is_text(&"".to_string(), "aac"));
}

#[test]
fn error_message_is_the_reason() {
    let e = NightfallError::ProfileNotSupported("no".to_string());
    assert_eq!(e.message(), "no");
    assert_eq!(e.clone(), e);
}
