use sms_terminal::compose::get_sms_count;
use sms_terminal::textutil::{all_blank, chars_to_string, sanitize_text, string_to_chars, u64_to_string};

#[test]
fn sanitize_strips_ansi_sequences() {
    let input = "\u{1b}[31mred\u{1b}[0m text";
    assert_eq!(sanitize_text(input), "red text");
}

#[test]
fn sanitize_removes_control_characters() {
    assert_eq!(sanitize_text("a\nb\tc\u{7}d"), "abcd");
}

#[test]
fn sanitize_removes_format_characters() {
    // a soft hyphen is a Format character, not a control character
    assert_eq!(sanitize_text("a\u{ad}b"), "ab");
}

#[test]
fn sanitize_keeps_plain_text() {
    assert_eq!(sanitize_text("hello, \u{4f60}\u{597d}!"), "hello, \u{4f60}\u{597d}!");
}

#[test]
fn decimal_rendering_exact() {
    assert_eq!(u64_to_string(0), "0");
    assert_eq!(u64_to_string(7), "7");
    assert_eq!(u64_to_string(42), "42");
    assert_eq!(u64_to_string(1234567890), "1234567890");
    assert_eq!(u64_to_string(u64::MAX), "18446744073709551615");
}

#[test]
fn chars_roundtrip_preserves_text() {
    let s = "round \u{4f60} trip";
    let chars = string_to_chars(s);
    assert_eq!(chars_to_string(&chars), s);
}

#[test]
fn blank_detection() {
    assert!(all_blank(&string_to_chars("")));
    assert!(all_blank(&string_to_chars(" \t\u{a0}")));
    assert!(!all_blank(&string_to_chars(" x ")));
}

#[test]
fn sms_part_count_formula() {
    assert_eq!(get_sms_count(0), 0);
    assert_eq!(get_sms_count(1), 1);
    assert_eq!(get_sms_count(160), 1);
    assert_eq!(get_sms_count(161), 2);
    assert_eq!(get_sms_count(306), 2);
    assert_eq!(get_sms_count(307), 3);
    assert_eq!(get_sms_count(460), 4);
}
