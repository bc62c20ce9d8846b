use server::decimal::{parse_i64, parse_unsigned};
use server::text::{is_blank_str, normalize_optional_text, trim_str};

#[test]
fn trim_removes_unicode_whitespace_on_both_sides() {
    assert_eq!(trim_str("  \t mission \n"), "mission");
    assert_eq!(trim_str("\u{3000}a b\u{A0}"), "a b");
    assert_eq!(trim_str("   "), "");
    assert_eq!(trim_str(""), "");
    assert_eq!(trim_str("x"), "x");
}

#[test]
fn trim_twice_equals_trim_once() {
    let s = " \u{2003} raid night \u{85}";
    assert_eq!(trim_str(trim_str(s)), trim_str(s));
}

#[test]
fn blank_strings() {
    assert!(is_blank_str(""));
    assert!(is_blank_str(" \r\n\t"));
    assert!(!is_blank_str(" a "));
}

#[test]
fn optional_text_is_trimmed_or_dropped() {
    assert_eq!(normalize_optional_text(Some("  hello ".to_string())), Some("hello".to_string()));
    assert_eq!(normalize_optional_text(Some("   ".to_string())), None);
    assert_eq!(normalize_optional_text(None), None);
    let once = normalize_optional_text(Some(" a  b ".to_string()));
    assert_eq!(normalize_optional_text(once.clone()), once);
}

#[test]
fn i64_parsing_agrees_with_std() {
    for s in ["0", "5", "+7", "-12", "007", "9223372036854775807", "-9223372036854775808",
        "9223372036854775808", "-9223372036854775809", "", "+", "-", " 5", "5 ", "1_000", "abc",
        "99999999999999999999999"] {
        assert_eq!(parse_i64(s), s.parse::<i64>().ok(), "input {:?}", s);
    }
}

#[test]
fn unsigned_parsing_agrees_with_std() {
    for s in ["0", "80", "+80", "65535", "65536", "-0", "-1", "", "+", "8o"] {
        assert_eq!(parse_unsigned(s, 65535).map(|v| v as u16), s.parse::<u16>().ok(), "input {:?}", s);
    }
    for s in ["18446744073709551615", "18446744073709551616", "10485760", "30"] {
        assert_eq!(parse_unsigned(s, u64::MAX), s.parse::<u64>().ok(), "input {:?}", s);
    }
}
