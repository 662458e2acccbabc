use chatguard::text::{format_u64, parse_u64, trim_str};

fn parse(s: &str) -> Option<u64> {
    parse_u64(&s.chars().collect())
}

#[test]
fn parses_decimal_numbers() {
    assert_eq!(parse("0"), Some(0));
    assert_eq!(parse("42"), Some(42));
    assert_eq!(parse("18446744073709551615"), Some(u64::MAX));
}

#[test]
fn rejects_what_is_no_decimal_u64() {
    assert_eq!(parse(""), None);
    assert_eq!(parse("18446744073709551616"), None);
    assert_eq!(parse("99999999999999999999999"), None);
    assert_eq!(parse("-1"), None);
    assert_eq!(parse("+1"), None);
    assert_eq!(parse("4 2"), None);
    assert_eq!(parse("42x"), None);
}

#[test]
fn formats_decimal_numbers() {
    assert_eq!(format_u64(0), "0");
    assert_eq!(format_u64(7), "7");
    assert_eq!(format_u64(1234567890), "1234567890");
    assert_eq!(format_u64(u64::MAX), "18446744073709551615");
}

#[test]
fn format_and_parse_agree() {
    for n in [0u64, 1, 9, 10, 99, 100, 4096, u64::MAX - 1, u64::MAX] {
        assert_eq!(parse(&format_u64(n)), Some(n));
    }
}

#[test]
fn trims_surrounding_whitespace_only() {
    assert_eq!(trim_str("  hello world \t\n"), "hello world");
    assert_eq!(trim_str("no padding"), "no padding");
    assert_eq!(trim_str("   "), "");
    assert_eq!(trim_str(""), "");
    assert_eq!(trim_str("\u{a0}nbsp padded\u{a0}"), "nbsp padded");
}
