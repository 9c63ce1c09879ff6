use pallet_ocw::{parse_body, parse_decimal, parse_trimmed};

#[test]
fn parse_body_reads_plain_number() {
    assert_eq!(parse_body(b"42"), 42);
}

#[test]
fn parse_body_trims_ascii_white_space() {
    assert_eq!(parse_body(b"  42\r\n"), 42);
    assert_eq!(parse_body(b"\t7 "), 7);
}

#[test]
fn parse_body_trims_unicode_white_space() {
    assert_eq!(parse_body("\u{3000}12\u{a0}".as_bytes()), 12);
}

#[test]
fn parse_body_empty_is_zero() {
    assert_eq!(parse_body(b""), 0);
    assert_eq!(parse_body(b"   "), 0);
}

#[test]
fn parse_body_non_numeric_is_zero() {
    assert_eq!(parse_body(b"abc"), 0);
    assert_eq!(parse_body(b"4 2"), 0);
    assert_eq!(parse_body(b"{\"reward\": 5}"), 0);
}

#[test]
fn parse_body_invalid_utf8_is_zero() {
    assert_eq!(parse_body(&[0xff, b'4', b'2']), 0);
    assert_eq!(parse_body(&[b'4', 0xc3]), 0);
}

#[test]
fn parse_body_largest_value() {
    assert_eq!(parse_body(b"18446744073709551615"), u64::MAX);
}

#[test]
fn parse_body_overflow_is_zero() {
    assert_eq!(parse_body(b"18446744073709551616"), 0);
    assert_eq!(parse_body(b"99999999999999999999999"), 0);
}

#[test]
fn parse_decimal_signs() {
    assert_eq!(parse_decimal("+7"), Some(7));
    assert_eq!(parse_decimal("-7"), None);
    assert_eq!(parse_decimal("+"), None);
    assert_eq!(parse_decimal("++7"), None);
    assert_eq!(parse_decimal(""), None);
}

#[test]
fn parse_decimal_leading_zeros() {
    assert_eq!(parse_decimal("0007"), Some(7));
    assert_eq!(parse_decimal("0"), Some(0));
}

#[test]
fn parse_trimmed_does_not_trim() {
    assert_eq!(parse_trimmed(" 5"), 0);
    assert_eq!(parse_trimmed("5"), 5);
}
