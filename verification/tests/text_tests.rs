use rusty_dl::settings::{parse_retry_interval, Settings, DEFAULT_RETRY_INTERVAL};
use rusty_dl::text::{
    chars_of, last_segment_start, parse_unsigned_chars, str_equals, trim_bounds, IntErrorKind,
};

fn cs(s: &str) -> Vec<char> {
    s.chars().collect()
}

#[test]
fn parses_plain_decimal() {
    assert_eq!(parse_unsigned_chars(&cs("1234"), u64::MAX), Ok(1234));
    assert_eq!(parse_unsigned_chars(&cs("0"), u64::MAX), Ok(0));
    assert_eq!(parse_unsigned_chars(&cs("+7"), u64::MAX), Ok(7));
}

#[test]
fn parse_errors_have_their_kind() {
    assert_eq!(parse_unsigned_chars(&cs(""), u64::MAX), Err(IntErrorKind::Empty));
    assert_eq!(parse_unsigned_chars(&cs("+"), u64::MAX), Err(IntErrorKind::InvalidDigit));
    assert_eq!(parse_unsigned_chars(&cs("-"), u64::MAX), Err(IntErrorKind::InvalidDigit));
    assert_eq!(parse_unsigned_chars(&cs("-1"), u64::MAX), Err(IntErrorKind::InvalidDigit));
    assert_eq!(parse_unsigned_chars(&cs("12a"), u64::MAX), Err(IntErrorKind::InvalidDigit));
    assert_eq!(parse_unsigned_chars(&cs(" 1"), u64::MAX), Err(IntErrorKind::InvalidDigit));
    assert_eq!(
        parse_unsigned_chars(&cs("18446744073709551616"), u64::MAX),
        Err(IntErrorKind::PosOverflow)
    );
    assert_eq!(parse_unsigned_chars(&cs("18446744073709551615"), u64::MAX), Ok(u64::MAX));
    assert_eq!(parse_unsigned_chars(&cs("256"), 255), Err(IntErrorKind::PosOverflow));
    assert_eq!(parse_unsigned_chars(&cs("255"), 255), Ok(255));
}

#[test]
fn agrees_with_std_parse() {
    for s in ["", "+", "-", "+0", "007", "99999999999999999999", "1_0", "42", "4 2", "٣"] {
        let ours = parse_unsigned_chars(&cs(s), u64::MAX).map_err(|k| k.message().to_string());
        let std = s.parse::<u64>().map_err(|e| e.to_string());
        assert_eq!(ours, std, "input {:?}", s);
    }
}

#[test]
fn error_messages() {
    assert_eq!(IntErrorKind::Empty.message(), "cannot parse integer from empty string");
    assert_eq!(IntErrorKind::InvalidDigit.message(), "invalid digit found in string");
    assert_eq!(IntErrorKind::PosOverflow.message(), "number too large to fit in target type");
}

#[test]
fn trims_unicode_whitespace() {
    let v = cs("  a b\t");
    assert_eq!(trim_bounds(&v), (2, 5));
    let v = cs("\u{3000}x\u{a0}");
    assert_eq!(trim_bounds(&v), (1, 2));
    let v = cs(" \n ");
    let (a, b) = trim_bounds(&v);
    assert_eq!(a, b);
    let v = cs("");
    assert_eq!(trim_bounds(&v), (0, 0));
}

#[test]
fn finds_last_segment() {
    let v = cs("https://a.b/c/d.zip");
    assert_eq!(last_segment_start(&v), 14);
    let v = cs("nofolder");
    assert_eq!(last_segment_start(&v), 0);
    let v = cs("ends/");
    assert_eq!(last_segment_start(&v), 5);
}

#[test]
fn compares_strings() {
    assert!(str_equals("abc", "abc"));
    assert!(!str_equals("abc", "abd"));
    assert!(!str_equals("abc", "ab"));
    assert_eq!(chars_of("héllo"), vec!['h', 'é', 'l', 'l', 'o']);
}

#[test]
fn retry_interval_defaults_when_empty() {
    assert_eq!(parse_retry_interval(""), Ok(DEFAULT_RETRY_INTERVAL));
    assert_eq!(parse_retry_interval("10"), Ok(10));
    assert_eq!(parse_retry_interval("ten"), Err(IntErrorKind::InvalidDigit));
    let s = Settings::default();
    assert_eq!(s.dl_dir, "Downloads");
    assert_eq!(s.retry_interval, 5);
}
