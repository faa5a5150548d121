use lueur_cli::cli::{validate_positive_u32, validate_positive_u8};
use lueur_cli::text::{capitalize, ends_with, parse_unsigned, push_decimal, str_eq, to_lowercase};

#[test]
fn validate_u32_accepts_positive() {
    assert_eq!(validate_positive_u32("1000"), Ok(1000));
    assert_eq!(validate_positive_u32("+42"), Ok(42));
    assert_eq!(validate_positive_u32("007"), Ok(7));
    assert_eq!(validate_positive_u32("4294967295"), Ok(u32::MAX));
}

#[test]
fn validate_u32_rejects_zero_and_garbage() {
    assert_eq!(validate_positive_u32("0"), Err("Value must be a positive integer.".to_string()));
    assert_eq!(validate_positive_u32("4294967296"), Err("Invalid unsigned integer.".to_string()));
    assert_eq!(validate_positive_u32("-1"), Err("Invalid unsigned integer.".to_string()));
    assert_eq!(validate_positive_u32(""), Err("Invalid unsigned integer.".to_string()));
    assert_eq!(validate_positive_u32("+"), Err("Invalid unsigned integer.".to_string()));
    assert_eq!(validate_positive_u32("12a"), Err("Invalid unsigned integer.".to_string()));
    assert_eq!(validate_positive_u32(" 1"), Err("Invalid unsigned integer.".to_string()));
}

#[test]
fn validate_u8_bounds() {
    assert_eq!(validate_positive_u8("50"), Ok(50));
    assert_eq!(validate_positive_u8("100"), Ok(100));
    assert_eq!(validate_positive_u8("101"), Err("Value must be between 1 and 100.".to_string()));
    assert_eq!(validate_positive_u8("150"), Err("Value must be between 1 and 100.".to_string()));
    assert_eq!(validate_positive_u8("255"), Err("Value must be between 1 and 100.".to_string()));
    assert_eq!(validate_positive_u8("256"), Err("Invalid unsigned integer.".to_string()));
    assert_eq!(validate_positive_u8("0"), Err("Value must be a positive integer.".to_string()));
}

#[test]
fn validators_accept_rendered_numbers() {
    for n in [1u32, 9, 10, 1000, 65535, u32::MAX] {
        assert_eq!(validate_positive_u32(&n.to_string()), Ok(n));
    }
    for n in [1u8, 50, 100] {
        assert_eq!(validate_positive_u8(&n.to_string()), Ok(n));
    }
}

#[test]
fn parse_unsigned_matches_std() {
    for s in ["0", "1", "+1", "00", "255", "256", "", "+", "-0", "1 ", "99999999999999999999"] {
        assert_eq!(parse_unsigned(s, u8::MAX as u64), s.parse::<u8>().ok().map(|v| v as u64));
    }
}

#[test]
fn text_helpers() {
    let mut s = String::from("n=");
    push_decimal(&mut s, 0);
    assert_eq!(s, "n=0");
    push_decimal(&mut s, 1234567890);
    assert_eq!(s, "n=01234567890");
    assert!(str_eq("abc", "abc"));
    assert!(!str_eq("abc", "abd"));
    assert!(ends_with("report.yaml", ".yaml"));
    assert!(!ends_with("yml", ".yml"));
    assert_eq!(to_lowercase("HeLLo"), "hello");
    assert_eq!(capitalize("latency"), "Latency");
    assert_eq!(capitalize(""), "");
}

#[test]
fn parse_unsigned_accepts_the_whole_u64_range() {
    for s in ["18446744073709551615", "18446744073709551616", "+18446744073709551615", "1844674407370955161", "99999999999999999999", "0"] {
        assert_eq!(parse_unsigned(s, u64::MAX), s.parse::<u64>().ok());
    }
    assert_eq!(parse_unsigned("1000", 999), None);
    assert_eq!(parse_unsigned("999", 999), Some(999));
}
