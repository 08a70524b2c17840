use super_clicker::text::{interval_or_default, parse_u64, str_eq, u64_to_dec_string};

#[test]
fn parse_plain_number() {
    assert_eq!(parse_u64("123"), Some(123));
    assert_eq!(parse_u64("0"), Some(0));
    assert_eq!(parse_u64("007"), Some(7));
}

#[test]
fn parse_with_plus_sign() {
    assert_eq!(parse_u64("+42"), Some(42));
    assert_eq!(parse_u64("+0"), Some(0));
}

#[test]
fn parse_rejects_garbage() {
    assert_eq!(parse_u64(""), None);
    assert_eq!(parse_u64("+"), None);
    assert_eq!(parse_u64("12a"), None);
    assert_eq!(parse_u64("-5"), None);
    assert_eq!(parse_u64(" 12"), None);
    assert_eq!(parse_u64("1 2"), None);
}

#[test]
fn parse_at_the_limit() {
    assert_eq!(parse_u64("18446744073709551615"), Some(u64::MAX));
    assert_eq!(parse_u64("18446744073709551616"), None);
    assert_eq!(parse_u64("99999999999999999999999"), None);
}

#[test]
fn write_decimal() {
    assert_eq!(u64_to_dec_string(0), "0");
    assert_eq!(u64_to_dec_string(7), "7");
    assert_eq!(u64_to_dec_string(100), "100");
    assert_eq!(u64_to_dec_string(10000), "10000");
    assert_eq!(u64_to_dec_string(u64::MAX), "18446744073709551615");
}

#[test]
fn written_value_reads_back() {
    for n in [0u64, 1, 9, 10, 95, 100, 9999, 10000, u64::MAX] {
        assert_eq!(parse_u64(&u64_to_dec_string(n)), Some(n));
    }
}

#[test]
fn malformed_interval_falls_back_to_default() {
    assert_eq!(interval_or_default("abc"), 100);
    assert_eq!(interval_or_default(""), 100);
    assert_eq!(interval_or_default("250"), 250);
}

#[test]
fn string_equality_is_character_wise() {
    assert!(str_eq("Left", "Left"));
    assert!(!str_eq("Left", "left"));
    assert!(!str_eq("Left", "Lef"));
    assert!(str_eq("", ""));
}
