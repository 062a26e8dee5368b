use geo_api::text::{i32_to_decimal, parse_u32, str_eq, str_starts_with, u64_to_decimal};

#[test]
fn decimal_of_zero() {
    assert_eq!(u64_to_decimal(0), "0");
}

#[test]
fn decimal_of_small_number() {
    assert_eq!(u64_to_decimal(7), "7");
}

#[test]
fn decimal_of_larger_numbers() {
    assert_eq!(u64_to_decimal(42), "42");
    assert_eq!(u64_to_decimal(3000), "3000");
    assert_eq!(u64_to_decimal(4294967295), "4294967295");
    assert_eq!(u64_to_decimal(u64::MAX), "18446744073709551615");
}

#[test]
fn signed_decimal_of_port_values() {
    assert_eq!(i32_to_decimal(3000), "3000");
    assert_eq!(i32_to_decimal(0), "0");
}

#[test]
fn signed_decimal_of_negative_values() {
    assert_eq!(i32_to_decimal(-45), "-45");
    assert_eq!(i32_to_decimal(i32::MIN), "-2147483648");
    assert_eq!(i32_to_decimal(i32::MAX), "2147483647");
}

#[test]
fn parse_accepts_plain_digits() {
    assert_eq!(parse_u32("17"), Some(17));
    assert_eq!(parse_u32("0"), Some(0));
    assert_eq!(parse_u32("4294967295"), Some(u32::MAX));
}

#[test]
fn parse_accepts_leading_zeros() {
    assert_eq!(parse_u32("00017"), Some(17));
}

#[test]
fn parse_refuses_empty_text() {
    assert_eq!(parse_u32(""), None);
}

#[test]
fn parse_refuses_non_digits() {
    assert_eq!(parse_u32("12a"), None);
    assert_eq!(parse_u32("a12"), None);
    assert_eq!(parse_u32("+3"), None);
    assert_eq!(parse_u32("-3"), None);
    assert_eq!(parse_u32("1 2"), None);
}

#[test]
fn parse_refuses_values_out_of_range() {
    assert_eq!(parse_u32("4294967296"), None);
    assert_eq!(parse_u32("99999999999999999999"), None);
}

#[test]
fn parse_reads_formatting_back() {
    for n in [0u32, 1, 9, 10, 99, 1000, 65536, u32::MAX] {
        assert_eq!(parse_u32(&u64_to_decimal(n as u64)), Some(n));
    }
}

#[test]
fn string_equality_by_characters() {
    assert!(str_eq("abc", "abc"));
    assert!(!str_eq("abc", "abd"));
    assert!(!str_eq("abc", "ab"));
    assert!(str_eq("", ""));
}

#[test]
fn string_prefix_by_characters() {
    assert!(str_starts_with("/city/17", "/city/"));
    assert!(!str_starts_with("/cities", "/city/"));
    assert!(str_starts_with("abc", ""));
    assert!(!str_starts_with("ab", "abc"));
}
