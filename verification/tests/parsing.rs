use greeter::decimal::parse_u32;
use greeter::decimal::u32_to_decimal;
use greeter::session::parse_age;

#[test]
fn parses_valid_number() {
    assert_eq!(parse_u32("30"), Some(30));
    assert_eq!(parse_age("30"), 30);
    assert_eq!(parse_u32("7"), Some(7));
    assert_eq!(parse_u32("007"), Some(7));
}

#[test]
fn parses_zero() {
    assert_eq!(parse_u32("0"), Some(0));
    assert_eq!(parse_age("0"), 0);
}

#[test]
fn parses_largest_value() {
    assert_eq!(parse_u32("4294967295"), Some(u32::MAX));
    assert_eq!(parse_age("4294967295"), u32::MAX);
}

#[test]
fn rejects_empty_text() {
    assert_eq!(parse_u32(""), None);
    assert_eq!(parse_age(""), 0);
}

#[test]
fn rejects_letters() {
    assert_eq!(parse_u32("abc"), None);
    assert_eq!(parse_age("abc"), 0);
    assert_eq!(parse_u32("12a"), None);
    assert_eq!(parse_age("12a"), 0);
}

#[test]
fn rejects_signs() {
    assert_eq!(parse_u32("-5"), None);
    assert_eq!(parse_age("-5"), 0);
    assert_eq!(parse_u32("+5"), None);
}

#[test]
fn rejects_out_of_range_magnitude() {
    assert_eq!(parse_u32("4294967296"), None);
    assert_eq!(parse_age("4294967296"), 0);
    assert_eq!(parse_u32("99999999999999999999"), None);
}

#[test]
fn rejects_inner_whitespace() {
    assert_eq!(parse_u32("3 0"), None);
    assert_eq!(parse_u32(" 30"), None);
}

#[test]
fn renders_decimal_digits() {
    assert_eq!(u32_to_decimal(0), "0");
    assert_eq!(u32_to_decimal(7), "7");
    assert_eq!(u32_to_decimal(30), "30");
    assert_eq!(u32_to_decimal(100), "100");
    assert_eq!(u32_to_decimal(u32::MAX), "4294967295");
}
