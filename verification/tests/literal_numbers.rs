use noodle::numbers::{parse_i64, unit_number};

#[test]
fn unit_plain_fractions() {
    assert_eq!(unit_number("0.85"), Some((true, 850)));
    assert_eq!(unit_number("0.05"), Some((true, 50)));
    assert_eq!(unit_number("0.9999"), Some((true, 999)));
    assert_eq!(unit_number("0.75"), Some((true, 750)));
}

#[test]
fn unit_whole_numbers() {
    assert_eq!(unit_number("0"), Some((true, 0)));
    assert_eq!(unit_number("1"), Some((true, 1000)));
    assert_eq!(unit_number("1.0"), Some((true, 1000)));
    assert_eq!(unit_number("2"), Some((false, 1000)));
}

#[test]
fn unit_out_of_range_clamps() {
    assert_eq!(unit_number("1.5"), Some((false, 1000)));
    assert_eq!(unit_number("-0.2"), Some((false, 0)));
    assert_eq!(unit_number("20"), Some((false, 1000)));
    assert_eq!(unit_number("1.0001"), Some((false, 1000)));
}

#[test]
fn unit_signed_zero_is_within() {
    assert_eq!(unit_number("-0"), Some((true, 0)));
    assert_eq!(unit_number("-0.0"), Some((true, 0)));
}

#[test]
fn unit_exponent_forms() {
    assert_eq!(unit_number("8.5e-5"), Some((true, 0)));
    assert_eq!(unit_number("1e-3"), Some((true, 1)));
    assert_eq!(unit_number("1E-1"), Some((true, 100)));
    assert_eq!(unit_number("2e1"), Some((false, 1000)));
    assert_eq!(unit_number("1e0"), Some((true, 1000)));
}

#[test]
fn unit_malformed_literals() {
    assert_eq!(unit_number(""), None);
    assert_eq!(unit_number("abc"), None);
    assert_eq!(unit_number("1."), None);
    assert_eq!(unit_number(".5"), None);
    assert_eq!(unit_number("1e"), None);
    assert_eq!(unit_number("1e100000"), None);
    assert_eq!(unit_number("0.85x"), None);
}

#[test]
fn parse_i64_plain() {
    assert_eq!(parse_i64("90"), Some(90));
    assert_eq!(parse_i64("-5"), Some(-5));
    assert_eq!(parse_i64("+7"), Some(7));
    assert_eq!(parse_i64("0"), Some(0));
}

#[test]
fn parse_i64_bounds() {
    assert_eq!(parse_i64("9223372036854775807"), Some(i64::MAX));
    assert_eq!(parse_i64("9223372036854775808"), None);
    assert_eq!(parse_i64("-9223372036854775808"), Some(i64::MIN));
    assert_eq!(parse_i64("-9223372036854775809"), None);
}

#[test]
fn parse_i64_malformed() {
    assert_eq!(parse_i64(""), None);
    assert_eq!(parse_i64("-"), None);
    assert_eq!(parse_i64("12a"), None);
    assert_eq!(parse_i64("1.5"), None);
    assert_eq!(parse_i64(" 3"), None);
}
