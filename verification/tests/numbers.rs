use formcore::numbers::{parse_i32, NumberError};

#[test]
fn plain_decimals_parse() {
    assert_eq!(parse_i32("0"), Ok(0));
    assert_eq!(parse_i32("7"), Ok(7));
    assert_eq!(parse_i32("42"), Ok(42));
    assert_eq!(parse_i32("007"), Ok(7));
}

#[test]
fn signs_are_honoured() {
    assert_eq!(parse_i32("-3"), Ok(-3));
    assert_eq!(parse_i32("+3"), Ok(3));
    assert_eq!(parse_i32("-0"), Ok(0));
}

#[test]
fn range_ends_parse_and_beyond_fails() {
    assert_eq!(parse_i32("2147483647"), Ok(i32::MAX));
    assert_eq!(parse_i32("-2147483648"), Ok(i32::MIN));
    assert_eq!(parse_i32("2147483648"), Err(NumberError::OutOfRange));
    assert_eq!(parse_i32("-2147483649"), Err(NumberError::OutOfRange));
    assert_eq!(parse_i32("99999999999999999999"), Err(NumberError::OutOfRange));
}

#[test]
fn junk_is_an_invalid_digit() {
    assert_eq!(parse_i32(""), Err(NumberError::Empty));
    assert_eq!(parse_i32("+"), Err(NumberError::InvalidDigit));
    assert_eq!(parse_i32("-"), Err(NumberError::InvalidDigit));
    assert_eq!(parse_i32("12a"), Err(NumberError::InvalidDigit));
    assert_eq!(parse_i32(" 1"), Err(NumberError::InvalidDigit));
    assert_eq!(parse_i32("1 "), Err(NumberError::InvalidDigit));
    assert_eq!(parse_i32("1.5"), Err(NumberError::InvalidDigit));
    assert_eq!(parse_i32("--1"), Err(NumberError::InvalidDigit));
}
