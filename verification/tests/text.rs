use hdcquery::text::{decimal, first_line_of, join, parse_number, trim, NumberError};

#[test]
fn decimal_writes_digits() {
    assert_eq!(decimal(0), "0");
    assert_eq!(decimal(7), "7");
    assert_eq!(decimal(10), "10");
    assert_eq!(decimal(1234567890), "1234567890");
    assert_eq!(decimal(u64::MAX), "18446744073709551615");
}

#[test]
fn first_line_of_stops_at_line_feed() {
    assert_eq!(first_line_of("one\ntwo\nthree"), "one");
    assert_eq!(first_line_of("no line feed"), "no line feed");
    assert_eq!(first_line_of("\nsecond"), "");
    assert_eq!(first_line_of(""), "");
    assert_eq!(first_line_of("dos\r\nline"), "dos\r");
}

#[test]
fn trim_removes_white_space_at_both_ends() {
    assert_eq!(trim("  12 \t\r\n"), "12");
    assert_eq!(trim("\u{a0}\u{3000}a b\u{2003}"), "a b");
    assert_eq!(trim(" \n "), "");
    assert_eq!(trim(""), "");
    assert_eq!(trim("x"), "x");
}

#[test]
fn parse_number_reads_decimal_numbers() {
    assert_eq!(parse_number("0"), Ok(0));
    assert_eq!(parse_number("42"), Ok(42));
    assert_eq!(parse_number("+7"), Ok(7));
    assert_eq!(parse_number("007"), Ok(7));
    assert_eq!(parse_number(&usize::MAX.to_string()), Ok(usize::MAX));
}

#[test]
fn parse_number_names_each_error() {
    assert_eq!(parse_number(""), Err(NumberError::Empty));
    assert_eq!(parse_number("abc"), Err(NumberError::InvalidDigit));
    assert_eq!(parse_number("+"), Err(NumberError::InvalidDigit));
    assert_eq!(parse_number("-1"), Err(NumberError::InvalidDigit));
    assert_eq!(parse_number("1 2"), Err(NumberError::InvalidDigit));
    assert_eq!(parse_number("18446744073709551616"), Err(NumberError::TooLarge));
    assert_eq!(parse_number("99999999999999999999999"), Err(NumberError::TooLarge));
}

#[test]
fn join_puts_one_blank_between_words() {
    assert_eq!(join(&vec!["apache".to_string(), "httpd".to_string()]), "apache httpd");
    assert_eq!(join(&vec!["nginx".to_string()]), "nginx");
    assert_eq!(join(&Vec::new()), "");
}
