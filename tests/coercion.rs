use uploads_im_client::{
    parse_bool_number_string, parse_status_code_string, parse_u64_string, IntegerTextError,
    NumberStringError,
};

#[test]
fn u64_string_reads_digits() {
    assert_eq!(parse_u64_string("123"), Ok(123));
    assert_eq!(parse_u64_string("0"), Ok(0));
    assert_eq!(parse_u64_string("007"), Ok(7));
    assert_eq!(parse_u64_string("+42"), Ok(42));
}

#[test]
fn u64_string_largest_value() {
    assert_eq!(parse_u64_string("18446744073709551615"), Ok(u64::MAX));
    assert_eq!(
        parse_u64_string("18446744073709551616"),
        Err(IntegerTextError::TooLarge)
    );
    assert_eq!(
        parse_u64_string("99999999999999999999"),
        Err(IntegerTextError::TooLarge)
    );
}

#[test]
fn u64_string_rejects_non_digits() {
    assert_eq!(parse_u64_string(""), Err(IntegerTextError::Empty));
    assert_eq!(parse_u64_string("abc"), Err(IntegerTextError::InvalidDigit));
    assert_eq!(parse_u64_string("+"), Err(IntegerTextError::InvalidDigit));
    assert_eq!(parse_u64_string("-"), Err(IntegerTextError::InvalidDigit));
    assert_eq!(parse_u64_string("-1"), Err(IntegerTextError::InvalidDigit));
    assert_eq!(parse_u64_string("12a"), Err(IntegerTextError::InvalidDigit));
    assert_eq!(parse_u64_string(" 1"), Err(IntegerTextError::InvalidDigit));
}

#[test]
fn bool_number_string_values() {
    assert_eq!(parse_bool_number_string("0"), Ok(false));
    assert_eq!(parse_bool_number_string("1"), Ok(true));
    assert_eq!(
        parse_bool_number_string("2"),
        Err(NumberStringError::Value(2))
    );
    assert_eq!(
        parse_bool_number_string("-1"),
        Err(NumberStringError::Text(IntegerTextError::InvalidDigit))
    );
    assert_eq!(
        parse_bool_number_string("true"),
        Err(NumberStringError::Text(IntegerTextError::InvalidDigit))
    );
}

#[test]
fn status_code_string_range() {
    assert_eq!(parse_status_code_string("503"), Ok(503));
    assert_eq!(parse_status_code_string("100"), Ok(100));
    assert_eq!(parse_status_code_string("599"), Ok(599));
    assert_eq!(parse_status_code_string("99"), Err(NumberStringError::Value(99)));
    assert_eq!(parse_status_code_string("600"), Err(NumberStringError::Value(600)));
    assert_eq!(
        parse_status_code_string("x"),
        Err(NumberStringError::Text(IntegerTextError::InvalidDigit))
    );
}
