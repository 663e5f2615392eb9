use table_ddl::text::{
    append_copies, decimal_string, join_strings, parse_unsigned, same_text,
    signed_decimal_string, to_chars, NumberFault,
};

#[test]
fn decimal_of_small_and_large_numbers() {
    assert_eq!(decimal_string(0), "0");
    assert_eq!(decimal_string(7), "7");
    assert_eq!(decimal_string(10), "10");
    assert_eq!(decimal_string(255), "255");
    assert_eq!(decimal_string(1_000_000), "1000000");
    assert_eq!(decimal_string(u64::MAX), "18446744073709551615");
}

#[test]
fn signed_decimal_has_a_minus_sign() {
    assert_eq!(signed_decimal_string(0), "0");
    assert_eq!(signed_decimal_string(1), "1");
    assert_eq!(signed_decimal_string(-1), "-1");
    assert_eq!(signed_decimal_string(-128), "-128");
    assert_eq!(signed_decimal_string(i64::MAX), "9223372036854775807");
    assert_eq!(signed_decimal_string(i64::MIN), "-9223372036854775808");
}

#[test]
fn numbers_within_the_limit() {
    assert_eq!(parse_unsigned("0", 255), Ok(0));
    assert_eq!(parse_unsigned("255", 255), Ok(255));
    assert_eq!(parse_unsigned("0042", 255), Ok(42));
    assert_eq!(parse_unsigned("18446744073709551615", u64::MAX), Ok(u64::MAX));
}

#[test]
fn number_faults() {
    assert_eq!(parse_unsigned("", 255), Err(NumberFault::Empty));
    assert_eq!(parse_unsigned("256", 255), Err(NumberFault::TooLarge));
    assert_eq!(parse_unsigned("18446744073709551616", u64::MAX), Err(NumberFault::TooLarge));
    assert_eq!(parse_unsigned("99999999999999999999999999999999999999999", u64::MAX), Err(NumberFault::TooLarge));
    assert_eq!(parse_unsigned("12a", 255), Err(NumberFault::InvalidDigit));
    assert_eq!(parse_unsigned("+1", 255), Err(NumberFault::InvalidDigit));
    assert_eq!(parse_unsigned("-1", 255), Err(NumberFault::InvalidDigit));
    assert_eq!(parse_unsigned(" 1", 255), Err(NumberFault::InvalidDigit));
    assert_eq!(parse_unsigned("1_0", 255), Err(NumberFault::InvalidDigit));
}

#[test]
fn a_wrong_digit_counts_before_the_size() {
    assert_eq!(parse_unsigned("99999x", 255), Err(NumberFault::InvalidDigit));
}

#[test]
fn digits_of_other_scripts_are_no_digits() {
    assert_eq!(parse_unsigned("\u{0663}", 255), Err(NumberFault::InvalidDigit));
}

#[test]
fn join_puts_the_separator_between() {
    let none: Vec<String> = vec![];
    assert_eq!(join_strings(&none, ","), "");
    assert_eq!(join_strings(&vec!["a".to_string()], ","), "a");
    assert_eq!(join_strings(&vec!["a".to_string(), "b".to_string(), "c".to_string()], ", "), "a, b, c");
    assert_eq!(join_strings(&vec!["".to_string(), "".to_string()], ","), ",");
}

#[test]
fn same_text_compares_characters() {
    assert!(same_text("log", "log"));
    assert!(!same_text("log", "Log"));
    assert!(!same_text("log", "logs"));
    assert!(same_text("", ""));
}

#[test]
fn chars_of_a_text() {
    assert_eq!(to_chars("a\u{e9}("), vec!['a', '\u{e9}', '(']);
    assert_eq!(to_chars(""), Vec::<char>::new());
}

#[test]
fn copies_are_appended_in_order() {
    let mut list = vec!["a".to_string()];
    let more = vec!["b".to_string(), "c".to_string()];
    append_copies(&mut list, &more);
    assert_eq!(list, vec!["a".to_string(), "b".to_string(), "c".to_string()]);
    append_copies(&mut list, &vec![]);
    assert_eq!(list.len(), 3);
    assert_eq!(more.len(), 2);
}
