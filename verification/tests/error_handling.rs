use taskflow::error_handling::{parse_number, process_content, MyError};

#[test]
fn process_content_gives_upper_case() {
    assert_eq!(process_content("hello"), "HELLO");
    assert_eq!(process_content("Hello, World 42"), "HELLO, WORLD 42");
    assert_eq!(process_content(""), "");
    assert_eq!(process_content("straße"), "STRASSE");
}

#[test]
fn parse_number_reads_plain_numbers() {
    assert!(matches!(parse_number("42"), Ok(42)));
    assert!(matches!(parse_number("-17"), Ok(-17)));
    assert!(matches!(parse_number("+8"), Ok(8)));
    assert!(matches!(parse_number("007"), Ok(7)));
    assert!(matches!(parse_number("-0"), Ok(0)));
}

#[test]
fn parse_number_sets_white_space_aside() {
    assert!(matches!(parse_number("  42\n"), Ok(42)));
    assert!(matches!(parse_number("\t-5 "), Ok(-5)));
    assert!(matches!(parse_number("\u{3000}9\u{a0}"), Ok(9)));
}

#[test]
fn parse_number_reads_the_limits() {
    assert!(matches!(parse_number("2147483647"), Ok(i32::MAX)));
    assert!(matches!(parse_number("-2147483648"), Ok(i32::MIN)));
    assert!(matches!(parse_number("2147483648"), Err(MyError::ParseError(_))));
    assert!(matches!(parse_number("-2147483649"), Err(MyError::ParseError(_))));
    assert!(matches!(parse_number("0000000000000000000001"), Ok(1)));
}

#[test]
fn parse_number_rejects_what_is_no_number() {
    assert!(matches!(parse_number(""), Err(MyError::ParseError(_))));
    assert!(matches!(parse_number("   "), Err(MyError::ParseError(_))));
    assert!(matches!(parse_number("abc"), Err(MyError::ParseError(_))));
    assert!(matches!(parse_number("4 2"), Err(MyError::ParseError(_))));
    assert!(matches!(parse_number("-"), Err(MyError::ParseError(_))));
    assert!(matches!(parse_number("+"), Err(MyError::ParseError(_))));
    assert!(matches!(parse_number("--1"), Err(MyError::ParseError(_))));
    assert!(matches!(parse_number("1.5"), Err(MyError::ParseError(_))));
    assert!(matches!(parse_number("٣"), Err(MyError::ParseError(_))));
}

#[test]
fn custom_error_message_is_heading_and_detail() {
    let error = MyError::CustomError(String::from("Error"));
    assert_eq!(error.message(), "Custom error: Error");
}

#[test]
fn parse_error_message_has_its_heading() {
    let error = "abc".parse::<i32>().map_err(MyError::from).unwrap_err();
    assert!(matches!(error, MyError::ParseError(_)));
    assert_eq!(error.message(), "Parse error: invalid digit found in string");
}

#[test]
fn io_error_message_has_its_heading() {
    let inner = std::io::Error::new(std::io::ErrorKind::NotFound, "no such file");
    let error = MyError::from(inner);
    assert!(matches!(error, MyError::IoError(_)));
    assert_eq!(error.message(), "IO error: no such file");
}

#[test]
fn parse_number_reads_back_what_was_written() {
    let samples = [0, 1, -1, 9, 10, -10, 99, 100, 12345, -98765, 1000000007, i32::MAX, i32::MIN];
    for &n in samples.iter() {
        let text = format!(" {}\n", n);
        assert!(matches!(parse_number(&text), Ok(m) if m == n));
    }
}
