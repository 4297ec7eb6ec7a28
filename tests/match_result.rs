use showcase::decimal::{parse_i32, IntParseError};
use showcase::match_result::{
    get_conf_val, setting_from_text, setting_from_trimmed, FailureKind, MyError, Setting,
    SourceContent, DEFAULT_N,
};

fn text(s: &str) -> SourceContent {
    SourceContent::Text(s.to_string())
}

#[test]
fn read_conf_42() {
    let res = get_conf_val(text("42"));
    assert!(&res.is_ok());
    let e = res.unwrap();
    assert_eq!(e.n, 42);
}

#[test]
fn unopened_source_gives_default() {
    let res = get_conf_val(SourceContent::Unopened);
    assert_eq!(res.unwrap(), Setting { n: 5 });
    assert_eq!(DEFAULT_N, 5);
}

#[test]
fn fractional_content_is_parse_error() {
    let err = get_conf_val(text("4.2")).unwrap_err();
    assert_eq!(err.kind, FailureKind::Parse);
    assert_eq!(err.msg, "invalid digit found in string");
}

#[test]
fn letters_are_parse_error() {
    let err = get_conf_val(text("abc")).unwrap_err();
    assert_eq!(err.kind, FailureKind::Parse);
}

#[test]
fn read_failure_is_io_error() {
    let err = get_conf_val(SourceContent::ReadFailed("stream did not contain valid UTF-8".to_string()))
        .unwrap_err();
    assert_eq!(err.kind, FailureKind::Io);
    assert_eq!(err.msg, "stream did not contain valid UTF-8");
}

#[test]
fn loading_twice_gives_equal_settings() {
    let first = get_conf_val(text("17")).unwrap();
    let second = get_conf_val(text("17")).unwrap();
    assert_eq!(first, second);
    let first = get_conf_val(SourceContent::Unopened).unwrap();
    let second = get_conf_val(SourceContent::Unopened).unwrap();
    assert_eq!(first, second);
}

#[test]
fn surrounding_whitespace_is_trimmed() {
    assert_eq!(get_conf_val(text(" 42\n")).unwrap().n, 42);
    assert_eq!(setting_from_text("\t-8 \r\n").unwrap().n, -8);
    assert_eq!(setting_from_text("\u{3000}9\u{a0}").unwrap().n, 9);
}

#[test]
fn untrimmed_text_is_rejected_before_trimming() {
    let err = setting_from_trimmed(" 42").unwrap_err();
    assert_eq!(err.kind, FailureKind::Parse);
}

#[test]
fn inner_whitespace_is_parse_error() {
    assert_eq!(setting_from_text("4 2").unwrap_err().kind, FailureKind::Parse);
}

#[test]
fn empty_content_is_parse_error() {
    let err = get_conf_val(text("")).unwrap_err();
    assert_eq!(err.kind, FailureKind::Parse);
    assert_eq!(err.msg, "cannot parse integer from empty string");
    let err = get_conf_val(text("  \n")).unwrap_err();
    assert_eq!(err.msg, "cannot parse integer from empty string");
}

#[test]
fn signed_and_extreme_values_load() {
    assert_eq!(get_conf_val(text("+7")).unwrap().n, 7);
    assert_eq!(get_conf_val(text("-0")).unwrap().n, 0);
    assert_eq!(get_conf_val(text("007")).unwrap().n, 7);
    assert_eq!(get_conf_val(text("2147483647")).unwrap().n, i32::MAX);
    assert_eq!(get_conf_val(text("-2147483648")).unwrap().n, i32::MIN);
}

#[test]
fn out_of_range_values_are_parse_errors() {
    let err = get_conf_val(text("2147483648")).unwrap_err();
    assert_eq!(err.kind, FailureKind::Parse);
    assert_eq!(err.msg, "number too large to fit in target type");
    let err = get_conf_val(text("-2147483649")).unwrap_err();
    assert_eq!(err.msg, "number too small to fit in target type");
}

#[test]
fn error_constructors_keep_stage_and_message() {
    let e = MyError::io("denied".to_string());
    assert_eq!(e.kind, FailureKind::Io);
    assert_eq!(e.msg, "denied");
    let e = MyError::parse(IntParseError::PosOverflow);
    assert_eq!(e.kind, FailureKind::Parse);
    assert_eq!(e.msg, "number too large to fit in target type");
}

#[test]
fn parse_i32_reports_each_reason() {
    assert_eq!(parse_i32(""), Err(IntParseError::Empty));
    assert_eq!(parse_i32("+"), Err(IntParseError::InvalidDigit));
    assert_eq!(parse_i32("-"), Err(IntParseError::InvalidDigit));
    assert_eq!(parse_i32("--1"), Err(IntParseError::InvalidDigit));
    assert_eq!(parse_i32("12a"), Err(IntParseError::InvalidDigit));
    assert_eq!(parse_i32("99999999999"), Err(IntParseError::PosOverflow));
    assert_eq!(parse_i32("-99999999999"), Err(IntParseError::NegOverflow));
    assert_eq!(parse_i32("99999999999x"), Err(IntParseError::InvalidDigit));
    assert_eq!(parse_i32("1234"), Ok(1234));
    assert_eq!(parse_i32("-1234"), Ok(-1234));
}

#[test]
fn parse_i32_agrees_with_std_on_accepted_values() {
    for s in ["0", "+0", "-0", "42", "-42", "+2147483647", "-2147483648", "000123"] {
        assert_eq!(parse_i32(s), Ok(s.parse::<i32>().unwrap()));
    }
    for s in ["", "+", "-", " 1", "1 ", "0x10", "1_000", "2147483648", "-2147483649"] {
        assert!(parse_i32(s).is_err());
        assert!(s.parse::<i32>().is_err());
    }
}

#[test]
fn parse_error_messages() {
    assert_eq!(IntParseError::Empty.message(), "cannot parse integer from empty string");
    assert_eq!(IntParseError::InvalidDigit.message(), "invalid digit found in string");
    assert_eq!(IntParseError::PosOverflow.message(), "number too large to fit in target type");
    assert_eq!(IntParseError::NegOverflow.message(), "number too small to fit in target type");
}
