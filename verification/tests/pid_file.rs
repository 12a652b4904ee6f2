use eos_stream::pid_file::{decimal_string, parse_pid_file, pid_file_text, PidParseError};
use std::num::IntErrorKind;

fn kind_of(e: PidParseError) -> IntErrorKind {
    match e {
        PidParseError::Empty => IntErrorKind::Empty,
        PidParseError::InvalidDigit => IntErrorKind::InvalidDigit,
        PidParseError::PosOverflow => IntErrorKind::PosOverflow,
        PidParseError::NegOverflow => IntErrorKind::NegOverflow,
    }
}

#[test]
fn parses_plain_pid() {
    assert_eq!(parse_pid_file("1234"), Ok(1234));
}

#[test]
fn parses_pid_with_trailing_newline() {
    assert_eq!(parse_pid_file("4242\n"), Ok(4242));
}

#[test]
fn trims_unicode_white_space() {
    assert_eq!(parse_pid_file("\u{3000}\t 42\u{a0}\r\n"), Ok(42));
}

#[test]
fn accepts_signs() {
    assert_eq!(parse_pid_file("+7"), Ok(7));
    assert_eq!(parse_pid_file(" -5 "), Ok(-5));
    assert_eq!(parse_pid_file("-0"), Ok(0));
    assert_eq!(parse_pid_file("007"), Ok(7));
}

#[test]
fn i32_bounds() {
    assert_eq!(parse_pid_file("2147483647"), Ok(i32::MAX));
    assert_eq!(parse_pid_file("-2147483648"), Ok(i32::MIN));
    assert_eq!(parse_pid_file("2147483648"), Err(PidParseError::PosOverflow));
    assert_eq!(parse_pid_file("-2147483649"), Err(PidParseError::NegOverflow));
    assert_eq!(parse_pid_file("99999999999999999999999"), Err(PidParseError::PosOverflow));
}

#[test]
fn error_kinds() {
    assert_eq!(parse_pid_file(""), Err(PidParseError::Empty));
    assert_eq!(parse_pid_file("   \n"), Err(PidParseError::Empty));
    assert_eq!(parse_pid_file("+"), Err(PidParseError::InvalidDigit));
    assert_eq!(parse_pid_file("-"), Err(PidParseError::InvalidDigit));
    assert_eq!(parse_pid_file("12a"), Err(PidParseError::InvalidDigit));
    assert_eq!(parse_pid_file("99999999999x"), Err(PidParseError::PosOverflow));
    assert_eq!(parse_pid_file("9999x99999999"), Err(PidParseError::InvalidDigit));
}

#[test]
fn refuses_malformed_text() {
    for text in ["", "   ", "+", "-", "+-1", "12a", "1 2", "0x10", "\u{661}"] {
        assert!(parse_pid_file(text).is_err(), "text {:?}", text);
    }
}

#[test]
fn agrees_with_std_trim_and_parse() {
    let samples = [
        "0", "1", " 17 ", "\n\n99\t", "-1", "+1", "--1", "++1", "1-", "", " ", "\u{2003}8\u{2029}",
        "2147483647", "2147483648", "-2147483648", "-2147483649", "00000000000000000012",
        "1\u{200b}", "\u{85}3\u{85}", "4\u{1680}", "é", "12 34", "\u{feff}5", "+", "-",
        "99999999999x", "-99999999999x", "123456789012345678901234567890", "-1x", "x1",
        "0000000000000000000000000000002147483647", "-00000000002147483648", "21474836470",
    ];
    for s in samples {
        let expected = s.trim().parse::<i32>().map_err(|e| e.kind().clone());
        assert_eq!(parse_pid_file(s).map_err(kind_of), expected, "text {:?}", s);
    }
}

#[test]
fn error_messages_match_std() {
    for s in ["", "x", "2147483648", "-2147483649"] {
        let e = parse_pid_file(s).unwrap_err();
        assert_eq!(e.description(), s.parse::<i32>().unwrap_err().to_string());
    }
}

#[test]
fn pid_file_text_is_decimal() {
    assert_eq!(pid_file_text(0), "0");
    assert_eq!(pid_file_text(7), "7");
    assert_eq!(pid_file_text(1234), "1234");
    assert_eq!(decimal_string(u32::MAX), "4294967295");
    for n in [10u32, 99, 100, 65535, 123456789] {
        assert_eq!(pid_file_text(n), n.to_string());
    }
}

#[test]
fn pid_round_trips_through_file_text() {
    for pid in [0u32, 1, 9, 10, 31337, 2147483647] {
        assert_eq!(parse_pid_file(&pid_file_text(pid)), Ok(pid as i32));
    }
}

#[test]
fn pid_beyond_i32_does_not_round_trip() {
    assert_eq!(parse_pid_file(&pid_file_text(2147483648)), Err(PidParseError::PosOverflow));
}
