use server::text::decimal_text;
use server::text::parse_number;
use server::text::ParseFailure;

#[test]
fn parses_plain_numbers() {
    assert_eq!(parse_number("0", 65535), Ok(0));
    assert_eq!(parse_number("8080", 65535), Ok(8080));
    assert_eq!(parse_number("65535", 65535), Ok(65535));
    assert_eq!(parse_number("4294967295", u32::MAX), Ok(u32::MAX));
}

#[test]
fn accepts_a_plus_sign_and_leading_zeros() {
    assert_eq!(parse_number("+80", 65535), Ok(80));
    assert_eq!(parse_number("0008080", 65535), Ok(8080));
    assert_eq!(parse_number("+000", 65535), Ok(0));
}

#[test]
fn empty_text_is_empty() {
    assert_eq!(parse_number("", 65535), Err(ParseFailure::Empty));
}

#[test]
fn anything_but_digits_is_an_invalid_digit() {
    for text in ["+", "-", "-1", "80 ", " 80", "8_0", "0x50", "++1", "8080a", "٣", "1.0"] {
        assert_eq!(parse_number(text, 65535), Err(ParseFailure::InvalidDigit), "{text:?}");
    }
}

#[test]
fn a_number_above_the_range_overflows() {
    assert_eq!(parse_number("65536", 65535), Err(ParseFailure::PosOverflow));
    assert_eq!(parse_number("99999", 65535), Err(ParseFailure::PosOverflow));
    assert_eq!(parse_number("4294967296", u32::MAX), Err(ParseFailure::PosOverflow));
    assert_eq!(parse_number("00000000000000000000065536", 65535), Err(ParseFailure::PosOverflow));
}

#[test]
fn the_first_fault_from_the_left_decides() {
    assert_eq!(parse_number("99999x", 65535), Err(ParseFailure::PosOverflow));
    assert_eq!(parse_number("9x9999", 65535), Err(ParseFailure::InvalidDigit));
}

fn std_failure(text: &str) -> ParseFailure {
    match text.parse::<u16>().unwrap_err().kind() {
        std::num::IntErrorKind::Empty => ParseFailure::Empty,
        std::num::IntErrorKind::PosOverflow => ParseFailure::PosOverflow,
        _ => ParseFailure::InvalidDigit,
    }
}

#[test]
fn agrees_with_the_standard_parser_on_ports() {
    let texts = [
        "", "+", "-", "0", "+0", "-0", "1", "65535", "65536", "065535", "+65535", "655350", "99999x",
        "x99999", "12a", " 12", "12 ", "1 2", "+-1", "18446744073709551616", "00000", "7", "+7",
        "70000", "６", "1e3",
    ];
    for text in texts {
        match text.parse::<u16>() {
            Ok(value) => assert_eq!(parse_number(text, 65535), Ok(value as u32), "{text:?}"),
            Err(_) => assert_eq!(parse_number(text, 65535), Err(std_failure(text)), "{text:?}"),
        }
    }
}

#[test]
fn agrees_with_the_standard_parser_on_every_port() {
    for port in 0u32..=65535 {
        assert_eq!(parse_number(&format!("{port}"), 65535), Ok(port));
    }
}

#[test]
fn writes_decimal_without_leading_zeros() {
    assert_eq!(decimal_text(0), "0");
    assert_eq!(decimal_text(7), "7");
    assert_eq!(decimal_text(10), "10");
    assert_eq!(decimal_text(200), "200");
    assert_eq!(decimal_text(8080), "8080");
    assert_eq!(decimal_text(65535), "65535");
    assert_eq!(decimal_text(u32::MAX), "4294967295");
}

#[test]
fn writing_and_parsing_are_inverse() {
    for value in [0u32, 1, 9, 10, 99, 100, 404, 500, 65535, 65536, 1_000_000, u32::MAX] {
        assert_eq!(decimal_text(value), format!("{value}"));
        assert_eq!(parse_number(&decimal_text(value), u32::MAX), Ok(value));
    }
}
