use lsf_tui::text::{
    digit, parse_number, parse_u64, parse_usize, trim, white_space, NumberError,
};
use std::num::IntErrorKind;

fn kind(error: &std::num::ParseIntError) -> NumberError {
    match error.kind() {
        IntErrorKind::Empty => NumberError::Empty,
        IntErrorKind::InvalidDigit => NumberError::InvalidDigit,
        IntErrorKind::PosOverflow => NumberError::PosOverflow,
        other => panic!("{:?}", other),
    }
}

#[test]
fn parse_reads_plain_numbers() {
    assert_eq!(parse_u64("0"), Ok(0));
    assert_eq!(parse_u64("7"), Ok(7));
    assert_eq!(parse_u64("30"), Ok(30));
    assert_eq!(parse_u64("1234567890"), Ok(1_234_567_890));
}

#[test]
fn parse_accepts_leading_zeros_and_plus() {
    assert_eq!(parse_u64("007"), Ok(7));
    assert_eq!(parse_u64("+5"), Ok(5));
    assert_eq!(parse_u64("+000"), Ok(0));
}

#[test]
fn parse_reads_up_to_the_largest_number() {
    assert_eq!(parse_u64("18446744073709551615"), Ok(u64::MAX));
    assert_eq!(parse_u64("018446744073709551615"), Ok(u64::MAX));
    assert_eq!(parse_u64("18446744073709551616"), Err(NumberError::PosOverflow));
    assert_eq!(parse_u64("18446744073709551620"), Err(NumberError::PosOverflow));
    assert_eq!(parse_u64("99999999999999999999999999"), Err(NumberError::PosOverflow));
}

#[test]
fn parse_reads_up_to_the_given_bound() {
    assert_eq!(parse_number("255", 255), Ok(255));
    assert_eq!(parse_number("256", 255), Err(NumberError::PosOverflow));
    assert_eq!(parse_number("0", 0), Ok(0));
    assert_eq!(parse_number("000", 0), Ok(0));
    assert_eq!(parse_number("1", 0), Err(NumberError::PosOverflow));
    assert_eq!(parse_number("9", 5), Err(NumberError::PosOverflow));
    assert_eq!(parse_number("10", 9), Err(NumberError::PosOverflow));
    assert_eq!(parse_number("x", 0), Err(NumberError::InvalidDigit));
    assert_eq!(parse_usize("4096"), Ok(4096));
    assert_eq!(parse_usize("-1"), Err(NumberError::InvalidDigit));
}

#[test]
fn parse_refuses_an_empty_text() {
    assert_eq!(parse_u64(""), Err(NumberError::Empty));
    assert_eq!(parse_usize(""), Err(NumberError::Empty));
}

#[test]
fn parse_refuses_what_is_no_digit() {
    for text in [
        "+", "-", "-1", "-0", "++1", "1+", "12a", "a12", " 1", "1 ", "1_000", "1.5", "0x10",
        "١٢", "１２", "\n",
    ] {
        assert_eq!(parse_u64(text), Err(NumberError::InvalidDigit), "{:?}", text);
    }
}

#[test]
fn parse_names_the_first_thing_that_is_wrong() {
    assert_eq!(parse_u64("99999999999999999999999a"), Err(NumberError::PosOverflow));
    assert_eq!(parse_u64("18446744073709551616a"), Err(NumberError::PosOverflow));
    assert_eq!(parse_u64("1844674407370955161a"), Err(NumberError::InvalidDigit));
    assert_eq!(parse_u64("1844674407370955162a"), Err(NumberError::InvalidDigit));
    assert_eq!(parse_u64("a99999999999999999999999"), Err(NumberError::InvalidDigit));
    assert_eq!(parse_number("25x6", 255), Err(NumberError::InvalidDigit));
    assert_eq!(parse_number("256x", 255), Err(NumberError::PosOverflow));
}

#[test]
fn parse_agrees_with_the_standard_library() {
    let samples = [
        "", "0", "1", "+1", "-1", "+", "00", "42", "4 2", "42\n", "18446744073709551615",
        "18446744073709551616", "184467440737095516150", "+18446744073709551615", "９", "3e2",
        "2147483648", "999", "+-1", "1+1", "99999999999999999999999a", "18446744073709551616a",
        "1844674407370955161a", "1844674407370955162a", "18446744073709551615 ",
        "00000000000000000000000000000000000001", "+00000000000000000000018446744073709551616",
    ];
    for text in samples {
        assert_eq!(parse_u64(text), text.parse::<u64>().map_err(|e| kind(&e)), "{:?}", text);
        assert_eq!(parse_usize(text), text.parse::<usize>().map_err(|e| kind(&e)), "{:?}", text);
        assert_eq!(
            parse_number(text, 255),
            text.parse::<u8>().map(u64::from).map_err(|e| kind(&e)),
            "{:?}",
            text
        );
        assert_eq!(
            parse_number(text, 65_535),
            text.parse::<u16>().map(u64::from).map_err(|e| kind(&e)),
            "{:?}",
            text
        );
    }
}

#[test]
fn digits_are_the_ten_ascii_digits() {
    for code in 0..=0x10FFFFu32 {
        if let Some(c) = char::from_u32(code) {
            assert_eq!(digit(c), c.is_ascii_digit(), "{:?}", c);
        }
    }
}

#[test]
fn white_space_is_what_unicode_calls_so() {
    for code in 0..=0x10FFFFu32 {
        if let Some(c) = char::from_u32(code) {
            assert_eq!(white_space(c), c.is_whitespace(), "{:?}", c);
        }
    }
}

#[test]
fn trim_removes_white_space_at_both_ends() {
    assert_eq!(trim("  a b \n"), "a b");
    assert_eq!(trim("1\n"), "1");
    assert_eq!(trim("\t\r\n 12 \r\n"), "12");
    assert_eq!(trim("\u{3000}x\u{2028}"), "x");
    assert_eq!(trim("é \u{a0}"), "é");
}

#[test]
fn trim_leaves_the_rest_alone() {
    assert_eq!(trim(""), "");
    assert_eq!(trim("   "), "");
    assert_eq!(trim("abc"), "abc");
    assert_eq!(trim("a  b"), "a  b");
    assert_eq!(trim("\u{200b}a"), "\u{200b}a");
}

#[test]
fn trim_agrees_with_the_standard_library() {
    for text in ["", " ", "x", " x", "x ", " x y ", "\n\n", "\u{85}z\u{85}", "\u{1680}\u{2000}q\u{205f}", "ü\u{202f}"] {
        assert_eq!(trim(text), text.trim(), "{:?}", text);
    }
}
