use doen::text::{is_blank, parse_number, same_text, trim, write_number};

#[test]
fn blank_texts() {
    assert!(is_blank(""));
    assert!(is_blank(" "));
    assert!(is_blank(" \t\r\n"));
    assert!(is_blank("\u{a0}\u{2003}\u{3000}"));
    assert!(!is_blank("a"));
    assert!(!is_blank("  a  "));
    assert!(!is_blank("\n-\n"));
    assert!(!is_blank("\u{200b}"));
}

#[test]
fn blank_agrees_with_trim() {
    for text in ["", " ", "x", " x", "x ", "\t\n", "\u{85}", "\u{feff}", "é ", " 日本 "] {
        assert_eq!(is_blank(text), text.trim().is_empty());
    }
}

#[test]
fn trimming() {
    assert_eq!(trim(""), "");
    assert_eq!(trim("   "), "");
    assert_eq!(trim("abc"), "abc");
    assert_eq!(trim("  abc"), "abc");
    assert_eq!(trim("abc\n"), "abc");
    assert_eq!(trim("\t a b  c \r\n"), "a b  c");
    assert_eq!(trim(" é日本 \u{3000}"), "é日本");
}

#[test]
fn trimming_agrees_with_std() {
    for text in ["", " ", "x", " x", "x ", "\t\n", " a \u{a0} b \u{2028}", "\u{feff} x", "  日 本  "] {
        assert_eq!(trim(text), text.trim());
    }
}

#[test]
fn same_text_compares_characters() {
    assert!(same_text("", ""));
    assert!(same_text("title", "title"));
    assert!(!same_text("title", "Title"));
    assert!(!same_text("title", "titles"));
    assert!(!same_text("titles", "title"));
    assert!(same_text("日本", "日本"));
    assert!(!same_text("日本", "日木"));
}

#[test]
fn numbers_are_read() {
    assert_eq!(parse_number("0"), Some(0));
    assert_eq!(parse_number("1"), Some(1));
    assert_eq!(parse_number("42"), Some(42));
    assert_eq!(parse_number("007"), Some(7));
    assert_eq!(parse_number("+3"), Some(3));
    assert_eq!(parse_number("1234567890"), Some(1234567890));
}

#[test]
fn what_is_no_number_is_refused() {
    assert_eq!(parse_number(""), None);
    assert_eq!(parse_number("+"), None);
    assert_eq!(parse_number("-1"), None);
    assert_eq!(parse_number("++1"), None);
    assert_eq!(parse_number("1+"), None);
    assert_eq!(parse_number(" 1"), None);
    assert_eq!(parse_number("1 "), None);
    assert_eq!(parse_number("1a"), None);
    assert_eq!(parse_number("a1"), None);
    assert_eq!(parse_number("1.5"), None);
    assert_eq!(parse_number("٣"), None);
}

#[test]
fn numbers_up_to_the_largest_are_read() {
    let largest = format!("{}", usize::MAX);
    assert_eq!(parse_number(&largest), Some(usize::MAX));
    let below = format!("{}", usize::MAX - 1);
    assert_eq!(parse_number(&below), Some(usize::MAX - 1));
    let beyond = format!("{}", (usize::MAX as u128) + 1);
    assert_eq!(parse_number(&beyond), None);
    let far_beyond = format!("{}0", usize::MAX);
    assert_eq!(parse_number(&far_beyond), None);
    assert_eq!(parse_number("99999999999999999999999999999999999999"), None);
    assert_eq!(parse_number("99999999999999999999x"), None);
}

#[test]
fn number_reading_agrees_with_std() {
    for text in ["", "+", "0", "+0", "12", "+12", "012", "1_000", "0x10", "18446744073709551615", "18446744073709551616", "٣", "１２"] {
        assert_eq!(parse_number(text), text.parse::<usize>().ok());
    }
}

#[test]
fn numbers_are_written() {
    assert_eq!(write_number(0), "0");
    assert_eq!(write_number(7), "7");
    assert_eq!(write_number(10), "10");
    assert_eq!(write_number(42), "42");
    assert_eq!(write_number(1234567890), "1234567890");
    assert_eq!(write_number(usize::MAX), format!("{}", usize::MAX));
}

#[test]
fn written_numbers_are_read_back() {
    for value in [0, 1, 9, 10, 11, 99, 100, 101, 65535, 1 << 40, usize::MAX - 1, usize::MAX] {
        assert_eq!(parse_number(&write_number(value)), Some(value));
        assert_eq!(write_number(value), format!("{}", value));
    }
}
