use bedu_claim::text::{decimal_string, parse_u64, push_decimal, same_text};

#[test]
fn decimal_string_of_zero_is_one_digit() {
    assert_eq!(decimal_string(0), "0");
}

#[test]
fn decimal_string_writes_digits_most_significant_first() {
    assert_eq!(decimal_string(7), "7");
    assert_eq!(decimal_string(10), "10");
    assert_eq!(decimal_string(12345), "12345");
    assert_eq!(decimal_string(1000000), "1000000");
}

#[test]
fn decimal_string_of_negative_number_has_minus_sign() {
    assert_eq!(decimal_string(-1), "-1");
    assert_eq!(decimal_string(-2147483648), "-2147483648");
}

#[test]
fn decimal_string_covers_the_whole_range() {
    assert_eq!(decimal_string(i64::MAX), "9223372036854775807");
    assert_eq!(decimal_string(i64::MIN), "-9223372036854775808");
}

#[test]
fn decimal_string_agrees_with_std_formatting() {
    let samples: Vec<i64> = vec![0, 1, -1, 9, 10, 99, 100, 101, -100, 4096, 65535, -65536, 999999999];
    for n in samples {
        assert_eq!(decimal_string(n), format!("{}", n));
    }
}

#[test]
fn push_decimal_appends_to_what_is_there() {
    let mut out = String::from("pn=");
    push_decimal(&mut out, 42);
    assert_eq!(out, "pn=42");
    push_decimal(&mut out, -3);
    assert_eq!(out, "pn=42-3");
}

#[test]
fn parse_u64_reads_plain_digits() {
    assert_eq!(parse_u64("0"), Some(0));
    assert_eq!(parse_u64("42"), Some(42));
    assert_eq!(parse_u64("007"), Some(7));
}

#[test]
fn parse_u64_accepts_one_leading_plus() {
    assert_eq!(parse_u64("+5"), Some(5));
    assert_eq!(parse_u64("++5"), None);
    assert_eq!(parse_u64("5+"), None);
}

#[test]
fn parse_u64_refuses_text_without_digits() {
    assert_eq!(parse_u64(""), None);
    assert_eq!(parse_u64("+"), None);
    assert_eq!(parse_u64("-"), None);
}

#[test]
fn parse_u64_refuses_negative_numbers() {
    assert_eq!(parse_u64("-5"), None);
    assert_eq!(parse_u64("-0"), None);
}

#[test]
fn parse_u64_refuses_anything_but_digits() {
    assert_eq!(parse_u64(" 5"), None);
    assert_eq!(parse_u64("5 "), None);
    assert_eq!(parse_u64("1_000"), None);
    assert_eq!(parse_u64("12a"), None);
    assert_eq!(parse_u64("0x10"), None);
    assert_eq!(parse_u64("１２"), None);
}

#[test]
fn parse_u64_reads_the_largest_number_and_refuses_the_next() {
    assert_eq!(parse_u64("18446744073709551615"), Some(u64::MAX));
    assert_eq!(parse_u64("18446744073709551616"), None);
    assert_eq!(parse_u64("99999999999999999999999999"), None);
    assert_eq!(parse_u64("000000000000000000000000000001"), Some(1));
}

#[test]
fn parse_u64_agrees_with_std_parsing() {
    let samples: Vec<&str> = vec![
        "", "+", "-", "0", "+0", "-0", "1", "+1", "-1", "12", "1 2", "18446744073709551615",
        "18446744073709551616", "184467440737095516150", "abc", "9a", "a9", "+18446744073709551615",
    ];
    for text in samples {
        assert_eq!(parse_u64(text), text.parse::<u64>().ok(), "text {:?}", text);
    }
}

#[test]
fn written_numbers_read_back() {
    let samples: Vec<i64> = vec![0, 1, 9, 10, 11, 99, 100, 2147483647, 9223372036854775807];
    for n in samples {
        assert_eq!(parse_u64(&decimal_string(n)), Some(n as u64));
    }
}

#[test]
fn written_negative_numbers_do_not_read_back() {
    let samples: Vec<i64> = vec![-1, -10, -2147483648, i64::MIN];
    for n in samples {
        assert_eq!(parse_u64(&decimal_string(n)), None);
    }
}

#[test]
fn same_text_compares_character_by_character() {
    assert!(same_text("producetask", "producetask"));
    assert!(!same_text("producetask", "audittask"));
    assert!(!same_text("producetask", "producetask "));
    assert!(same_text("", ""));
    assert!(!same_text("Producetask", "producetask"));
}
