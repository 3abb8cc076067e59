use auth_backend::decimal::{append_decimal, parse_i64};

#[test]
fn append_decimal_writes_behind_what_is_there() {
    let mut text = "n = ".to_string();
    append_decimal(&mut text, 3100);
    assert_eq!(text, "n = 3100");
    append_decimal(&mut text, 0);
    assert_eq!(text, "n = 31000");
}

#[test]
fn append_decimal_agrees_with_the_standard_notation() {
    let numbers: Vec<usize> =
        vec![0, 1, 9, 10, 11, 99, 100, 101, 64, 3600, 1_000_000, usize::MAX - 1, usize::MAX];
    for n in numbers {
        let mut text = String::new();
        append_decimal(&mut text, n);
        assert_eq!(text, n.to_string());
    }
}

#[test]
fn parse_plain_numbers() {
    assert_eq!(parse_i64("0"), Some(0));
    assert_eq!(parse_i64("7"), Some(7));
    assert_eq!(parse_i64("3600"), Some(3600));
    assert_eq!(parse_i64("0005"), Some(5));
}

#[test]
fn parse_signed_numbers() {
    assert_eq!(parse_i64("+5"), Some(5));
    assert_eq!(parse_i64("-5"), Some(-5));
    assert_eq!(parse_i64("-0"), Some(0));
    assert_eq!(parse_i64("+0"), Some(0));
}

#[test]
fn parse_at_the_limits() {
    assert_eq!(parse_i64("9223372036854775807"), Some(i64::MAX));
    assert_eq!(parse_i64("+9223372036854775807"), Some(i64::MAX));
    assert_eq!(parse_i64("-9223372036854775808"), Some(i64::MIN));
    assert_eq!(parse_i64("-9223372036854775807"), Some(i64::MIN + 1));
    assert_eq!(parse_i64("00009223372036854775807"), Some(i64::MAX));
}

#[test]
fn parse_beyond_the_limits() {
    assert_eq!(parse_i64("9223372036854775808"), None);
    assert_eq!(parse_i64("-9223372036854775809"), None);
    assert_eq!(parse_i64("18446744073709551616"), None);
    assert_eq!(parse_i64("99999999999999999999999999999999"), None);
    assert_eq!(parse_i64("-99999999999999999999999999999999"), None);
}

#[test]
fn parse_refuses_what_is_no_number() {
    assert_eq!(parse_i64(""), None);
    assert_eq!(parse_i64("+"), None);
    assert_eq!(parse_i64("-"), None);
    assert_eq!(parse_i64("abc"), None);
    assert_eq!(parse_i64("12a"), None);
    assert_eq!(parse_i64("a12"), None);
    assert_eq!(parse_i64(" 12"), None);
    assert_eq!(parse_i64("12 "), None);
    assert_eq!(parse_i64("1_000"), None);
    assert_eq!(parse_i64("1.5"), None);
    assert_eq!(parse_i64("+-5"), None);
    assert_eq!(parse_i64("--5"), None);
    assert_eq!(parse_i64("5-"), None);
    assert_eq!(parse_i64("0x10"), None);
}

#[test]
fn parse_refuses_digits_outside_ascii() {
    assert_eq!(parse_i64("\u{ff11}\u{ff12}"), None);
    assert_eq!(parse_i64("\u{661}\u{662}"), None);
    assert_eq!(parse_i64("12\u{e9}"), None);
    assert_eq!(parse_i64("\u{2212}5"), None);
}

#[test]
fn parse_agrees_with_the_standard_parser() {
    let texts = vec![
        "", "0", "-0", "+0", "1", "-1", "+1", "42", "3600", "007", "+", "-", "++1", "1+", "abc",
        "12abc", " 1", "1 ", "9223372036854775807", "9223372036854775808", "-9223372036854775808",
        "-9223372036854775809", "92233720368547758070", "1e3", "1.0", "\u{ff11}", "/", ":", "0/",
        "0:",
    ];
    for text in texts {
        assert_eq!(parse_i64(text), text.parse::<i64>().ok(), "{:?}", text);
    }
}

#[test]
fn parse_reads_back_what_append_decimal_wrote() {
    let numbers: Vec<usize> = vec![0, 9, 10, 64, 3600, 9_223_372_036_854_775_807];
    for n in numbers {
        let mut text = String::new();
        append_decimal(&mut text, n);
        assert_eq!(parse_i64(&text), Some(n as i64));
    }
}
