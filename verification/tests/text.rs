use sicily::text::{chars_of, is_keyword, parse_unsigned, push_decimal, split};

#[test]
fn split_keeps_empty_pieces() {
    assert_eq!(split("a b  c", ' '), vec!["a", "b", "", "c"]);
    assert_eq!(split("", ' '), vec![""]);
    assert_eq!(split(" ", ' '), vec!["", ""]);
    assert_eq!(split("abc", ':'), vec!["abc"]);
    assert_eq!(split(":a:", ':'), vec!["", "a", ""]);
}

#[test]
fn split_counts_characters_not_bytes() {
    assert_eq!(split("é é", ' '), vec!["é", "é"]);
    assert_eq!(split("日本:語", ':'), vec!["日本", "語"]);
}

#[test]
fn chars_of_gives_every_character() {
    assert_eq!(chars_of("aé1"), vec!['a', 'é', '1']);
    assert_eq!(chars_of(""), Vec::<char>::new());
}

#[test]
fn parse_unsigned_reads_decimal_numbers() {
    assert_eq!(parse_unsigned("0", 255), Some(0));
    assert_eq!(parse_unsigned("255", 255), Some(255));
    assert_eq!(parse_unsigned("256", 255), None);
    assert_eq!(parse_unsigned("65535", 65535), Some(65535));
    assert_eq!(parse_unsigned("65536", 65535), None);
    assert_eq!(parse_unsigned("007", 255), Some(7));
    assert_eq!(parse_unsigned("+12", 255), Some(12));
    assert_eq!(parse_unsigned("000000000000000000000000000000000001", 255), Some(1));
    assert_eq!(parse_unsigned("99999999999999999999999999", 65535), None);
}

#[test]
fn parse_unsigned_refuses_what_is_no_number() {
    assert_eq!(parse_unsigned("", 255), None);
    assert_eq!(parse_unsigned("+", 255), None);
    assert_eq!(parse_unsigned("++1", 255), None);
    assert_eq!(parse_unsigned("-1", 255), None);
    assert_eq!(parse_unsigned("1a", 255), None);
    assert_eq!(parse_unsigned(" 1", 255), None);
    assert_eq!(parse_unsigned("1_0", 255), None);
    assert_eq!(parse_unsigned("١", 255), None);
}

#[test]
fn parse_unsigned_agrees_with_std() {
    for text in ["0", "1", "+7", "255", "256", "0255", "", "+", "x", "12x", "+-1"] {
        assert_eq!(parse_unsigned(text, 255), text.parse::<u8>().ok().map(u32::from));
        assert_eq!(parse_unsigned(text, 65535), text.parse::<u16>().ok().map(u32::from));
    }
}

#[test]
fn push_decimal_appends_the_digits() {
    let mut out = String::from("n=");
    push_decimal(&mut out, 0);
    assert_eq!(out, "n=0");
    push_decimal(&mut out, 8820);
    assert_eq!(out, "n=08820");
    let mut out = String::new();
    push_decimal(&mut out, u64::MAX);
    assert_eq!(out, "18446744073709551615");
}

#[test]
fn keywords_match_in_any_ascii_case() {
    assert!(is_keyword("JOIN", "join"));
    assert!(is_keyword("join", "join"));
    assert!(is_keyword("JoIn", "join"));
    assert!(!is_keyword("joint", "join"));
    assert!(!is_keyword("joi", "join"));
    assert!(!is_keyword("", "join"));
    assert!(!is_keyword("LOO\u{212A}UP", "lookup"));
}
