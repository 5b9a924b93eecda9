use data_generator::text::{
    chars_of, eq_ignoring_case, first_token, is_whitespace, parse_unsigned, push_decimal,
    same_text, starts_with_hyphen, without_hyphens,
};

#[test]
fn chars_of_lists_the_characters() {
    assert_eq!(chars_of(""), Vec::<char>::new());
    assert_eq!(chars_of("aé☃"), vec!['a', 'é', '☃']);
}

#[test]
fn white_space_is_unicode_white_space() {
    let mut c = 0u32;
    while c <= 0x10FFFF {
        if let Some(ch) = char::from_u32(c) {
            assert_eq!(is_whitespace(ch), ch.is_whitespace(), "U+{:04X}", c);
        }
        c += 1;
    }
}

#[test]
fn first_token_is_cut_at_white_space() {
    let word = |text: &str| first_token(text).into_iter().collect::<String>();
    assert_eq!(word("send"), "send");
    assert_eq!(word("  send  "), "send");
    assert_eq!(word("\t send\u{2028}rest of it"), "send");
    assert_eq!(word(""), "");
    assert_eq!(word(" \n "), "");
    assert_eq!(word("a b c"), "a");
    for text in ["one two", "  x", "x  ", "\u{a0}é \u{3000}", "", "   "] {
        assert_eq!(word(text), text.split_whitespace().next().unwrap_or(""));
    }
}

#[test]
fn comparison_ignores_ascii_case_only() {
    assert!(eq_ignoring_case(&chars_of("NoNe"), "none"));
    assert!(eq_ignoring_case(&chars_of("none"), "NONE"));
    assert!(eq_ignoring_case(&chars_of(""), ""));
    assert!(!eq_ignoring_case(&chars_of("non"), "none"));
    assert!(!eq_ignoring_case(&chars_of("nonee"), "none"));
    assert!(!eq_ignoring_case(&chars_of("n0ne"), "none"));
    assert!(!eq_ignoring_case(&chars_of("É"), "é"));
    assert!(!eq_ignoring_case(&chars_of("@"), "`"));
    assert!(!eq_ignoring_case(&chars_of("["), "{"));
    for (a, b) in [("Hello", "hELLO"), ("a1_", "A1_"), ("K", "\u{212a}"), ("z", "Z"), ("Z", "{")] {
        assert_eq!(eq_ignoring_case(&chars_of(a), b), a.eq_ignore_ascii_case(b), "{:?} {:?}", a, b);
    }
}

#[test]
fn same_text_is_equality() {
    assert!(same_text("true", "true"));
    assert!(!same_text("true", "True"));
    assert!(!same_text("true", "true "));
    assert!(same_text("", ""));
}

#[test]
fn hyphens_are_stripped_from_the_start() {
    for text in ["--port", "-p", "p", "", "-", "---", "a-b", "-a-b-", "–x", "- -x"] {
        assert_eq!(without_hyphens(text), text.trim_start_matches("-"), "{:?}", text);
        assert_eq!(starts_with_hyphen(text), text.starts_with("-"), "{:?}", text);
    }
}

#[test]
fn unsigned_literals_are_read_as_the_standard_parser_reads_them() {
    let texts = [
        "0", "7", "42", "007", "+0", "+42", "-0", "-42", "", "+", "-", "++1", "+-1", "1+", " 1", "1 ",
        "1_0", "1e3", "0x1f", "١٢", "１", "4294967295", "4294967296", "18446744073709551615",
        "18446744073709551616", "184467440737095516150", "99999999999999999999999999999999",
        "000000000000000000000000000000000001", "12a", "a12", "1.0",
    ];
    for text in texts {
        assert_eq!(parse_unsigned(text, u64::MAX), text.parse::<u64>().ok(), "{:?}", text);
        assert_eq!(
            parse_unsigned(text, u32::MAX as u64),
            text.parse::<u32>().ok().map(u64::from),
            "{:?}",
            text
        );
        assert_eq!(
            parse_unsigned(text, u8::MAX as u64),
            text.parse::<u8>().ok().map(u64::from),
            "{:?}",
            text
        );
    }
}

#[test]
fn unsigned_literals_have_exact_values() {
    assert_eq!(parse_unsigned("65535", 65535), Some(65535));
    assert_eq!(parse_unsigned("65536", 65535), None);
    assert_eq!(parse_unsigned("0", 0), Some(0));
    assert_eq!(parse_unsigned("1", 0), None);
    assert_eq!(parse_unsigned("+100", 100), Some(100));
}

#[test]
fn decimal_digits_are_written_most_significant_first() {
    for n in [0u128, 1, 9, 10, 11, 99, 100, 101, 1234567890, u64::MAX as u128, u128::MAX] {
        let mut out = String::from(">");
        push_decimal(&mut out, n);
        assert_eq!(out, format!(">{}", n));
    }
}

#[test]
fn written_digits_read_back() {
    for n in [0u64, 5, 10, 1001, 65535, u64::MAX] {
        let mut out = String::new();
        push_decimal(&mut out, n as u128);
        assert_eq!(parse_unsigned(&out, u64::MAX), Some(n));
    }
}
