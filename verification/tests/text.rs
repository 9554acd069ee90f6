use capping::text::{
    char_is_sep, char_is_space, chars_of, decimal_string, digit_str, equals_str, first_token_str,
    parse_decimal, parse_decimal_str, push_decimal, scan_char, scan_colon_space, scan_seps,
    scan_word, split_tokens, str_equals, trim_str,
};

#[test]
fn whitespace_classes() {
    for c in [' ', '\t', '\n', '\r', '\u{c}'] {
        assert!(char_is_sep(c, true));
        assert!(char_is_space(c));
    }
    for c in ['\u{b}', '\u{85}', '\u{a0}', '\u{1680}', '\u{2000}', '\u{200a}', '\u{2028}', '\u{3000}'] {
        assert!(!char_is_sep(c, true));
        assert!(char_is_sep(c, false));
        assert_eq!(char_is_space(c), c.is_whitespace());
    }
    for c in ['a', '0', ':', '\u{200b}', '\u{feff}', '\u{0}'] {
        assert!(!char_is_space(c));
        assert_eq!(char_is_space(c), c.is_whitespace());
    }
}

#[test]
fn trimming_matches_the_standard_library() {
    for s in ["", "   ", " a b ", "\u{a0}x\u{3000}", "x", "\t\n", " \u{200b} "] {
        assert_eq!(trim_str(s), s.trim());
    }
}

#[test]
fn tokens_match_the_standard_library() {
    for s in ["", "  ", "a", " a  b\tc\n", "a\u{a0}b c", "\u{b}a"] {
        let unicode: Vec<&str> = s.split_whitespace().collect();
        let ascii: Vec<&str> = s.split_ascii_whitespace().collect();
        assert_eq!(split_tokens(s, false), unicode);
        assert_eq!(split_tokens(s, true), ascii);
        assert_eq!(first_token_str(s, true), ascii.first().copied());
        assert_eq!(first_token_str(s, false), unicode.first().copied());
    }
}

#[test]
fn scanning() {
    let v = chars_of("  ab: c:d");
    assert_eq!(v.len(), 9);
    assert_eq!(scan_seps(&v, 0, true), 2);
    assert_eq!(scan_word(&v, 2, true), 5);
    assert_eq!(scan_char(&v, 0, ':'), 4);
    assert_eq!(scan_char(&v, 5, ':'), 7);
    assert_eq!(scan_char(&v, 8, ':'), 9);
    assert_eq!(scan_colon_space(&v, 0), 4);
    assert_eq!(scan_colon_space(&v, 5), 9);
    assert!(equals_str(&v, "  ab: c:d"));
    assert!(!equals_str(&v, "  ab: c:e"));
    assert!(!equals_str(&v, "  ab"));
    assert!(str_equals("é", "é"));
    assert!(!str_equals("e", "é"));
}

#[test]
fn decimals_match_the_standard_library() {
    for s in ["0", "42", "+42", "0042", "18446744073709551615", "18446744073709551616", "", "+", "-1", "4 2", "４２", "1e3", "99999999999999999999999"] {
        assert_eq!(parse_decimal_str(s), s.parse::<u64>().ok());
        assert_eq!(parse_decimal(&chars_of(s)), s.parse::<u64>().ok());
    }
    for n in [0u64, 7, 10, 99, 100, 580, 1_000_000, u64::MAX] {
        assert_eq!(decimal_string(n), n.to_string());
        assert_eq!(parse_decimal_str(&decimal_string(n)), Some(n));
    }
    let mut s = String::from("pkg");
    push_decimal(&mut s, 16);
    assert_eq!(s, "pkg16");
    assert_eq!(digit_str(0), "0");
    assert_eq!(digit_str(9), "9");
}

#[test]
fn whitespace_classes_match_the_standard_library_on_every_character() {
    for code in 0..=0x10FFFFu32 {
        if let Some(c) = char::from_u32(code) {
            assert_eq!(char_is_space(c), c.is_whitespace());
            assert_eq!(char_is_sep(c, false), c.is_whitespace());
            assert_eq!(char_is_sep(c, true), c.is_ascii_whitespace());
        }
    }
}
