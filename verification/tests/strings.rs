use license_gen::strings::{
    chars_of, is_whitespace, parse_u16, split_and_trim, split_lines, str_eq, trim, u16_to_string,
};

#[test]
fn white_space_is_what_unicode_says_it_is() {
    for code in 0..=0x10ffffu32 {
        if let Some(c) = char::from_u32(code) {
            assert_eq!(is_whitespace(c), c.is_whitespace(), "U+{code:04X}");
        }
    }
    assert!(is_whitespace(' '));
    assert!(is_whitespace('\n'));
    assert!(is_whitespace('\u{3000}'));
    assert!(!is_whitespace('\u{200b}'));
    assert!(!is_whitespace('a'));
}

#[test]
fn trim_removes_the_white_space_around() {
    assert_eq!(trim("  hi \n"), "hi");
    assert_eq!(trim("\t a b \r\n"), "a b");
    assert_eq!(trim(""), "");
    assert_eq!(trim(" \n\t"), "");
    assert_eq!(trim("x"), "x");
    assert_eq!(trim("\u{a0}x\u{3000}"), "x");
    assert_eq!(trim("\u{2003}é \u{2028}"), "é");
}

#[test]
fn trim_agrees_with_the_standard_library() {
    for s in ["", " ", "a", " a", "a ", " a b ", "\n\n", "\u{85}z\u{85}", "\u{200b}x", "  日本 語\t"] {
        assert_eq!(trim(s), s.trim(), "{s:?}");
    }
}

#[test]
fn numbers_are_read_as_the_standard_library_reads_them() {
    assert_eq!(parse_u16("2025"), Some(2025));
    assert_eq!(parse_u16("0"), Some(0));
    assert_eq!(parse_u16("+7"), Some(7));
    assert_eq!(parse_u16("65535"), Some(65535));
    assert_eq!(parse_u16("65536"), None);
    assert_eq!(parse_u16("0000000000000000000065535"), Some(65535));
    assert_eq!(parse_u16("99999999999999999999"), None);
    assert_eq!(parse_u16(""), None);
    assert_eq!(parse_u16("+"), None);
    assert_eq!(parse_u16("-1"), None);
    assert_eq!(parse_u16("-0"), None);
    assert_eq!(parse_u16("++1"), None);
    assert_eq!(parse_u16("12a"), None);
    assert_eq!(parse_u16(" 12"), None);
    assert_eq!(parse_u16("1 2"), None);
    assert_eq!(parse_u16("１２"), None);
    for s in ["2025", "+7", "65535", "65536", "", "+", "-1", "007", "1e3", "0x10", "٣"] {
        assert_eq!(parse_u16(s), s.parse::<u16>().ok(), "{s:?}");
    }
}

#[test]
fn numbers_are_written_without_sign_or_leading_zeros() {
    assert_eq!(u16_to_string(0), "0");
    assert_eq!(u16_to_string(7), "7");
    assert_eq!(u16_to_string(10), "10");
    assert_eq!(u16_to_string(2025), "2025");
    assert_eq!(u16_to_string(65535), "65535");
    for n in [0u16, 9, 10, 99, 100, 101, 1000, 9999, 10000, 40000, 65535] {
        assert_eq!(u16_to_string(n), n.to_string());
        assert_eq!(parse_u16(&u16_to_string(n)), Some(n));
    }
}

#[test]
fn a_list_is_split_at_commas_and_trimmed() {
    assert_eq!(split_and_trim("MIT, Apache-2.0", ','), ["MIT", "Apache-2.0"]);
    assert_eq!(split_and_trim("MIT", ','), ["MIT"]);
    assert_eq!(split_and_trim(" a ,b,  c d ", ','), ["a", "b", "c d"]);
    assert_eq!(split_and_trim("a,,b,", ','), ["a", "", "b", ""]);
    assert_eq!(split_and_trim("", ','), [""]);
    assert_eq!(split_and_trim(",", ','), ["", ""]);
    assert_eq!(split_and_trim("MIT,MIT", ','), ["MIT", "MIT"]);
    assert_eq!(split_and_trim("a;b", ';'), ["a", "b"]);
}

#[test]
fn lines_are_split_as_the_standard_library_splits_them() {
    assert_eq!(split_lines("a\nb"), ["a", "b"]);
    assert_eq!(split_lines("a\nb\n"), ["a", "b"]);
    assert_eq!(split_lines("a\r\nb\r\n"), ["a", "b"]);
    assert_eq!(split_lines("a\n\nb"), ["a", "", "b"]);
    assert_eq!(split_lines("a\r"), ["a\r"]);
    assert_eq!(split_lines(""), Vec::<String>::new());
    assert_eq!(split_lines("\n"), [""]);
    for s in ["", "a", "a\n", "\n", "\n\n", "a\r\n", "a\r", "\r\n", "a\rb\n", "a\r\r\nb", "x\n\ny\n\n", "é\nü"] {
        let expected: Vec<String> = s.lines().map(str::to_string).collect();
        assert_eq!(split_lines(s), expected, "{s:?}");
    }
}

#[test]
fn texts_are_compared_character_by_character() {
    assert!(str_eq("yes", "yes"));
    assert!(str_eq("", ""));
    assert!(!str_eq("yes", "Yes"));
    assert!(!str_eq("yes", "yes "));
    assert_eq!(chars_of("aé"), ['a', 'é']);
}
