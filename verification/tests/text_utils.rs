use ease_md_core::text::{
    chars_of, decimal_text, digit_of, joined, parse_index, starts_with, text_between, text_of,
    trim, white_space,
};

#[test]
fn chars_and_text_are_inverse() {
    let chars = chars_of("héllo ✓");
    assert_eq!(chars, vec!['h', 'é', 'l', 'l', 'o', ' ', '✓']);
    assert_eq!(text_of(&chars), "héllo ✓");
    assert_eq!(text_between(&chars, 1, 4), "éll");
    assert_eq!(text_between(&chars, 3, 3), "");
}

#[test]
fn joined_appends() {
    assert_eq!(joined("recent:", "12"), "recent:12");
    assert_eq!(joined("", ""), "");
}

#[test]
fn starts_with_decides_prefixes() {
    let id = chars_of("recent:3");
    assert!(starts_with(&id, &chars_of("recent:")));
    assert!(starts_with(&id, &chars_of("")));
    assert!(starts_with(&id, &chars_of("recent:3")));
    assert!(!starts_with(&id, &chars_of("recent:30")));
    assert!(!starts_with(&id, &chars_of("Recent:")));
}

#[test]
fn white_space_is_the_unicode_property() {
    let mut code: u32 = 0;
    while code <= 0x10FFFF {
        if let Some(c) = char::from_u32(code) {
            assert_eq!(white_space(c), c.is_whitespace(), "U+{:04X}", code);
        }
        code += 1;
    }
}

#[test]
fn trim_removes_both_ends_only() {
    assert_eq!(trim("  a b \n"), "a b");
    assert_eq!(trim("\u{3000}x\u{85}"), "x");
    assert_eq!(trim(""), "");
    assert_eq!(trim(" \t\r\n"), "");
    assert_eq!(trim("bad flag"), "bad flag");
}

#[test]
fn trim_agrees_with_the_standard_library() {
    let samples = [
        "", " ", "a", " a", "a ", "\n\ta b\u{2028}", "\u{a0}x\u{a0}y\u{a0}", "\u{200b}z ",
        "  {\"url\":\"u\"}  \r\n",
    ];
    for sample in samples {
        assert_eq!(trim(sample), sample.trim());
    }
}

#[test]
fn decimal_text_of_numbers() {
    assert_eq!(decimal_text(0), "0");
    assert_eq!(decimal_text(9), "9");
    assert_eq!(decimal_text(10), "10");
    assert_eq!(decimal_text(1700000000123), "1700000000123");
    assert_eq!(decimal_text(u128::MAX), u128::MAX.to_string());
}

#[test]
fn digit_of_characters() {
    assert_eq!(digit_of('0'), Some(0));
    assert_eq!(digit_of('9'), Some(9));
    assert_eq!(digit_of('a'), None);
    assert_eq!(digit_of('٣'), None);
}

#[test]
fn parse_index_reads_unsigned_numerals() {
    assert_eq!(parse_index("0"), Some(0));
    assert_eq!(parse_index("42"), Some(42));
    assert_eq!(parse_index("+7"), Some(7));
    assert_eq!(parse_index("007"), Some(7));
    assert_eq!(parse_index(""), None);
    assert_eq!(parse_index("+"), None);
    assert_eq!(parse_index("-1"), None);
    assert_eq!(parse_index("1a"), None);
    assert_eq!(parse_index(" 1"), None);
    assert_eq!(parse_index("++1"), None);
    assert_eq!(parse_index("1.0"), None);
}

#[test]
fn parse_index_stops_at_the_machine_limit() {
    assert_eq!(parse_index(&usize::MAX.to_string()), Some(usize::MAX));
    assert_eq!(parse_index("340282366920938463463374607431768211456"), None);
    let beyond = format!("{}0", usize::MAX);
    assert_eq!(parse_index(&beyond), None);
}

#[test]
fn parse_index_agrees_with_the_standard_library() {
    let samples = ["0", "1", "+1", "-0", "00", "12x", "", "+", "９", "4294967296", "99999999999999999999999"];
    for sample in samples {
        assert_eq!(parse_index(sample), sample.parse::<usize>().ok(), "{}", sample);
    }
}

#[test]
fn parse_index_reads_back_decimal_text() {
    for n in [0usize, 1, 9, 10, 99, 100, 65535, 1234567] {
        assert_eq!(parse_index(&decimal_text(n as u128)), Some(n));
    }
}
