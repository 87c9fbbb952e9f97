use shell_prompt::text::{
    chars_of, join_path, parse_i32, parse_u32, push_decimal, push_signed_decimal, starts_with,
    trim_end, whitespace,
};

#[test]
fn characters_come_in_order() {
    assert_eq!(chars_of(""), Vec::<char>::new());
    assert_eq!(chars_of("a/\u{e9}\u{1d48e}"), vec!['a', '/', '\u{e9}', '\u{1d48e}']);
}

#[test]
fn decimal_numerals_are_written_without_padding() {
    for (number, numeral) in [
        (0u64, "0"),
        (7, "7"),
        (10, "10"),
        (4242, "4242"),
        (4294967295, "4294967295"),
        (u64::MAX, "18446744073709551615"),
    ] {
        let mut out = String::from("n=");
        push_decimal(&mut out, number);
        assert_eq!(out, format!("n={}", numeral));
    }
    for (number, numeral) in
        [(0i64, "0"), (-1, "-1"), (-2147483648, "-2147483648"), (2147483647, "2147483647")]
    {
        let mut out = String::new();
        push_signed_decimal(&mut out, number);
        assert_eq!(out, numeral);
    }
}

#[test]
fn signed_numbers_are_read_like_the_standard_library_does() {
    for text in [
        "0", "7", "+7", "-7", "-0", "+0", "007", "2147483647", "-2147483648", "2147483648",
        "-2147483649", "", "+", "-", "--1", "+-1", " 1", "1 ", "1_000", "12a", "a12", "1.5",
        "99999999999999999999999", "-99999999999999999999999", "0000000000000000000000012",
        "\u{661}",
    ] {
        assert_eq!(parse_i32(text), text.parse::<i32>().ok(), "for {:?}", text);
    }
    assert_eq!(parse_i32("-2147483648"), Some(i32::MIN));
    assert_eq!(parse_i32("2147483648"), None);
}

#[test]
fn unsigned_numbers_are_read_like_the_standard_library_does() {
    for text in [
        "0", "7", "+7", "-7", "-0", "+0", "007", "4294967295", "4294967296", "", "+", "-", " 1",
        "1 ", "12a", "99999999999999999999999", "0000000000000000000004294967295",
    ] {
        assert_eq!(parse_u32(text), text.parse::<u32>().ok(), "for {:?}", text);
    }
    assert_eq!(parse_u32("4294967295"), Some(u32::MAX));
    assert_eq!(parse_u32("-0"), None);
}

#[test]
fn white_space_is_what_unicode_says() {
    for code in 0u32..0x3100 {
        if let Some(c) = char::from_u32(code) {
            assert_eq!(whitespace(c), c.is_whitespace(), "for U+{:04X}", code);
        }
    }
    assert!(!whitespace('\u{feff}'));
    assert!(!whitespace('\u{200b}'));
}

#[test]
fn trailing_white_space_is_cut() {
    for text in [
        "", " ", "abc", "abc\n", "abc \t\r\n", "  abc  ", "a b \u{a0}\u{3000}", "\n\n", "x\u{200b}",
        "ref: refs/heads/main\n",
    ] {
        assert_eq!(trim_end(text), text.trim_end(), "for {:?}", text);
    }
    assert_eq!(trim_end("0123abc\n"), "0123abc");
}

#[test]
fn prefixes_are_found() {
    assert!(starts_with("0000abc", "0000"));
    assert!(starts_with("0000", "0000"));
    assert!(starts_with("abc", ""));
    assert!(starts_with("", ""));
    assert!(!starts_with("000", "0000"));
    assert!(!starts_with("a0000", "0000"));
    assert!(!starts_with("", "0"));
}

#[test]
fn paths_are_joined_like_the_standard_library_does() {
    for (dir, name) in [
        ("/tmp", "x.json"),
        ("/tmp/", "x.json"),
        ("", "x.json"),
        ("/", ".git"),
        ("rel/dir", "HEAD"),
        ("/a//", "b/c"),
        ("/repo", ""),
    ] {
        assert_eq!(
            std::path::PathBuf::from(join_path(dir, name)),
            std::path::Path::new(dir).join(name),
            "for {:?} and {:?}",
            dir,
            name
        );
        assert_eq!(
            join_path(dir, name),
            std::path::Path::new(dir).join(name).to_str().unwrap(),
            "for {:?} and {:?}",
            dir,
            name
        );
    }
    assert_eq!(join_path("/tmp", "x"), "/tmp/x");
}
