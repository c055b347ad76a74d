use borg_tool::text::{
    contains, decimal_string, find_char, find_last_char, find_name, find_sub,
    from_chars, is_blank, is_whitespace, join_with, matches_at, no_texts, padded, push_text, push_texts,
    same_text, split_on, sub_chars, text2, text3, text4, text5, text6, text7, to_chars,
    trim_bounds, trimmed,
};

fn chars(s: &str) -> Vec<char> {
    s.chars().collect()
}

#[test]
fn to_chars_gives_every_character_in_order() {
    assert_eq!(to_chars("héllo"), vec!['h', 'é', 'l', 'l', 'o']);
    assert_eq!(to_chars(""), Vec::<char>::new());
}

#[test]
fn from_chars_builds_the_window() {
    let v = chars("archive");
    assert_eq!(from_chars(&v, 0, 7), "archive");
    assert_eq!(from_chars(&v, 2, 5), "chi");
    assert_eq!(from_chars(&v, 3, 3), "");
}

#[test]
fn sub_chars_copies_the_window() {
    let v = chars("archive");
    assert_eq!(sub_chars(&v, 1, 4), chars("rch"));
    assert_eq!(sub_chars(&v, 7, 7), chars(""));
}

#[test]
fn same_text_compares_contents() {
    assert!(same_text("borg", "borg"));
    assert!(!same_text("borg", "Borg"));
    assert!(!same_text("borg", "borg "));
    assert!(same_text("", ""));
}

#[test]
fn find_char_gives_first_position_or_length() {
    assert_eq!(find_char(&chars("a:b:c"), ':'), 1);
    assert_eq!(find_char(&chars(":"), ':'), 0);
    assert_eq!(find_char(&chars("abc"), ':'), 3);
    assert_eq!(find_char(&chars(""), ':'), 0);
}

#[test]
fn find_last_char_gives_position_behind_the_last() {
    assert_eq!(find_last_char(&chars("a@b@c"), '@'), 4);
    assert_eq!(find_last_char(&chars("abc"), '@'), 0);
    assert_eq!(find_last_char(&chars("abc@"), '@'), 4);
}

#[test]
fn matches_at_checks_one_position() {
    let v = chars("ssh://host");
    let m = chars("://");
    assert!(matches_at(&v, &m, 3));
    assert!(!matches_at(&v, &m, 2));
    assert!(!matches_at(&v, &m, 8));
    assert!(!matches_at(&v, &m, 100));
    assert!(matches_at(&v, &chars(""), 10));
    assert!(!matches_at(&chars("ab"), &chars("abc"), 0));
}

#[test]
fn find_sub_gives_first_occurrence_or_length() {
    assert_eq!(find_sub(&chars("a://b://c"), &chars("://")), 1);
    assert_eq!(find_sub(&chars("abc"), &chars("://")), 3);
    assert_eq!(find_sub(&chars("abc"), &chars("")), 0);
    assert_eq!(find_sub(&chars(""), &chars("")), 0);
}

#[test]
fn contains_finds_a_pattern_anywhere() {
    assert!(contains("error: permission denied (publickey)", "permission denied"));
    assert!(contains("permission denied", "permission denied"));
    assert!(!contains("permission denie", "permission denied"));
    assert!(!contains("Permission denied", "permission denied"));
    assert!(contains("anything", ""));
    assert!(contains("", ""));
    assert!(!contains("", "x"));
}

#[test]
fn trimmed_removes_whitespace_at_both_ends() {
    assert_eq!(trimmed("  a b \t\n"), "a b");
    assert_eq!(trimmed("a"), "a");
    assert_eq!(trimmed(" \u{a0}x\u{2003}"), "x");
    assert_eq!(trimmed("   "), "");
    assert_eq!(trimmed(""), "");
}

#[test]
fn trim_bounds_are_lead_and_trail() {
    assert_eq!(trim_bounds(&chars("  ab ")), (2, 4));
    assert_eq!(trim_bounds(&chars("   ")), (3, 0));
    assert_eq!(trim_bounds(&chars("")), (0, 0));
    assert_eq!(trim_bounds(&chars("ab")), (0, 2));
}

#[test]
fn is_blank_tells_whitespace_only() {
    assert!(is_blank(""));
    assert!(is_blank(" \t\r\n"));
    assert!(!is_blank(" x "));
}

#[test]
fn split_on_gives_one_piece_more_than_separators() {
    assert_eq!(split_on("a,b,,c", ','), vec!["a", "b", "", "c"]);
    assert_eq!(split_on("", ','), vec![""]);
    assert_eq!(split_on(",", ','), vec!["", ""]);
    assert_eq!(split_on("abc", ','), vec!["abc"]);
    assert_eq!(split_on("a\nb\n", '\n'), vec!["a", "b", ""]);
}

#[test]
fn join_with_puts_the_separator_between() {
    let names = vec!["a".to_string(), "b".to_string(), "c".to_string()];
    assert_eq!(join_with(&names, ", "), "a, b, c");
    assert_eq!(join_with(&vec!["only".to_string()], ", "), "only");
    assert_eq!(join_with(&Vec::new(), ", "), "");
}

#[test]
fn decimal_string_writes_digits() {
    assert_eq!(decimal_string(0), "0");
    assert_eq!(decimal_string(7), "7");
    assert_eq!(decimal_string(10), "10");
    assert_eq!(decimal_string(1234567890), "1234567890");
    assert_eq!(decimal_string(usize::MAX), usize::MAX.to_string());
}

#[test]
fn padded_fills_up_with_spaces() {
    assert_eq!(padded("d", 6), "d     ");
    assert_eq!(padded("", 3), "   ");
    assert_eq!(padded("abcdef", 6), "abcdef");
    assert_eq!(padded("abcdefgh", 6), "abcdefgh");
    assert_eq!(padded("ä", 3), "ä  ");
}

#[test]
fn texts_are_put_in_a_row() {
    assert_eq!(text2("a", "b"), "ab");
    assert_eq!(text3("a", "b", "c"), "abc");
    assert_eq!(text4("a", "b", "c", "d"), "abcd");
    assert_eq!(text5("a", "b", "c", "d", "e"), "abcde");
    assert_eq!(text6("a", "b", "c", "d", "e", "f"), "abcdef");
    assert_eq!(text7("a", "b", "c", "d", "e", "f", "g"), "abcdefg");
}

#[test]
fn find_name_gives_first_position_or_count() {
    let names = vec!["a".to_string(), "b".to_string(), "a".to_string()];
    assert_eq!(find_name(&names, "a"), 0);
    assert_eq!(find_name(&names, "b"), 1);
    assert_eq!(find_name(&names, "c"), 3);
    assert_eq!(find_name(&Vec::new(), "a"), 0);
}

#[test]
fn lists_of_texts_grow_at_the_end() {
    let mut list = no_texts();
    assert!(list.is_empty());
    push_text(&mut list, "a");
    push_text(&mut list, "b");
    assert_eq!(list, vec!["a", "b"]);
    push_texts(&mut list, &vec!["c".to_string(), "d".to_string()]);
    assert_eq!(list, vec!["a", "b", "c", "d"]);
    push_texts(&mut list, &vec![]);
    assert_eq!(list.len(), 4);
}

#[test]
fn whitespace_is_the_unicode_property() {
    let mut count = 0;
    for n in 0..=0x10FFFFu32 {
        if let Some(c) = char::from_u32(n) {
            assert_eq!(is_whitespace(c), c.is_whitespace(), "U+{n:04X}");
            if is_whitespace(c) {
                count += 1;
            }
        }
    }
    assert_eq!(count, 25);
}

#[test]
fn whitespace_includes_the_common_blanks_and_no_letters() {
    for c in [' ', '\t', '\n', '\r', '\u{a0}', '\u{2003}', '\u{3000}'] {
        assert!(is_whitespace(c));
    }
    for c in ['a', '/', ',', '0', '\u{200b}', '\u{180e}', '\u{feff}'] {
        assert!(!is_whitespace(c));
    }
}

#[test]
fn trimmed_agrees_with_the_standard_library() {
    for s in [
        "  a b \t\n",
        "\u{a0}x\u{2003}",
        "\u{200b}x\u{200b}",
        " \u{3000} ",
        "",
        "x",
        "\r\n{\"path\": \"a\"}\r",
    ] {
        assert_eq!(trimmed(s), s.trim(), "{s:?}");
    }
}
