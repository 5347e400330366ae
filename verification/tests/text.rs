use voice_clip::text::{
    chars_of, head, is_whitespace, join, same_text, split_lines, split_once, strip_prefix, trim,
    trim_matches, Strip,
};

#[test]
fn whitespace_is_that_of_unicode() {
    for code in 0u32..0x110000u32 {
        if let Some(c) = char::from_u32(code) {
            assert_eq!(is_whitespace(c), c.is_whitespace(), "U+{:04X}", code);
        }
    }
}

#[test]
fn chars_come_in_order() {
    assert_eq!(chars_of("a\u{25cf}b"), vec!['a', '\u{25cf}', 'b']);
    assert_eq!(chars_of(""), Vec::<char>::new());
}

#[test]
fn trimming_takes_white_space_off_both_ends() {
    for s in ["", " ", "  a b \t\r\n", "a", "\u{3000}x\u{a0}", "\n\n"] {
        assert_eq!(trim(s), s.trim());
    }
}

#[test]
fn trimming_takes_one_character_off_both_ends() {
    for s in ["\"\"a\"b\"", "\"", "", "a\"", "''", "\"'x'\""] {
        assert_eq!(trim_matches(s, &Strip::Only('"')), s.trim_matches('"'));
        assert_eq!(trim_matches(s, &Strip::Only('\'')), s.trim_matches('\''));
    }
}

#[test]
fn prefixes_come_off() {
    assert_eq!(strip_prefix("toggle x", "toggle"), Some(" x"));
    assert_eq!(strip_prefix("toggle", "toggle"), Some(""));
    assert_eq!(strip_prefix("togg", "toggle"), None);
    assert_eq!(strip_prefix("status", "toggle"), None);
    assert_eq!(strip_prefix("\u{25cf}x", "\u{25cf}"), Some("x"));
}

#[test]
fn a_text_is_cut_at_the_first_separator() {
    assert_eq!(split_once("a=b=c", '='), Some(("a", "b=c")));
    assert_eq!(split_once("=", '='), Some(("", "")));
    assert_eq!(split_once("abc", '='), None);
}

#[test]
fn lines_lie_between_line_feeds() {
    assert_eq!(split_lines("a\n\nb\r\n"), vec!["a", "", "b\r", ""]);
    assert_eq!(split_lines(""), vec![""]);
}

#[test]
fn texts_are_joined_compared_and_shortened() {
    assert_eq!(join("ab", "cd"), "abcd");
    assert!(same_text("ab", "ab"));
    assert!(!same_text("ab", "ac"));
    assert_eq!(head("\u{e9}\u{e8}abc", 3), "\u{e9}\u{e8}a");
    assert_eq!(head("ab", 3), "ab");
}
