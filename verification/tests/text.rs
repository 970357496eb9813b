use talon_pilot_studio::text::{
    decimal_text, join, lines, same_text, signed_decimal_text, starts_with, strip_prefix, trim,
    trim_end_set, trim_start_set, words, CharSet,
};

#[test]
fn white_space_is_that_of_the_standard_library() {
    for n in 0..=0x10ffff {
        if let Some(c) = char::from_u32(n) {
            assert_eq!(CharSet::WhiteSpace.contains(c), c.is_whitespace(), "{n:x}");
        }
    }
}

#[test]
fn trimming_is_that_of_the_standard_library() {
    for s in ["", " ", " a ", "\u{3000}a b\u{a0}\n", "ab", "\t\t", "é "] {
        assert_eq!(trim(s), s.trim());
        assert_eq!(trim_start_set(s, CharSet::Only('\t')), s.trim_start_matches('\t'));
        assert_eq!(trim_end_set(s, CharSet::Only(' ')), s.trim_end_matches(' '));
    }
}

#[test]
fn prefixes_and_equality() {
    assert_eq!(strip_prefix("añb", "añ"), Some("b"));
    assert_eq!(strip_prefix("añb", "añbc"), None);
    assert!(starts_with("abc", ""));
    assert!(same_text("añ", "añ"));
    assert!(!same_text("ab", "a"));
    assert!(!same_text("a", "ab"));
}

#[test]
fn lines_end_at_line_feeds() {
    assert_eq!(lines("a\n\nb\n"), ["a", "", "b"]);
    assert_eq!(lines("a"), ["a"]);
    assert!(lines("").is_empty());
    assert_eq!(lines("\n"), [""]);
}

#[test]
fn joining_puts_the_separator_between() {
    assert_eq!(join(&words(&["a", "b", "c"]), ", "), "a, b, c");
    assert_eq!(join(&words(&["a"]), ", "), "a");
    assert_eq!(join(&Vec::new(), ", "), "");
}

#[test]
fn numbers_are_those_of_the_standard_library() {
    for n in [0u64, 7, 10, 99, 100, 12345, u64::MAX] {
        assert_eq!(decimal_text(n), n.to_string());
    }
    for n in [0i128, -1, 42, -(u64::MAX as i128), u64::MAX as i128] {
        assert_eq!(signed_decimal_text(n), n.to_string());
    }
}
