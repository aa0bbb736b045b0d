use alfred::text::{
    decimal, ends_with, is_whitespace_char, replace_all, same_text, second_field, starts_with,
    strip_prefix, strip_suffix, trim,
};

#[test]
fn trim_removes_unicode_white_space_at_both_ends() {
    assert_eq!(trim("  hello world \n"), "hello world");
    assert_eq!(trim("\u{3000}\u{2003}x\u{85}\u{a0}"), "x");
    assert_eq!(trim(" \t\r\n"), "");
    assert_eq!(trim(""), "");
    assert_eq!(trim("a b"), "a b");
}

#[test]
fn trim_agrees_with_std_trim() {
    for s in ["", " a ", "\u{200b}x\u{200b}", "\u{1680}y\u{202f}", "\u{1c}z", "\u{b}\u{c}w"] {
        assert_eq!(trim(s), s.trim());
    }
}

#[test]
fn white_space_matches_char_is_whitespace() {
    for c in ['\t', '\n', '\u{b}', '\u{c}', '\r', ' ', '\u{85}', '\u{a0}', '\u{1680}', '\u{2000}',
        '\u{200a}', '\u{2028}', '\u{2029}', '\u{202f}', '\u{205f}', '\u{3000}', 'a', '\u{200b}',
        '\u{180e}', '\u{1f}', '\u{feff}']
    {
        assert_eq!(is_whitespace_char(c), c.is_whitespace(), "{:?}", c);
    }
}

#[test]
fn prefixes_and_suffixes() {
    assert!(starts_with("```abc", "```"));
    assert!(!starts_with("``", "```"));
    assert!(ends_with("abc```", "```"));
    assert!(!ends_with("c", "```"));
    assert_eq!(strip_prefix("```abc", "```"), Some("abc"));
    assert_eq!(strip_prefix("abc", "```"), None);
    assert_eq!(strip_suffix("abc`", "`"), Some("abc"));
    assert_eq!(strip_suffix("abc", "`"), None);
    assert_eq!(strip_suffix("ä`", "`"), Some("ä"));
}

#[test]
fn same_text_compares_characters() {
    assert!(same_text("cat", "cat"));
    assert!(!same_text("cat", "cats"));
    assert!(!same_text("cat", "dog"));
    assert!(same_text("", ""));
}

#[test]
fn decimal_numerals() {
    assert_eq!(decimal(0), "0");
    assert_eq!(decimal(7), "7");
    assert_eq!(decimal(10), "10");
    assert_eq!(decimal(20979), "20979");
    assert_eq!(decimal(u64::MAX), u64::MAX.to_string());
}

#[test]
fn replace_all_replaces_from_the_left() {
    assert_eq!(replace_all("https://x/square.jpg", "square", "large"), "https://x/large.jpg");
    assert_eq!(replace_all("squaresquare", "square", "large"), "largelarge");
    assert_eq!(replace_all("aaa", "aa", "b"), "ba");
    assert_eq!(replace_all("squar", "square", "large"), "squar");
    assert_eq!(replace_all("", "square", "large"), "");
    assert_eq!(replace_all("ääsquareö", "square", "l"), "äälö");
}

#[test]
fn second_field_is_split_nth_one() {
    for s in ["image/jpeg", "text", "a/b/c", "image/", "/x", "", "//"] {
        assert_eq!(second_field(s, '/'), s.split('/').nth(1), "{:?}", s);
    }
}
