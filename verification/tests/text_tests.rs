use transglass::text::{is_whitespace, same_text, split_on, trim};

#[test]
fn trimming_follows_unicode_whitespace() {
    assert_eq!(trim("  a b \t\n"), "a b");
    assert_eq!(trim("\u{3000}\u{85}x\u{2029}"), "x");
    assert_eq!(trim("\u{200B}x"), "\u{200B}x");
    assert_eq!(trim("   "), "");
    assert_eq!(trim(""), "");
    for c in ['\t', '\n', '\r', ' ', '\u{a0}', '\u{1680}', '\u{2000}', '\u{200a}', '\u{202f}', '\u{205f}', '\u{3000}', 'a', '\u{200b}', '_'] {
        assert_eq!(is_whitespace(c), c.is_whitespace(), "{:?}", c);
    }
    for s in ["  ALT ", "\u{3000}f1\t", "x", " + ", "é  "] {
        assert_eq!(trim(s), s.trim());
    }
}

#[test]
fn splitting_matches_str_split() {
    for s in ["ALT+SHIFT", "a++b", "+", "", "ctrl + win", "plain"] {
        let expected: Vec<&str> = s.split('+').collect();
        assert_eq!(split_on(s, '+'), expected);
    }
}

#[test]
fn text_equality() {
    assert!(same_text("abc", "abc"));
    assert!(!same_text("abc", "abd"));
    assert!(!same_text("ab", "abc"));
    assert!(same_text("", ""));
}
