use atuin_ai::text::{count_leading_white_space, is_blank_str, is_whitespace, text_eq, trim_start_str};

#[test]
fn whitespace_matches_std() {
    for c in ['\t', '\n', '\u{b}', '\u{c}', '\r', ' ', '\u{85}', '\u{a0}', '\u{1680}', '\u{2000}', '\u{200a}', '\u{2028}', '\u{2029}', '\u{202f}', '\u{205f}', '\u{3000}', 'a', '\u{200b}', '\u{feff}', '_', '\u{180e}'] {
        assert_eq!(is_whitespace(c), c.is_whitespace(), "{:?}", c);
    }
}

#[test]
fn trimming() {
    assert_eq!(trim_start_str("  \t hi there "), "hi there ");
    assert_eq!(trim_start_str("\u{3000}日本"), "日本");
    assert_eq!(trim_start_str("   "), "");
    assert_eq!(trim_start_str(""), "");
    assert_eq!(count_leading_white_space(" \u{a0}x"), 2);
    assert!(is_blank_str(" \n"));
    assert!(is_blank_str(""));
    assert!(!is_blank_str(" x "));
}

#[test]
fn equality() {
    assert!(text_eq("abc", "abc"));
    assert!(!text_eq("abc", "abd"));
    assert!(!text_eq("ab", "abc"));
}
