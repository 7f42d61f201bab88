use cc_switch_web::text::{is_blank, str_equal, trim, white_space};

#[test]
fn trim_removes_unicode_white_space_at_both_ends() {
    assert_eq!(trim("  a b  "), "a b");
    assert_eq!(trim("\t\r\n x \u{a0}"), "x");
    assert_eq!(trim("\u{2003}y\u{3000}"), "y");
    assert_eq!(trim("   "), "");
    assert_eq!(trim(""), "");
    assert_eq!(trim(trim(" z ")), trim(" z "));
}

#[test]
fn trim_agrees_with_std() {
    for s in ["  a b  ", "\u{85}q\u{2028}", "\u{200b}k", "x\u{feff}", " ", "é "] {
        assert_eq!(trim(s), s.trim(), "{s:?}");
    }
}

#[test]
fn white_space_agrees_with_std() {
    for c in ['\t', '\n', '\u{b}', '\u{c}', '\r', ' ', '\u{85}', '\u{a0}', '\u{1680}', '\u{2000}',
        '\u{200a}', '\u{2028}', '\u{2029}', '\u{202f}', '\u{205f}', '\u{3000}', 'a', '\u{200b}',
        '\u{feff}', '\u{180e}', '\0']
    {
        assert_eq!(white_space(c), c.is_whitespace(), "{c:?}");
    }
}

#[test]
fn blank_text() {
    assert!(is_blank(""));
    assert!(is_blank(" \n\t"));
    assert!(!is_blank(" x "));
}

#[test]
fn string_equality() {
    assert!(str_equal("abc", "abc"));
    assert!(!str_equal("abc", "abd"));
    assert!(!str_equal("abc", "ab"));
}
