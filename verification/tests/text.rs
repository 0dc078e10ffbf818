use ratatube::text::{decimal_text, eq_ignore_ascii_case, is_blank, names_match, trim_text};

#[test]
fn trimming_removes_unicode_whitespace_at_both_ends() {
    assert_eq!(trim_text("  hello world \t\n"), "hello world");
    assert_eq!(trim_text("\u{3000}name\u{a0}"), "name");
    assert_eq!(trim_text("   "), "");
    assert_eq!(trim_text(""), "");
    assert_eq!(trim_text("a b"), "a b");
}

#[test]
fn blank_text_is_all_whitespace() {
    assert!(is_blank(" \t "));
    assert!(is_blank(""));
    assert!(!is_blank(" x "));
}

#[test]
fn ascii_case_is_ignored_but_other_letters_are_not() {
    assert!(eq_ignore_ascii_case("Road Trip", "road TRIP"));
    assert!(!eq_ignore_ascii_case("Road", "Roads"));
    assert!(!eq_ignore_ascii_case("Ä", "ä"));
    assert!(eq_ignore_ascii_case("Ä", "Ä"));
}

#[test]
fn names_match_after_trimming() {
    assert!(names_match("  Chill ", "chill"));
    assert!(!names_match("Chill", "Chill Out"));
}

#[test]
fn decimals_have_no_leading_zeros() {
    assert_eq!(decimal_text(0), "0");
    assert_eq!(decimal_text(7), "7");
    assert_eq!(decimal_text(42), "42");
    assert_eq!(decimal_text(u64::MAX), "18446744073709551615");
}

#[test]
fn whitespace_is_decided_like_the_standard_library() {
    let spaces = [
        '\t', '\n', '\u{0b}', '\u{0c}', '\r', ' ', '\u{85}', '\u{a0}', '\u{1680}', '\u{2000}',
        '\u{2005}', '\u{200a}', '\u{2028}', '\u{2029}', '\u{202f}', '\u{205f}', '\u{3000}',
    ];
    for c in spaces {
        assert!(c.is_whitespace());
        assert!(is_blank(&c.to_string()));
    }
    let others = ['a', '\u{08}', '\u{0e}', '\u{1f}', '\u{200b}', '\u{180e}', '\u{feff}', '\u{2060}'];
    for c in others {
        assert!(!c.is_whitespace());
        assert!(!is_blank(&c.to_string()));
    }
    assert_eq!(trim_text("\u{3000}\u{2028}x\u{200b}\u{a0}"), "x\u{200b}");
}
