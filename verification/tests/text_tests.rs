use voxforge::text::{contains_text, same_text, trim};

#[test]
fn trim_removes_ascii_white_space_at_both_ends() {
    assert_eq!(trim("  hello world \t\n"), "hello world");
}

#[test]
fn trim_removes_unicode_white_space() {
    assert_eq!(trim("\u{3000}\u{a0}dictated\u{2028}\u{85}"), "dictated");
}

#[test]
fn trim_keeps_inner_white_space() {
    assert_eq!(trim(" a  b "), "a  b");
}

#[test]
fn trim_of_blank_text_is_empty() {
    assert_eq!(trim(" \t \r\n "), "");
    assert_eq!(trim(""), "");
}

#[test]
fn trim_agrees_with_std() {
    for s in ["x", "  x", "x  ", "\u{2003}é ü\u{200a}", "\u{200b}zero width\u{200b}", " \u{1680}ok\u{205f}"] {
        assert_eq!(trim(s), s.trim());
    }
}

#[test]
fn same_text_compares_characters() {
    assert!(same_text("coding", "coding"));
    assert!(!same_text("coding", "Coding"));
    assert!(!same_text("code", "coding"));
    assert!(same_text("", ""));
}

#[test]
fn contains_text_finds_runs() {
    assert!(contains_text("IO error: WouldBlock (os error 11)", "WouldBlock"));
    assert!(contains_text("abc", ""));
    assert!(contains_text("abc", "abc"));
    assert!(!contains_text("ab", "abc"));
    assert!(!contains_text("Would Block", "WouldBlock"));
}
