use gemini_rust::text::{count_words, str_contains, str_eq};

#[test]
fn string_equality_is_by_characters() {
    assert!(str_eq("", ""));
    assert!(str_eq("abc", "abc"));
    assert!(!str_eq("abc", "abd"));
    assert!(!str_eq("abc", "abcd"));
    assert!(str_eq("h\u{e9}llo", "h\u{e9}llo"));
    assert!(!str_eq("h\u{e9}llo", "hello"));
}

#[test]
fn substring_search_finds_occurrences() {
    assert!(str_contains("step by step", "step"));
    assert!(str_contains("one step at a time", "step"));
    assert!(str_contains("abc", ""));
    assert!(str_contains("", ""));
    assert!(!str_contains("", "a"));
    assert!(!str_contains("analyse", "analyze"));
    assert!(str_contains("na\u{ef}ve approach", "\u{ef}ve"));
}

#[test]
fn word_counting_splits_on_whitespace() {
    assert_eq!(count_words(""), 0);
    assert_eq!(count_words("   "), 0);
    assert_eq!(count_words("one"), 1);
    assert_eq!(count_words("  a  b "), 2);
    assert_eq!(count_words("one\ttwo\nthree four"), 4);
}
