use minigrep::contains_str;
use minigrep::split_lines;

#[test]
fn split_lines_basic() {
    assert_eq!(vec!["one", "two", "three"], split_lines("one\ntwo\nthree"));
}

#[test]
fn split_lines_empty_text_has_no_lines() {
    assert!(split_lines("").is_empty());
    assert_eq!(vec![""], split_lines("\n"));
}

#[test]
fn split_lines_keeps_empty_middle_lines() {
    assert_eq!(vec!["a", "", "b"], split_lines("a\n\nb"));
}

#[test]
fn contains_str_finds_substring() {
    assert!(contains_str("safe, fast, productive.", "duct"));
    assert!(!contains_str("Pick three.", "duct"));
}

#[test]
fn contains_str_empty_needle_always_found() {
    assert!(contains_str("anything", ""));
    assert!(contains_str("", ""));
}

#[test]
fn contains_str_needle_longer_than_haystack() {
    assert!(!contains_str("ab", "abc"));
}

#[test]
fn contains_str_multibyte_characters() {
    assert!(contains_str("naïve café", "ïve"));
    assert!(!contains_str("naïve café", "naive"));
}
