use agent_core::scan::{decimal_string, find, rfind, split_words, summarize_text};
use agent_core::text::{clock_label, is_blank, trimmed};

fn chars(s: &str) -> Vec<char> {
    s.chars().collect()
}

#[test]
fn summaries_keep_the_first_words() {
    assert_eq!(summarize_text("  hello   world ", 5), "hello world");
    assert_eq!(summarize_text("one two three four", 2), "one two...");
    assert_eq!(summarize_text("one two", 2), "one two");
    assert_eq!(summarize_text("", 3), "");
    assert_eq!(summarize_text("a b", 0), "...");
}

#[test]
fn words_split_on_any_white_space() {
    let words = split_words(&chars(" alpha\tbeta\n\u{3000}gamma  "));
    let words: Vec<String> = words.into_iter().map(|w| w.into_iter().collect()).collect();
    assert_eq!(words, vec!["alpha", "beta", "gamma"]);
    assert!(split_words(&chars("   ")).is_empty());
}

#[test]
fn every_word_is_nonblank() {
    let source = "  mixed \t spacing\nand\u{a0}words ";
    for word in split_words(&chars(source)) {
        assert!(!word.is_empty());
        assert!(word.iter().all(|c| !c.is_whitespace()));
    }
}

#[test]
fn decimal_numerals() {
    assert_eq!(decimal_string(0), "0");
    assert_eq!(decimal_string(7), "7");
    assert_eq!(decimal_string(1234), "1234");
    assert_eq!(decimal_string(u64::MAX), u64::MAX.to_string());
}

#[test]
fn finding_patterns() {
    let text = chars("a```b```c");
    let fence = chars("```");
    assert_eq!(find(&text, &fence), Some(1));
    assert_eq!(rfind(&text, &fence), Some(5));
    assert_eq!(find(&text, &chars("zz")), None);
    assert_eq!(rfind(&chars("````"), &fence), Some(1));
    assert_eq!(find(&chars("ab"), &chars("")), Some(0));
    assert_eq!(rfind(&chars("ab"), &chars("")), Some(2));
}

#[test]
fn trimming_and_blank_text() {
    assert_eq!(trimmed("  x y \n"), "x y");
    assert!(is_blank(" \t\n"));
    assert!(!is_blank(" a "));
}

#[test]
fn clock_labels() {
    assert_eq!(clock_label(0), "00:00:00");
    assert_eq!(clock_label(3_723_000), "01:02:03");
    assert_eq!(clock_label(-1000), "23:59:59");
}
