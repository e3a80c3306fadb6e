use ai_gateway::text::{chars_of, contains, last_segment_of, matches_at, same_text, starts_with};

#[test]
fn contains_finds_a_text_anywhere() {
    assert!(contains("amazon.titan-text", "titan"));
    assert!(contains("titan", "titan"));
    assert!(contains("xxtitan", "titan"));
    assert!(contains("anything", ""));
    assert!(contains("", ""));
    assert!(!contains("tita", "titan"));
    assert!(!contains("", "a"));
    assert!(!contains("ti tan", "titan"));
    assert!(contains("caf\u{e9} titan", "\u{e9} t"));
}

#[test]
fn starts_with_looks_at_the_beginning_only() {
    assert!(starts_with("x-aws-region", "x-aws-"));
    assert!(starts_with("x-aws-", "x-aws-"));
    assert!(starts_with("abc", ""));
    assert!(!starts_with("x-aws", "x-aws-"));
    assert!(!starts_with("ax-aws-region", "x-aws-"));
}

#[test]
fn same_text_compares_whole_texts() {
    assert!(same_text("system", "system"));
    assert!(same_text("", ""));
    assert!(!same_text("system", "systems"));
    assert!(!same_text("System", "system"));
    assert!(!same_text("a", ""));
}

#[test]
fn last_segment_follows_the_last_separator() {
    assert_eq!(last_segment_of("/a/b/c", '/'), "c");
    assert_eq!(last_segment_of("abc", '/'), "abc");
    assert_eq!(last_segment_of("/a/b/", '/'), "");
    assert_eq!(last_segment_of("", '/'), "");
    assert_eq!(last_segment_of("/", '/'), "");
    assert_eq!(last_segment_of("a.b.c", '.'), "c");
    assert_eq!(last_segment_of("/\u{e9}/\u{fc}x", '/'), "\u{fc}x");
}

#[test]
fn chars_and_matches_agree_with_the_text() {
    let hay = chars_of("h\u{e9}llo");
    assert_eq!(hay, vec!['h', '\u{e9}', 'l', 'l', 'o']);
    let needle = chars_of("llo");
    assert!(matches_at(&hay, &needle, 2));
    assert!(!matches_at(&hay, &needle, 1));
    assert!(matches_at(&hay, &chars_of(""), 5));
}
