use workspace_unused_deps::text::{
    bytes_end_with, bytes_start_with, ends_with, same_bytes, same_text, starts_with,
};

#[test]
fn same_text_compares_every_character() {
    assert!(same_text("public", "public"));
    assert!(!same_text("public", "Public"));
    assert!(!same_text("public", "publi"));
    assert!(!same_text("publi", "public"));
    assert!(same_text("", ""));
    assert!(!same_text("", "a"));
}

#[test]
fn same_text_beyond_ascii() {
    assert!(same_text("gr\u{fc}n", "gr\u{fc}n"));
    assert!(!same_text("gr\u{fc}n", "grun"));
}

#[test]
fn starts_with_checks_the_front() {
    assert!(starts_with(".git", "."));
    assert!(starts_with(".", "."));
    assert!(!starts_with("git.", "."));
    assert!(!starts_with("", "."));
    assert!(starts_with("anything", ""));
    assert!(!starts_with("ab", "abc"));
}

#[test]
fn ends_with_checks_the_back() {
    assert!(ends_with("main.rs", ".rs"));
    assert!(ends_with(".rs", ".rs"));
    assert!(!ends_with("main.rs.bak", ".rs"));
    assert!(!ends_with("rs", ".rs"));
    assert!(ends_with("anything", ""));
    assert!(ends_with("/ws/crate/src/a.rs", "src/a.rs"));
    assert!(!ends_with("/ws/crate/src/b.rs", "src/a.rs"));
}

#[test]
fn prefix_and_suffix_fall_on_character_boundaries() {
    // U+00E9 is the bytes C3 A9, U+00A9 is the bytes C2 A9.
    assert!(!ends_with("\u{e9}", "\u{a9}"));
    assert!(ends_with("caf\u{e9}", "\u{e9}"));
    assert!(starts_with("\u{e9}t\u{e9}", "\u{e9}"));
    assert!(!starts_with("\u{e9}t\u{e9}", "\u{e8}"));
}

#[test]
fn byte_comparisons() {
    assert!(same_bytes(&[1, 2, 3], &[1, 2, 3]));
    assert!(!same_bytes(&[1, 2, 3], &[1, 2]));
    assert!(!same_bytes(&[1, 2, 3], &[1, 2, 4]));
    assert!(bytes_start_with(&[1, 2, 3], &[1, 2]));
    assert!(!bytes_start_with(&[1, 2, 3], &[2, 3]));
    assert!(bytes_end_with(&[1, 2, 3], &[2, 3]));
    assert!(!bytes_end_with(&[1, 2, 3], &[1, 2]));
    assert!(bytes_end_with(&[], &[]));
}
