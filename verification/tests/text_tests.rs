use deskai::text::{str_eq, contains_bytes, name_matches, join_lines};

#[test]
fn str_eq_basic() {
    assert!(str_eq("abc", "abc"));
    assert!(!str_eq("abc", "abd"));
    assert!(str_eq("", ""));
    assert!(!str_eq("a", ""));
}

#[test]
fn contains_bytes_basic() {
    assert!(contains_bytes(&b"hello world".to_vec(), &b"lo wo".to_vec()));
    assert!(contains_bytes(&b"hello".to_vec(), &b"hello".to_vec()));
    assert!(contains_bytes(&b"hello".to_vec(), &b"".to_vec()));
    assert!(!contains_bytes(&b"hello".to_vec(), &b"world".to_vec()));
    assert!(!contains_bytes(&b"ab".to_vec(), &b"abc".to_vec()));
    assert!(contains_bytes(&b"aaab".to_vec(), &b"aab".to_vec()));
}

#[test]
fn name_matches_is_case_insensitive() {
    assert!(name_matches("ReportDraft.txt", "report"));
    assert!(name_matches("report_final.pdf", "REPORT"));
    assert!(!name_matches("notes.md", "report"));
}

#[test]
fn name_matches_empty_query() {
    assert!(name_matches("anything", ""));
    assert!(name_matches("", ""));
    assert!(!name_matches("", "x"));
}

#[test]
fn join_lines_cases() {
    assert_eq!(join_lines(&vec![]), "");
    assert_eq!(join_lines(&vec!["one".to_string()]), "one");
    assert_eq!(
        join_lines(&vec!["a".to_string(), "b".to_string(), "c".to_string()]),
        "a\nb\nc"
    );
}
