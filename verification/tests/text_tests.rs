use color_eyre::text::{centered, contains, decimal, right_align, same_text, starts_with_any};

#[test]
fn decimal_matches_std_formatting() {
    for n in [0u64, 1, 9, 10, 42, 100, 65535, u64::MAX] {
        assert_eq!(decimal(n), n.to_string());
    }
}

#[test]
fn alignment_matches_std_formatting() {
    assert_eq!(right_align("7", 2), format!("{:>2}", 7));
    assert_eq!(right_align("123", 2), "123");
    assert_eq!(centered("ab", 7, '*'), format!("{:*^7}", "ab"));
    assert_eq!(centered("abc", 8, ' '), format!("{:^8}", "abc"));
    assert_eq!(centered("⋮é", 5, '-'), format!("{:-^5}", "⋮é"));
    assert_eq!(centered("long text", 3, ' '), "long text");
}

#[test]
fn prefixes_and_substrings() {
    assert!(starts_with_any("std::fmt", &vec!["std::"]));
    assert!(starts_with_any("abc", &vec![""]));
    assert!(!starts_with_any("st", &vec!["std::"]));
    assert!(starts_with_any("core::x", &vec!["std::", "core::"]));
    assert!(!starts_with_any("corex", &vec!["std::", "core::"]));
    assert!(!starts_with_any("core::x", &Vec::new()));
    assert!(contains("a/.cargo/registry/src/b", "/.cargo/registry/src/"));
    assert!(contains("abc", ""));
    assert!(!contains("ab", "abc"));
    assert!(!contains("aab", "abb"));
    assert!(same_text("é", "é"));
    assert!(!same_text("a", "ab"));
}
