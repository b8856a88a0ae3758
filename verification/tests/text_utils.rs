use kuro::text::{
    i64_text, is_blank, join_path, parse_i32_text, split_whitespace, starts_with, str_eq, trimmed,
    u64_text,
};

#[test]
fn trimmed_removes_unicode_whitespace_at_both_ends() {
    assert_eq!(trimmed("  abc \t\n"), "abc");
    assert_eq!(trimmed("\u{3000}a b\u{a0}"), "a b");
    assert_eq!(trimmed("   "), "");
    assert_eq!(trimmed(""), "");
}

#[test]
fn blank_means_only_whitespace() {
    assert!(is_blank(""));
    assert!(is_blank(" \t\r\n\u{2028}"));
    assert!(!is_blank(" x "));
}

#[test]
fn parse_i32_follows_std() {
    for s in ["0", "15", "-7", "+9", "2147483647", "-2147483648", "", "+", "-", "1a", " 1", "2147483648", "-2147483649", "99999999999999999999"] {
        assert_eq!(parse_i32_text(s), s.parse::<i32>().ok(), "input {:?}", s);
    }
}

#[test]
fn decimal_text_matches_display() {
    for n in [0i64, 7, 10, 12345, -1, -90, i64::MIN, i64::MAX] {
        assert_eq!(i64_text(n), n.to_string());
    }
    assert_eq!(u64_text(u64::MAX), u64::MAX.to_string());
}

#[test]
fn join_path_matches_path_join() {
    for (a, b) in [("/run", "kuro"), ("/run/", "kuro"), ("", "x"), ("/a", "/b"), ("a", ""), ("/a/b", "c/d")] {
        let expected = std::path::Path::new(a).join(b);
        assert_eq!(join_path(a, b), expected.to_string_lossy());
    }
}

#[test]
fn split_whitespace_matches_std() {
    for s in ["cpu io memory pids", "  cpu\n\tio  ", "", "   ", "one"] {
        let expected: Vec<String> = s.split_whitespace().map(|w| w.to_string()).collect();
        assert_eq!(split_whitespace(s), expected);
    }
}

#[test]
fn prefix_and_equality() {
    assert!(starts_with("SIGTERM", "SIG"));
    assert!(!starts_with("SI", "SIG"));
    assert!(str_eq("ro", "ro"));
    assert!(!str_eq("ro", "rw"));
}
