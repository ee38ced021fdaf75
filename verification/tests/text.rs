use syncnote::text::{
    chars_of, join_str, i64_to_string, is_whitespace, replace_chars, srv, starts_with, str_eq, str_less,
    trim_string, trims_to_empty,
};
use syncnote::auth::normalize_email;

#[test]
fn trim_matches_std() {
    for s in ["  a b  ", "\t\nx\u{3000}", "", "   ", "\u{a0}y\u{2029}", "no"] {
        assert_eq!(trim_string(s), s.trim());
        assert_eq!(trims_to_empty(s), s.trim().is_empty());
    }
}

#[test]
fn whitespace_matches_std() {
    for c in ['\t', ' ', '\u{85}', '\u{a0}', '\u{1680}', '\u{2009}', '\u{200b}', 'a', '\u{3000}', '\u{feff}'] {
        assert_eq!(is_whitespace(c), c.is_whitespace(), "{:?}", c);
    }
}

#[test]
fn decimal_matches_display() {
    for n in [0i64, 7, -7, 10, 1234567890, i64::MAX, i64::MIN] {
        assert_eq!(i64_to_string(n), n.to_string());
    }
}

#[test]
fn string_order_matches_std() {
    let pairs = [("a", "b"), ("b", "a"), ("a", "ab"), ("ab", "a"), ("", "a"), ("a", ""), ("é", "z"), ("2024-01-01", "2024-01-02")];
    for (a, b) in pairs {
        assert_eq!(str_less(a, b), a < b, "{a} < {b}");
    }
}

#[test]
fn small_string_helpers() {
    assert_eq!(srv("db", "boom"), "db: boom");
    assert_eq!(join_str("/share/", "t"), "/share/t");
    assert!(str_eq("abc", "abc"));
    assert!(!str_eq("abc", "abd"));
    assert!(starts_with("localhost:3000", "localhost"));
    assert!(!starts_with("local", "localhost"));
    assert_eq!(chars_of("hé"), vec!['h', 'é']);
    assert_eq!(normalize_email("  ÀB@Example.COM "), "àb@example.com");
}

#[test]
fn replace_matches_std() {
    let s: Vec<char> = "aaa-aa".chars().collect();
    let r = replace_chars(&s, &['a', 'a'], &['x']);
    assert_eq!(r.into_iter().collect::<String>(), "aaa-aa".replace("aa", "x"));
}
