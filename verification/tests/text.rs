use searxng_search::text::{
    chars_of, contains_char, contains_whitespace, decimal_text, is_whitespace, join_strings,
    same_text, split, strip_prefix, trim, trim_end_matches, truncate_with_ellipsis,
    truncate_with_suffix,
};

#[test]
fn whitespace_is_the_unicode_property() {
    for c in '\0'..=char::MAX {
        assert_eq!(is_whitespace(c), c.is_whitespace(), "{:?}", c);
    }
}

#[test]
fn trimming_agrees_with_the_standard_library() {
    for s in ["", " ", "a", " a b ", "\t\u{3000}x\u{85}", "\u{feff}x", "\u{a0}\u{2028}", "ü  "] {
        assert_eq!(trim(s), s.trim());
    }
    for s in ["", "/", "a/", "a//", "//a/b//", "///"] {
        assert_eq!(trim_end_matches(s, '/'), s.trim_end_matches('/'));
    }
}

#[test]
fn splitting_and_joining() {
    for s in ["", ",", "a", "a,b", ",a,,b,", "äö,ü"] {
        let pieces = split(s, ',');
        assert_eq!(pieces, s.split(',').collect::<Vec<&str>>());
        let owned: Vec<String> = pieces.iter().map(|p| p.to_string()).collect();
        assert_eq!(join_strings(&owned, ","), s);
    }
    assert_eq!(join_strings(&vec![], ", "), "");
    assert_eq!(join_strings(&vec!["a".into(), "b".into(), "c".into()], ", "), "a, b, c");
}

#[test]
fn searching() {
    assert_eq!(chars_of("aé€"), vec!['a', 'é', '€']);
    assert!(contains_char("a@b", '@'));
    assert!(!contains_char("", '@'));
    assert!(contains_whitespace("a\u{2009}b"));
    assert!(!contains_whitespace("a-b"));
    assert!(same_text("é", "é"));
    assert!(!same_text("ab", "abc"));
    assert_eq!(strip_prefix("http://x", "http://"), Some("x"));
    assert_eq!(strip_prefix("http:/x", "http://"), None);
    assert_eq!(strip_prefix("h", "http://"), None);
}

#[test]
fn decimal_notation() {
    for n in (0..1200).chain([9_999, 10_000, 4_294_967_295, usize::MAX - 1, usize::MAX]) {
        assert_eq!(decimal_text(n), n.to_string());
    }
}

#[test]
fn truncation_counts_characters() {
    assert_eq!(truncate_with_ellipsis("abc", 3), "abc");
    assert_eq!(truncate_with_ellipsis("abcd", 3), "abc...");
    assert_eq!(truncate_with_ellipsis("äöüß", 3), "äöü...");
    assert_eq!(truncate_with_suffix("abcd", 0, "~"), "~");
    assert_eq!(truncate_with_suffix("", 0, "~"), "");
}
