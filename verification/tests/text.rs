use breezer::text::{chars_eq, chars_of, concat2, concat3, replace_all_chars, str_eq, trim_chars};

#[test]
fn string_helpers() {
    assert!(str_eq("abc", "abc"));
    assert!(!str_eq("abc", "abd"));
    assert!(!str_eq("é", "e"));
    assert_eq!(chars_of("héllo"), vec!['h', 'é', 'l', 'l', 'o']);
    assert!(chars_eq(&['a'], &['a']));
    assert_eq!(concat2("ab", "cd"), "abcd");
    assert_eq!(concat3("a", "b", "c"), "abc");
}

#[test]
fn trimming_matches_std() {
    for s in ["  x  ", "\t\n y \u{3000}", "", "   ", "a b", "\u{a0}z\u{2029}"] {
        let t: String = trim_chars(&chars_of(s)).into_iter().collect();
        assert_eq!(t, s.trim());
    }
}

#[test]
fn replace_matches_std() {
    let cases = [("aaa", "aa", "b"), ("{x}{x}", "{x}", "1"), ("abc", "z", "q"), ("", "a", "b"), ("abab", "ab", "")];
    for (s, p, r) in cases {
        let out: String = replace_all_chars(&chars_of(s), &chars_of(p), &chars_of(r)).into_iter().collect();
        assert_eq!(out, s.replace(p, r));
    }
}
