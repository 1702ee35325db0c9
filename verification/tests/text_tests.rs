//! Tests of the text operations against the `str` methods they stand for.

use chio::text::{contains_exec, replace_all_exec, starts_with_exec, trim_exec};

#[test]
fn replace_all_replaces_every_occurrence() {
    assert_eq!(replace_all_exec("a{x}b{x}", "{x}", "Y"), "aYbY");
}

#[test]
fn replace_all_scans_left_to_right_without_overlap() {
    assert_eq!(replace_all_exec("aaa", "aa", "b"), "ba");
    assert_eq!(replace_all_exec("aaaa", "aa", "b"), "bb");
}

#[test]
fn replace_all_with_empty_pattern_matches_between_characters() {
    assert_eq!(replace_all_exec("ab", "", "x"), "xaxbx");
    assert_eq!(replace_all_exec("", "", "x"), "x");
}

#[test]
fn replace_all_without_occurrence_keeps_text() {
    assert_eq!(replace_all_exec("plain text", "{name}", "value"), "plain text");
    assert_eq!(replace_all_exec("", "{name}", "value"), "");
}

#[test]
fn replace_all_agrees_with_str_replace() {
    let cases = [
        ("héllo {n} wörld {n}{n}", "{n}", "→"),
        ("{project_name}::ID", "{project_name}", "demo"),
        ("xyzxyzx", "xyzx", "_"),
        ("abc", "abcd", "z"),
        ("ééé", "é", ""),
    ];
    for (s, p, r) in cases {
        assert_eq!(replace_all_exec(s, p, r), s.replace(p, r));
    }
}

#[test]
fn starts_with_and_contains_agree_with_str() {
    let cases = [("Compiling foo", "Compiling"), ("Compil", "Compiling"), ("", ""), ("abc", "")];
    for (s, p) in cases {
        assert_eq!(starts_with_exec(s, p), s.starts_with(p));
        assert_eq!(contains_exec(s, p), s.contains(p));
    }
    assert!(contains_exec("please set user.email first", "user.email"));
    assert!(!contains_exec("user.emai", "user.email"));
}

#[test]
fn trim_removes_unicode_whitespace_at_both_ends() {
    let cases = ["  Compiling x \n", "\u{3000}\u{85}a b\u{2029}", "", "   ", "\tx", "x"];
    for s in cases {
        assert_eq!(trim_exec(s), s.trim());
    }
}
