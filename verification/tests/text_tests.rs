use cwrdd_make::text::{
    contains_substring, find_char, join_with_spaces, parse_i32_or_zero, split_on_char,
    str_ends_with, str_starts_with, trim_str,
};

#[test]
fn join_with_spaces_matches_manual_joins() {
    assert_eq!(join_with_spaces(&vec![]), "");
    assert_eq!(join_with_spaces(&vec!["a".to_string()]), "a");
    assert_eq!(
        join_with_spaces(&vec!["a".to_string(), "b".to_string(), "c".to_string()]),
        "a b c"
    );
}

#[test]
fn starts_and_ends_with_check_both_boundaries() {
    assert!(str_starts_with("username: x", "username"));
    assert!(!str_starts_with("user", "username"));
    assert!(str_ends_with("tables.sql", ".sql"));
    assert!(!str_ends_with("sql", ".sql"));
    assert!(!str_ends_with("tables.sqlite", ".sql"));
}

#[test]
fn find_char_returns_the_first_occurrence() {
    assert_eq!(find_char("a:b:c", ':'), Some(1));
    assert_eq!(find_char("abc", ':'), None);
}

#[test]
fn split_on_char_keeps_empty_segments() {
    assert_eq!(split_on_char("a:b:c", ':'), vec!["a", "b", "c"]);
    assert_eq!(split_on_char("::", ':'), vec!["", "", ""]);
    assert_eq!(split_on_char("plain", ':'), vec!["plain"]);
    assert_eq!(split_on_char("", ':'), vec![""]);
}

#[test]
fn trim_str_strips_both_ends() {
    assert_eq!(trim_str("  padded \t\r\n"), "padded");
    assert_eq!(trim_str("inner space stays"), "inner space stays");
    assert_eq!(trim_str(" \t "), "");
}

#[test]
fn contains_substring_finds_inner_matches() {
    assert!(contains_substring("database is not up to date", "not up to date"));
    assert!(contains_substring("anything", ""));
    assert!(!contains_substring("short", "much longer needle"));
    assert!(!contains_substring("abcd", "acd"));
}

#[test]
fn parse_i32_or_zero_accepts_only_plain_decimals() {
    assert_eq!(parse_i32_or_zero("0"), 0);
    assert_eq!(parse_i32_or_zero("042"), 42);
    assert_eq!(parse_i32_or_zero("-1"), -1);
    assert_eq!(parse_i32_or_zero("+1"), 0);
    assert_eq!(parse_i32_or_zero("1 2"), 0);
    assert_eq!(parse_i32_or_zero("-"), 0);
}
