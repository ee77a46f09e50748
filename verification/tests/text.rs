use multigit::named_map::NamedMap;
use multigit::text::{
    concat3, contains_str, decimal, ends_with, eq_ignore_ascii_case, find_char, is_alphanumeric,
    is_uppercase, join, lines, parse_u32, parse_u64, replace_all, rfind_char, split_char,
    starts_with, to_lowercase, trim, trim_end_matches, trim_start_matches, utf8_len_exceeds,
    IntErrorKind,
};

#[test]
fn trimming_and_matching() {
    assert_eq!(trim("  a b \t\n"), "a b");
    assert_eq!(trim_end_matches("xx.git.git", ".git"), "xx");
    assert_eq!(trim_start_matches("///a", "/"), "a");
    assert!(starts_with("git@host", "git@"));
    assert!(ends_with("repo.git", ".git"));
    assert_eq!(find_char("a:b:c", ':'), Some(1));
    assert_eq!(rfind_char("a:b:c", ':'), Some(3));
    assert!(contains_str("hello world", "o w"));
    assert!(eq_ignore_ascii_case("MD", "md"));
}

#[test]
fn splitting_joining_replacing() {
    assert_eq!(split_char("a::b", ':'), vec!["a", "", "b"]);
    assert_eq!(lines("one\r\ntwo\n"), vec!["one", "two"]);
    assert_eq!(join(&vec!["a".to_string(), "b".to_string()], ", "), "a, b");
    assert_eq!(replace_all("x (d) y (d)", " (d)", ""), "x y");
    assert_eq!(concat3("a", "b", "c"), "abc");
}

#[test]
fn numbers() {
    assert_eq!(parse_u64("+42"), Ok(42));
    assert_eq!(parse_u64(""), Err(IntErrorKind::Empty));
    assert_eq!(parse_u64("-1"), Err(IntErrorKind::InvalidDigit));
    assert_eq!(parse_u64("18446744073709551616"), Err(IntErrorKind::PosOverflow));
    assert_eq!(parse_u32("4294967295"), Ok(4294967295));
    assert_eq!(decimal(0), "0");
    assert_eq!(decimal(1234567), "1234567");
    assert_eq!(IntErrorKind::Empty.message(), "cannot parse integer from empty string");
}

#[test]
fn unicode_questions_go_to_std() {
    assert!(is_alphanumeric('é'));
    assert!(!is_alphanumeric('-'));
    assert!(is_uppercase('Ä'));
    assert_eq!(to_lowercase("ÄB"), "äb");
    assert!(utf8_len_exceeds("ééé", 5));
    assert!(!utf8_len_exceeds("ééé", 6));
}

#[test]
fn named_map_keeps_names_once() {
    let mut m: NamedMap<u32> = NamedMap::new();
    assert!(m.is_empty());
    assert_eq!(m.insert("a".to_string(), 1), None);
    assert_eq!(m.insert("b".to_string(), 2), None);
    assert_eq!(m.insert("a".to_string(), 3), Some(1));
    assert_eq!(m.len(), 2);
    assert_eq!(m.get("a"), Some(&3));
    assert_eq!(m.keys(), vec!["a".to_string(), "b".to_string()]);
    assert_eq!(m.remove("a"), Some(3));
    assert!(!m.contains_key("a"));
}
