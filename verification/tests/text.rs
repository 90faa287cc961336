use lamco_rdp_server::paths::join_path;
use lamco_rdp_server::text::{
    contains_text, ends_with, has_char, join, nonblank_lines, number, parse_i32, parse_number,
    rsplit_once, same_text, signed_number, splitn, starts_with, trim,
};
use lamco_rdp_server::text_map::TextMap;

#[test]
fn numbers_survive_being_written() {
    for n in [0u64, 7, 10, 99, 1_000, 65_535, u64::MAX] {
        assert_eq!(number(n), n.to_string());
        assert_eq!(parse_number(&number(n), u64::MAX), Some(n));
    }
    assert_eq!(signed_number(-15), "-15");
    assert_eq!(signed_number(15), "15");
    assert_eq!(signed_number(i64::MIN), i64::MIN.to_string());
}

#[test]
fn numbers_are_read_as_the_standard_library_reads_them() {
    for t in ["", "+", "-", "+5", "-5", "007", "5 ", "65535", "65536", "x", "1x", "٣"] {
        assert_eq!(
            parse_number(t, 65_535),
            t.parse::<u16>().ok().map(u64::from),
            "{t:?}"
        );
        assert_eq!(parse_i32(t), t.parse::<i32>().ok(), "{t:?}");
    }
    assert_eq!(parse_i32("-2147483648"), Some(i32::MIN));
    assert_eq!(parse_i32("-2147483649"), None);
    assert_eq!(parse_i32("2147483648"), None);
}

#[test]
fn texts_are_taken_apart() {
    assert_eq!(trim(" \t a b\u{3000}\n"), "a b");
    assert_eq!(splitn("a b c d e", 4, ' '), vec!["a", "b", "c", "d e"]);
    assert_eq!(splitn("", 4, ' '), vec![""]);
    assert_eq!(nonblank_lines("a\r\n\n  \nb "), vec!["a", "b"]);
    assert_eq!(join(&vec!["a".to_string(), "b".to_string()], ", "), "a, b");
    assert_eq!(join(&vec![], ", "), "");
    assert_eq!(
        rsplit_once("[::1]:3389", ':'),
        Some(("[::1]".to_string(), "3389".to_string()))
    );
    assert_eq!(rsplit_once("localhost", ':'), None);
}

#[test]
fn texts_are_searched() {
    assert!(starts_with("card0-DP-1", "card"));
    assert!(!starts_with("car", "card"));
    assert!(ends_with("wayland-1.lock", ".lock"));
    assert!(!ends_with("lock", ".lock"));
    assert!(has_char("a*b", '*') && !has_char("ab", '*'));
    assert!(same_text("é", "é") && !same_text("e", "é"));
    assert!(contains_text("abcabd", "abd"));
    assert!(contains_text("abc", ""));
    assert!(contains_text("", ""));
    assert!(!contains_text("abc", "ac"));
    assert!(!contains_text("ab", "abc"));
}

#[test]
fn paths_are_joined() {
    for (base, name) in [("/run/user/1000", "x"), ("/run/", "x"), ("", "x"), ("/a", "/b")] {
        let expected = std::path::Path::new(base).join(name);
        assert_eq!(join_path(base, name), expected.to_str().unwrap());
    }
}

#[test]
fn maps_hold_every_name_once() {
    let mut map = TextMap::new();
    map.insert("a".to_string(), "1".to_string());
    map.insert("b".to_string(), "2".to_string());
    map.insert("a".to_string(), "3".to_string());
    assert_eq!(map.get("a").map(String::as_str), Some("3"));
    assert_eq!(map.entries.len(), 2);
    map.remove(&"a".to_string());
    assert_eq!(map.get("a"), None);
    assert_eq!(map.get("b").map(String::as_str), Some("2"));
}
