use std::path::Path;
use valex::text::{
    chars_of, contains, fields_of, file_name, join, lines_of, parse_u32, replace_str, same_text,
    trims_to_empty, u32_to_string, u64_to_string, words_of,
};

fn strings(v: Vec<Vec<char>>) -> Vec<String> {
    v.into_iter().map(|c| c.into_iter().collect()).collect()
}

fn parse(s: &str) -> Option<u32> {
    parse_u32(chars_of(s).as_slice())
}

#[test]
fn parse_u32_reads_decimal_numbers() {
    assert_eq!(parse("42"), Some(42));
    assert_eq!(parse("0"), Some(0));
    assert_eq!(parse("007"), Some(7));
    assert_eq!(parse("+7"), Some(7));
    assert_eq!(parse("4294967295"), Some(u32::MAX));
}

#[test]
fn parse_u32_rejects_what_str_parse_rejects() {
    for bad in ["", "+", "-1", "12a", " 1", "4294967296", "99999999999999999999", "1.0"] {
        assert_eq!(parse(bad), None, "{bad:?}");
        assert_eq!(parse(bad), bad.parse::<u32>().ok(), "{bad:?}");
    }
}

#[test]
fn decimal_text_reads_back() {
    for n in [0u32, 7, 10, 258, 65534, 1_000_000, u32::MAX] {
        let s = u32_to_string(n);
        assert_eq!(s, n.to_string());
        assert_eq!(parse(&s), Some(n));
    }
    assert_eq!(u64_to_string(1_700_000_000_123), "1700000000123");
}

#[test]
fn lines_follow_str_lines() {
    for text in ["a\r\nb\n", "a\n\n", "", "x\r", "\n", "one", "a\nb\r\nc", "\r\n\r\n"] {
        let expected: Vec<String> = text.lines().map(|l| l.to_string()).collect();
        assert_eq!(strings(lines_of(chars_of(text).as_slice())), expected, "{text:?}");
    }
}

#[test]
fn words_follow_split_whitespace() {
    for text in ["  systemd 258 (258.1)", "", "   ", "a\tb\u{3000}c", "x"] {
        let expected: Vec<String> = text.split_whitespace().map(|w| w.to_string()).collect();
        assert_eq!(strings(words_of(chars_of(text).as_slice())), expected, "{text:?}");
    }
}

#[test]
fn fields_follow_split() {
    for text in ["root:x:0:0", "", ":", "a::b:"] {
        let expected: Vec<String> = text.split(':').map(|w| w.to_string()).collect();
        assert_eq!(strings(fields_of(chars_of(text).as_slice(), ':')), expected, "{text:?}");
    }
}

#[test]
fn replace_follows_str_replace() {
    for (s, p, r) in [("aXbX", "X", "yy"), ("aaa", "aa", "b"), ("none", "zz", "q"), ("", "x", "y")] {
        assert_eq!(replace_str(s, p, r), s.replace(p, r), "{s:?}");
    }
}

#[test]
fn contains_and_blank_and_equality() {
    assert!(contains(chars_of("PIDFile=/run/x").as_slice(), chars_of("PIDFile=").as_slice()));
    assert!(!contains(chars_of("PIDFile").as_slice(), chars_of("PIDFile=").as_slice()));
    assert!(contains(chars_of("abc").as_slice(), chars_of("").as_slice()));
    assert!(trims_to_empty(" \t\n"));
    assert!(trims_to_empty(""));
    assert!(!trims_to_empty(" . "));
    assert!(same_text("$", "$"));
    assert!(!same_text("$", "$$"));
}

#[test]
fn join_follows_path_join() {
    for (base, rel) in [("/home/u", ".config"), ("/home/u/", "x"), ("", "x"), ("/a", "/b"), ("a", "*.conf")] {
        let expected = Path::new(base).join(rel).display().to_string();
        assert_eq!(join(base, rel), expected, "{base:?} {rel:?}");
    }
}

#[test]
fn file_name_follows_path_file_name() {
    for p in ["/a/b", "/a/b/", "/a/..", "/", ".", "a/./", "./foo", "..", "", "my site", "a//b//"] {
        let expected = Path::new(p).file_name().map(|n| n.to_string_lossy().to_string());
        assert_eq!(file_name(p), expected, "{p:?}");
    }
}
