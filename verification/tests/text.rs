use ximonitor_server::decimal::decimal_string;
use ximonitor_server::text::{chars_of, replace_str};

#[test]
fn replace_str_replaces_every_occurrence() {
    assert_eq!(replace_str("a__X__b__X__", "__X__", "1"), "a1b1");
}

#[test]
fn replace_str_scans_left_to_right_without_overlap() {
    assert_eq!(replace_str("aaa", "aa", "b"), "ba");
    assert_eq!(replace_str("aaaa", "aa", "b"), "bb");
}

#[test]
fn replace_str_without_occurrence_is_identity() {
    assert_eq!(replace_str("hello world", "xyz", "q"), "hello world");
    assert_eq!(replace_str("", "x", "q"), "");
}

#[test]
fn replace_str_with_empty_replacement() {
    assert_eq!(replace_str("a-b-c", "-", ""), "abc");
}

#[test]
fn replace_str_pattern_longer_than_text() {
    assert_eq!(replace_str("ab", "abc", "z"), "ab");
}

#[test]
fn replace_str_non_ascii() {
    assert_eq!(replace_str("héllo wörld ö", "ö", "oe"), "héllo woerld oe");
}

#[test]
fn replace_str_agrees_with_std_replace() {
    let cases = [
        ("abcabcab", "ab", "XY"),
        ("__A____A__", "__A__", "_"),
        ("mississippi", "ss", "s"),
        ("xxxxx", "xx", "xxx"),
        ("日本日本語", "日本", "に"),
    ];
    for (s, p, r) in cases {
        assert_eq!(replace_str(s, p, r), s.replace(p, r));
    }
}

#[test]
fn replacement_kept_apart_leaves_no_pattern() {
    let out = replace_str("__P____P__x__P_", "__P__", "/1");
    assert_eq!(out, "/1/1x__P_");
    assert!(!out.contains("__P__"));
}

#[test]
fn chars_of_counts_characters() {
    assert_eq!(chars_of("héllo"), vec!['h', 'é', 'l', 'l', 'o']);
    assert!(chars_of("").is_empty());
}

#[test]
fn decimal_string_small_values() {
    assert_eq!(decimal_string(0), "0");
    assert_eq!(decimal_string(7), "7");
    assert_eq!(decimal_string(10), "10");
    assert_eq!(decimal_string(1000), "1000");
}

#[test]
fn decimal_string_large_values() {
    assert_eq!(decimal_string(1234567890), "1234567890");
    assert_eq!(decimal_string(u64::MAX), "18446744073709551615");
}

#[test]
fn decimal_string_reads_back() {
    for n in [0u64, 1, 9, 10, 99, 100, 65535, 4294967296, u64::MAX] {
        assert_eq!(decimal_string(n).parse::<u64>().unwrap(), n);
        assert_eq!(decimal_string(n), n.to_string());
    }
}
