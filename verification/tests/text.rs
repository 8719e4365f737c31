//! Tests for the text utilities under the codec.

use vmix_rs::text::{parse_u64, str_eq, tokenize, trim_end, u64_to_string};

#[test]
fn parse_u64_accepts_plain_numbers() {
    assert_eq!(parse_u64("0"), Some(0));
    assert_eq!(parse_u64("1234"), Some(1234));
    assert_eq!(parse_u64("18446744073709551615"), Some(u64::MAX));
}

#[test]
fn parse_u64_accepts_a_leading_plus() {
    assert_eq!(parse_u64("+5"), Some(5));
}

#[test]
fn parse_u64_rejects_malformed_tokens() {
    assert_eq!(parse_u64(""), None);
    assert_eq!(parse_u64("+"), None);
    assert_eq!(parse_u64("-1"), None);
    assert_eq!(parse_u64("12a"), None);
    assert_eq!(parse_u64("1.5"), None);
    // one past u64::MAX
    assert_eq!(parse_u64("18446744073709551616"), None);
}

#[test]
fn formatting_round_trips() {
    assert_eq!(u64_to_string(0), "0");
    assert_eq!(u64_to_string(37), "37");
    assert_eq!(u64_to_string(u64::MAX), "18446744073709551615");
    for n in [0u64, 1, 9, 10, 99, 100, 65535, 4294967296] {
        assert_eq!(parse_u64(&u64_to_string(n)), Some(n));
    }
}

#[test]
fn tokenizing_splits_on_runs_of_whitespace() {
    assert_eq!(tokenize("TALLY OK 012\r\n"), vec!["TALLY", "OK", "012"]);
    assert_eq!(tokenize("  a\t\tb  "), vec!["a", "b"]);
    assert_eq!(tokenize(""), Vec::<String>::new());
    assert_eq!(tokenize(" \r\n "), Vec::<String>::new());
}

#[test]
fn trimming_removes_trailing_whitespace_only() {
    assert_eq!(trim_end("abc \r\n"), "abc");
    assert_eq!(trim_end("  abc"), "  abc");
    assert_eq!(trim_end(""), "");
    assert_eq!(trim_end(" \t"), "");
}

#[test]
fn string_comparison() {
    assert!(str_eq("TALLY", "TALLY"));
    assert!(!str_eq("TALLY", "TALL"));
    assert!(!str_eq("TALLY", "tally"));
}
