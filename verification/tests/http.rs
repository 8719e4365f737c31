//! Tests for the pure HTTP-side logic: query building, response-head
//! judgement, and tally derivation.

use vmix_rs::commands::TallyData;
use vmix_rs::http::{
    api_uri, base_url_for, build_query_string, derive_tally, find_content_length, function_query,
    is_success_status, process_response_head, BodyPlan,
};

fn pairs(parts: &[(&str, &str)]) -> Vec<(String, String)> {
    parts.iter().map(|(k, v)| (k.to_string(), v.to_string())).collect()
}

#[test]
fn url_encoding_keeps_safe_bytes() {
    let q = build_query_string(&pairs(&[("Function", "a-b.c_d~e")]));
    assert_eq!(q, "?Function=a-b.c_d~e");
}

#[test]
fn url_encoding_escapes_the_rest() {
    let q = build_query_string(&pairs(&[("x&y=z", "a b")]));
    assert_eq!(q, "?x%26y%3Dz=a%20b");
    // a multi-byte character is escaped byte by byte
    let q = build_query_string(&pairs(&[("k", "\u{e4}")]));
    assert_eq!(q, "?k=%C3%A4");
}

#[test]
fn query_string_empty() {
    assert_eq!(build_query_string(&pairs(&[])), "");
}

#[test]
fn query_string_single_pair() {
    assert_eq!(build_query_string(&pairs(&[("Function", "Cut")])), "?Function=Cut");
}

#[test]
fn query_string_keeps_order() {
    let q = build_query_string(&pairs(&[("Function", "SetText"), ("Input", "3"), ("Value", "a b")]));
    assert_eq!(q, "?Function=SetText&Input=3&Value=a%20b");
}

#[test]
fn function_query_puts_function_first() {
    let q = function_query("Fade", &pairs(&[("Duration", "1000")]));
    assert_eq!(q.len(), 2);
    assert_eq!(q[0], ("Function".to_string(), "Fade".to_string()));
    assert_eq!(q[1], ("Duration".to_string(), "1000".to_string()));
}

#[test]
fn api_uri_for_function() {
    let params = function_query("PreviewInput", &pairs(&[("Input", "4")]));
    assert_eq!(api_uri(&params), "/api?Function=PreviewInput&Input=4");
    assert_eq!(api_uri(&pairs(&[])), "/api");
}

#[test]
fn base_url() {
    assert_eq!(base_url_for("127.0.0.1", 8088), "http://127.0.0.1:8088/api");
    assert_eq!(base_url_for("vmix.local", 80), "http://vmix.local:80/api");
}

#[test]
fn success_status_bounds() {
    assert!(!is_success_status(199));
    assert!(is_success_status(200));
    assert!(is_success_status(299));
    assert!(!is_success_status(300));
    assert!(!is_success_status(404));
}

#[test]
fn content_length_is_found_case_insensitively() {
    let headers = pairs(&[("Server", "x"), ("Content-Length", "1234"), ("Connection", "close")]);
    assert_eq!(find_content_length(&headers), Some(1234));
    let headers = pairs(&[("CONTENT-LENGTH", "7")]);
    assert_eq!(find_content_length(&headers), Some(7));
}

#[test]
fn content_length_first_match_wins() {
    let headers = pairs(&[("content-length", "5"), ("Content-Length", "9")]);
    assert_eq!(find_content_length(&headers), Some(5));
}

#[test]
fn content_length_missing_or_malformed() {
    assert_eq!(find_content_length(&pairs(&[("Server", "x")])), None);
    assert_eq!(find_content_length(&pairs(&[("Content-Length", "many")])), None);
}

#[test]
fn response_head_judgement() {
    let with_len = pairs(&[("Content-Length", "42")]);
    assert_eq!(process_response_head(200, &with_len), Ok(BodyPlan::Exact(42)));
    assert_eq!(process_response_head(204, &pairs(&[])), Ok(BodyPlan::UntilEof));
    assert_eq!(process_response_head(404, &with_len), Err(404));
    assert_eq!(process_response_head(500, &pairs(&[])), Err(500));
}

#[test]
fn tally_derivation() {
    let numbers: Vec<u16> = vec![1, 2, 3, 4];
    let m = derive_tally(2, 3, &numbers);
    assert_eq!(m.len(), 4);
    assert_eq!(m[&1], TallyData::OFF);
    assert_eq!(m[&2], TallyData::PROGRAM);
    assert_eq!(m[&3], TallyData::PREVIEW);
    assert_eq!(m[&4], TallyData::OFF);
}

#[test]
fn tally_derivation_active_wins_over_preview() {
    // when active and preview point at the same input, program wins
    let numbers: Vec<u16> = vec![5];
    let m = derive_tally(5, 5, &numbers);
    assert_eq!(m[&5], TallyData::PROGRAM);
}
