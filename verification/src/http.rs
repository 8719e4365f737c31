//! The pure logic of the HTTP query interface: building the `/api` query
//! string, judging a response head, and deriving tally state from the
//! state document.
//!
//! The HTTP transport itself — sockets, requests, awaits — lives outside
//! the library; it hands plain values in and takes plain values back.

use vstd::prelude::*;

use std::collections::HashMap;

use crate::commands::TallyData;
use crate::text::{dec_chars, dec_digits_part, dec_value, parse_u64, parses_as_u64, u64_to_string};
use crate::InputNumber;
use vstd::utf8::encode_utf8;

verus! {

broadcast use vstd::std_specs::hash::group_hash_axioms;

/// The bytes that URL encoding leaves as they are: ASCII alphanumerics
/// and `-`, `.`, `_`, `~`.
pub open spec fn is_url_safe_byte(b: u8) -> bool {
    (48 <= b <= 57) || (65 <= b <= 90) || (97 <= b <= 122) || b == 45 || b == 46 || b == 95 || b
        == 126
}

/// Uppercase hexadecimal digit characters.
pub open spec fn hex_digit_char(d: u8) -> char
    recommends
        d < 16,
{
    if d == 0 {
        '0'
    } else if d == 1 {
        '1'
    } else if d == 2 {
        '2'
    } else if d == 3 {
        '3'
    } else if d == 4 {
        '4'
    } else if d == 5 {
        '5'
    } else if d == 6 {
        '6'
    } else if d == 7 {
        '7'
    } else if d == 8 {
        '8'
    } else if d == 9 {
        '9'
    } else if d == 10 {
        'A'
    } else if d == 11 {
        'B'
    } else if d == 12 {
        'C'
    } else if d == 13 {
        'D'
    } else if d == 14 {
        'E'
    } else {
        'F'
    }
}

/// How URL encoding renders one byte: kept as is when safe, otherwise a
/// percent escape with uppercase hex digits.
pub open spec fn percent_byte_chars(b: u8) -> Seq<char> {
    if is_url_safe_byte(b) {
        seq![b as char]
    } else {
        seq!['%', hex_digit_char(b / 16), hex_digit_char(b % 16)]
    }
}

/// The URL encoding of a byte string.
pub open spec fn percent_encoding(bytes: Seq<u8>) -> Seq<char>
    decreases bytes.len(),
{
    if bytes.len() == 0 {
        Seq::empty()
    } else {
        percent_byte_chars(bytes[0]) + percent_encoding(bytes.drop_first())
    }
}

/// Relies on `urlencoding::encode`: percent-encodes every byte of the
/// string's UTF-8 form except ASCII alphanumerics and `-`, `.`, `_`, `~`,
/// writing escapes with uppercase hex digits.
#[verifier::external_body]
pub(crate) fn url_encode(s: &str) -> (r: String)
    ensures
        r@ == percent_encoding(encode_utf8(s@)),
{
    urlencoding::encode(s).into_owned()
}

/// One encoded `key=value` pair.
pub open spec fn query_pair_text(k: Seq<char>, v: Seq<char>) -> Seq<char> {
    percent_encoding(encode_utf8(k)) + "="@ + percent_encoding(encode_utf8(v))
}

/// The encoded pairs joined with `&`, in the order given.
pub open spec fn query_pairs_text(params: Seq<(String, String)>) -> Seq<char>
    decreases params.len(),
{
    if params.len() == 0 {
        Seq::empty()
    } else if params.len() == 1 {
        query_pair_text(params[0].0@, params[0].1@)
    } else {
        query_pairs_text(params.drop_last()) + "&"@ + query_pair_text(
            params.last().0@,
            params.last().1@,
        )
    }
}

/// The full query string: empty for no parameters, otherwise `?` and the
/// joined pairs.
pub open spec fn full_query_text(params: Seq<(String, String)>) -> Seq<char> {
    if params.len() == 0 {
        Seq::empty()
    } else {
        "?"@ + query_pairs_text(params)
    }
}

/// Build the query string for a request, URL-encoding every key and
/// value and keeping the given parameter order.
pub fn build_query_string(params: &Vec<(String, String)>) -> (r: String)
    ensures
        r@ == full_query_text(params@),
{
    let mut r = String::new();
    let mut i: usize = 0;
    while i < params.len()
        invariant
            i <= params@.len(),
            r@ == (if i == 0 {
                Seq::<char>::empty()
            } else {
                "?"@ + query_pairs_text(params@.subrange(0, i as int))
            }),
        decreases params@.len() - i,
    {
        if i == 0 {
            r.append("?");
        } else {
            r.append("&");
        }
        let ek = url_encode(params[i].0.as_str());
        r.append(ek.as_str());
        r.append("=");
        let ev = url_encode(params[i].1.as_str());
        r.append(ev.as_str());
        proof {
            let p = params@.subrange(0, i + 1);
            assert(p.drop_last() =~= params@.subrange(0, i as int));
            assert(p.last() == params@[i as int]);
            assert(r@ =~= "?"@ + query_pairs_text(p));
        }
        i += 1;
    }
    proof {
        assert(params@.subrange(0, params@.len() as int) =~= params@);
        if params@.len() == 0 {
            assert(r@ =~= full_query_text(params@));
        }
    }
    r
}

/// The query parameters of a function invocation: the `Function` name
/// first, then the caller's parameters in their given order.
pub fn function_query(function: &str, params: &Vec<(String, String)>) -> (r: Vec<(String, String)>)
    ensures
        r@.len() == params@.len() + 1,
        r@[0].0@ == "Function"@,
        r@[0].1@ == function@,
        forall|i: int| 0 <= i < params@.len() ==> r@[i + 1] == params@[i],
{
    let mut r: Vec<(String, String)> = Vec::new();
    r.push(("Function".to_owned(), function.to_owned()));
    let mut i: usize = 0;
    while i < params.len()
        invariant
            i <= params@.len(),
            r@.len() == i + 1,
            r@[0].0@ == "Function"@,
            r@[0].1@ == function@,
            forall|j: int| 0 <= j < i ==> r@[j + 1] == params@[j],
        decreases params@.len() - i,
    {
        let k = params[i].0.clone();
        let v = params[i].1.clone();
        r.push((k, v));
        i += 1;
    }
    r
}

/// The request target for the query endpoint with the given parameters.
pub fn api_uri(params: &Vec<(String, String)>) -> (r: String)
    ensures
        r@ == "/api"@ + full_query_text(params@),
{
    let mut r = "/api".to_owned();
    let q = build_query_string(params);
    r.append(q.as_str());
    r
}

/// The base URL of the query endpoint for a host and port.
pub open spec fn base_url_text(host: Seq<char>, port: u16) -> Seq<char> {
    "http://"@ + host + ":"@ + dec_chars(port as nat) + "/api"@
}

pub fn base_url_for(host: &str, port: u16) -> (r: String)
    ensures
        r@ == base_url_text(host@, port),
{
    let mut r = "http://".to_owned();
    r.append(host);
    r.append(":");
    let p = u64_to_string(port as u64);
    r.append(p.as_str());
    r.append("/api");
    proof {
        assert(r@ =~= base_url_text(host@, port));
    }
    r
}

/// Whether a status code counts as success.
pub fn is_success_status(code: u16) -> (r: bool)
    ensures
        r == (200 <= code < 300),
{
    200 <= code && code < 300
}

/// Case-insensitive equality of two ASCII characters.
pub open spec fn ascii_eq_nocase_char(c: char, p: char) -> bool {
    c == p || ('A' <= c && c <= 'Z' && 'a' <= p && p <= 'z' && c as int + 32 == p as int) || ('a'
        <= c && c <= 'z' && 'A' <= p && p <= 'Z' && c as int - 32 == p as int)
}

pub open spec fn ascii_eq_nocase(a: Seq<char>, b: Seq<char>) -> bool {
    a.len() == b.len() && forall|i: int|
        0 <= i < a.len() ==> ascii_eq_nocase_char(#[trigger] a[i], b[i])
}

/// Compare two strings for equality ignoring ASCII case.
pub fn str_eq_nocase(a: &str, b: &str) -> (r: bool)
    ensures
        r == ascii_eq_nocase(a@, b@),
{
    let an = a.unicode_len();
    let bn = b.unicode_len();
    if an != bn {
        return false;
    }
    let mut i: usize = 0;
    while i < an
        invariant
            an == a@.len(),
            bn == b@.len(),
            an == bn,
            i <= an,
            forall|j: int| 0 <= j < i ==> ascii_eq_nocase_char(#[trigger] a@[j], b@[j]),
        decreases an - i,
    {
        let ca = a.get_char(i);
        let cb = b.get_char(i);
        let same = ca == cb || ('A' <= ca && ca <= 'Z' && 'a' <= cb && cb <= 'z' && ca as u32 + 32
            == cb as u32) || ('a' <= ca && ca <= 'z' && 'A' <= cb && cb <= 'Z' && ca as u32 - 32
            == cb as u32);
        if !same {
            assert(!ascii_eq_nocase_char(a@[i as int], b@[i as int]));
            return false;
        }
        i += 1;
    }
    true
}

pub open spec fn is_content_length_name(s: Seq<char>) -> bool {
    ascii_eq_nocase(s, "content-length"@)
}

/// The value of the first `Content-Length` header, if any.
pub open spec fn first_content_length(hs: Seq<(String, String)>) -> Option<Seq<char>>
    decreases hs.len(),
{
    if hs.len() == 0 {
        Option::None
    } else if is_content_length_name(hs[0].0@) {
        Option::Some(hs[0].1@)
    } else {
        first_content_length(hs.drop_first())
    }
}

proof fn lemma_first_cl_skip(hs: Seq<(String, String)>, i: int)
    requires
        0 <= i < hs.len(),
        !is_content_length_name(hs[i].0@),
    ensures
        first_content_length(hs.subrange(i, hs.len() as int)) == first_content_length(
            hs.subrange(i + 1, hs.len() as int),
        ),
{
    let t = hs.subrange(i, hs.len() as int);
    assert(t.drop_first() =~= hs.subrange(i + 1, hs.len() as int));
}

/// Find the body length a response head announces: the first
/// `Content-Length` header (compared ignoring ASCII case) whose value is
/// a well-formed number.
pub fn find_content_length(headers: &Vec<(String, String)>) -> (r: Option<u64>)
    ensures
        r == (match first_content_length(headers@) {
            Option::Some(v) => if parses_as_u64(v) {
                Option::Some(dec_value(dec_digits_part(v)) as u64)
            } else {
                Option::None
            },
            Option::None => Option::None::<u64>,
        }),
{
    let n = headers.len();
    proof {
        assert(headers@.subrange(0, n as int) =~= headers@);
    }
    let mut i: usize = 0;
    while i < n
        invariant
            i <= n,
            n == headers@.len(),
            first_content_length(headers@.subrange(i as int, n as int)) == first_content_length(
                headers@,
            ),
        decreases n - i,
    {
        if str_eq_nocase(headers[i].0.as_str(), "content-length") {
            proof {
                let t = headers@.subrange(i as int, n as int);
                assert(t[0] == headers@[i as int]);
            }
            return parse_u64(headers[i].1.as_str());
        }
        proof {
            lemma_first_cl_skip(headers@, i as int);
        }
        i += 1;
    }
    None
}

/// How the body of a response is to be read: exactly the announced
/// number of bytes, or until the peer closes the connection.
#[derive(Debug, Clone, Copy, PartialEq, Eq, Structural)]
pub enum BodyPlan {
    Exact(u64),
    UntilEof,
}

/// Judge a decoded response head: a status outside 2xx fails the request
/// with that code; otherwise the body is read to the announced
/// `Content-Length`, or to end of stream when none is announced.
pub fn process_response_head(status_code: u16, headers: &Vec<(String, String)>) -> (r: Result<
    BodyPlan,
    u16,
>)
    ensures
        match r {
            Ok(plan) => 200 <= status_code < 300 && plan == (match first_content_length(
                headers@,
            ) {
                Option::Some(v) => if parses_as_u64(v) {
                    BodyPlan::Exact(dec_value(dec_digits_part(v)) as u64)
                } else {
                    BodyPlan::UntilEof
                },
                Option::None => BodyPlan::UntilEof,
            }),
            Err(c) => c == status_code && !(200 <= status_code < 300),
        },
{
    if !is_success_status(status_code) {
        return Err(status_code);
    }
    match find_content_length(headers) {
        Some(n) => Ok(BodyPlan::Exact(n)),
        None => Ok(BodyPlan::UntilEof),
    }
}

/// The tally state of one input, derived from the state document's
/// active and preview input numbers.
pub open spec fn tally_for(num: u16, active: u16, preview: u16) -> TallyData {
    if num == active {
        TallyData::PROGRAM
    } else if num == preview {
        TallyData::PREVIEW
    } else {
        TallyData::OFF
    }
}

/// Derive the tally mapping from the state document: the query endpoint
/// has no tally request, so program and preview are read off the
/// document's active and preview numbers, every other listed input is
/// off.
pub fn derive_tally(active: InputNumber, preview: InputNumber, numbers: &Vec<InputNumber>) -> (m:
    HashMap<InputNumber, TallyData>)
    ensures
        forall|k: InputNumber| #[trigger] m@.contains_key(k) <==> numbers@.contains(k),
        forall|k: InputNumber|
            numbers@.contains(k) ==> #[trigger] m@[k] == tally_for(k, active, preview),
{
    let mut m: HashMap<InputNumber, TallyData> = HashMap::new();
    let n = numbers.len();
    let mut i: usize = 0;
    while i < n
        invariant
            i <= n,
            n == numbers@.len(),
            forall|k: InputNumber| #[trigger]
                m@.contains_key(k) <==> numbers@.subrange(0, i as int).contains(k),
            forall|k: InputNumber|
                numbers@.subrange(0, i as int).contains(k) ==> #[trigger] m@[k] == tally_for(
                    k,
                    active,
                    preview,
                ),
        decreases n - i,
    {
        let num = numbers[i];
        let td = if num == active {
            TallyData::PROGRAM
        } else if num == preview {
            TallyData::PREVIEW
        } else {
            TallyData::OFF
        };
        m.insert(num, td);
        proof {
            let p = numbers@.subrange(0, i + 1);
            assert forall|k: InputNumber| #[trigger] m@.contains_key(k) implies p.contains(k) by {
                if k == num {
                    assert(p[i as int] == num);
                } else {
                    let q = numbers@.subrange(0, i as int);
                    assert(q.contains(k));
                    let w = choose|w: int| 0 <= w < q.len() && q[w] == k;
                    assert(p[w] == k);
                }
            }
            assert forall|k: InputNumber| p.contains(k) implies m@.contains_key(k) by {
                if k != num {
                    let w = choose|w: int| 0 <= w < p.len() && p[w] == k;
                    assert(numbers@.subrange(0, i as int)[w] == k);
                }
            }
            assert forall|k: InputNumber| p.contains(k) implies #[trigger] m@[k] == tally_for(
                k,
                active,
                preview,
            ) by {
                if k != num {
                    let w = choose|w: int| 0 <= w < p.len() && p[w] == k;
                    assert(numbers@.subrange(0, i as int)[w] == k);
                    assert(numbers@.subrange(0, i as int).contains(k));
                }
            }
        }
        i += 1;
    }
    proof {
        assert(numbers@.subrange(0, n as int) =~= numbers@);
    }
    m
}

} // verus!
