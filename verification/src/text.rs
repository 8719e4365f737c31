//! Character-level text utilities for the wire protocol: whitespace
//! tokenization, decimal parsing and formatting, and string comparison.
//! The wire format is line-oriented ASCII, so everything here is defined
//! over sequences of characters.

use vstd::prelude::*;

verus! {

/// The whitespace characters that separate tokens on a wire line.
pub open spec fn is_wire_space(c: char) -> bool {
    c == ' ' || c == '\t' || c == '\r' || c == '\n'
}

pub open spec fn is_dec_digit(c: char) -> bool {
    '0' <= c && c <= '9'
}

pub open spec fn digit_value(c: char) -> nat
    recommends
        is_dec_digit(c),
{
    (c as int - '0' as int) as nat
}

pub open spec fn all_dec_digits(s: Seq<char>) -> bool {
    forall|i: int| 0 <= i < s.len() ==> is_dec_digit(#[trigger] s[i])
}

/// The numeric value of a sequence of decimal digits, most significant first.
pub open spec fn dec_value(s: Seq<char>) -> nat
    decreases s.len(),
{
    if s.len() == 0 {
        0
    } else {
        dec_value(s.drop_last()) * 10 + digit_value(s.last())
    }
}

/// The digits of a decimal token: Rust's unsigned parsers accept one
/// optional leading `+` before the digits.
pub open spec fn dec_digits_part(s: Seq<char>) -> Seq<char> {
    if s.len() > 0 && s[0] == '+' {
        s.subrange(1, s.len() as int)
    } else {
        s
    }
}

/// Whether `str::parse::<u64>` accepts the token.
pub open spec fn parses_as_u64(s: Seq<char>) -> bool {
    let d = dec_digits_part(s);
    d.len() > 0 && all_dec_digits(d) && dec_value(d) <= u64::MAX
}

/// Whether `str::parse::<u16>` accepts the token.
pub open spec fn parses_as_u16(s: Seq<char>) -> bool {
    let d = dec_digits_part(s);
    d.len() > 0 && all_dec_digits(d) && dec_value(d) <= u16::MAX
}

proof fn lemma_dec_value_step(s: Seq<char>, i: int)
    requires
        0 <= i < s.len(),
    ensures
        dec_value(s.subrange(0, i + 1)) == dec_value(s.subrange(0, i)) * 10 + digit_value(s[i]),
{
    let p = s.subrange(0, i + 1);
    assert(p.drop_last() =~= s.subrange(0, i));
    assert(p.last() == s[i]);
}

/// Extending a digit string on the right never decreases its value.
proof fn lemma_dec_value_prefix(s: Seq<char>, i: int)
    requires
        0 <= i <= s.len(),
    ensures
        dec_value(s.subrange(0, i)) <= dec_value(s),
    decreases s.len() - i,
{
    if i == s.len() {
        assert(s.subrange(0, i) =~= s);
    } else {
        lemma_dec_value_step(s, i);
        lemma_dec_value_prefix(s, i + 1);
        assert(dec_value(s.subrange(0, i)) <= dec_value(s.subrange(0, i + 1)))
            by (nonlinear_arith)
            requires
                dec_value(s.subrange(0, i + 1)) == dec_value(s.subrange(0, i)) * 10 + digit_value(
                    s[i],
                ),
        ;
    }
}

/// Compare two string slices character by character.
pub fn str_eq(a: &str, b: &str) -> (r: bool)
    ensures
        r == (a@ == b@),
{
    let an = a.unicode_len();
    let bn = b.unicode_len();
    if an != bn {
        assert(a@ != b@) by {
            assert(a@.len() != b@.len());
        }
        return false;
    }
    let mut i: usize = 0;
    while i < an
        invariant
            an == a@.len(),
            bn == b@.len(),
            an == bn,
            i <= an,
            forall|j: int| 0 <= j < i ==> a@[j] == b@[j],
        decreases an - i,
    {
        if a.get_char(i) != b.get_char(i) {
            assert(a@ != b@) by {
                assert(a@[i as int] != b@[i as int]);
            }
            return false;
        }
        i += 1;
    }
    assert(a@ =~= b@);
    true
}

/// Parse a decimal token the way `str::parse::<u64>` does: an optional
/// leading `+`, then at least one digit, rejecting values past `u64::MAX`.
pub fn parse_u64(s: &str) -> (r: Option<u64>)
    ensures
        match r {
            Some(n) => parses_as_u64(s@) && n == dec_value(dec_digits_part(s@)),
            None => !parses_as_u64(s@),
        },
{
    let n = s.unicode_len();
    let mut start: usize = 0;
    if n > 0 && s.get_char(0) == '+' {
        start = 1;
    }
    let ghost d = dec_digits_part(s@);
    proof {
        assert(d =~= s@.subrange(start as int, n as int));
    }
    if start == n {
        // no digits at all
        return None;
    }
    let mut acc: u64 = 0;
    let mut i: usize = start;
    while i < n
        invariant
            start <= i <= n,
            n == s@.len(),
            start < n,
            d == dec_digits_part(s@),
            d =~= s@.subrange(start as int, n as int),
            all_dec_digits(d.subrange(0, i - start)),
            acc == dec_value(d.subrange(0, i - start)),
        decreases n - i,
    {
        let c = s.get_char(i);
        if !('0' <= c && c <= '9') {
            assert(!all_dec_digits(d)) by {
                assert(d[i - start] == c);
            }
            return None;
        }
        let dv: u64 = (c as u32 - 48) as u64;
        assert(dv == digit_value(c));
        if acc > (u64::MAX - dv) / 10 {
            // the value no longer fits in a u64
            proof {
                let k = i - start + 1;
                assert(d[k - 1] == c);
                lemma_dec_value_step(d, k - 1);
                assert(acc * 10 + dv > u64::MAX) by (nonlinear_arith)
                    requires
                        acc > (u64::MAX - dv) / 10,
                        dv <= 9,
                ;
                if all_dec_digits(d) {
                    lemma_dec_value_prefix(d, k);
                }
            }
            return None;
        }
        proof {
            assert(acc * 10 + dv <= u64::MAX) by (nonlinear_arith)
                requires
                    acc <= (u64::MAX - dv) / 10,
                    dv <= 9,
            ;
            let k = i - start;
            assert(d[k] == c);
            lemma_dec_value_step(d, k);
            assert forall|j: int| 0 <= j < k + 1 implies is_dec_digit(
                #[trigger] d.subrange(0, k + 1)[j],
            ) by {
                if j < k {
                    assert(d.subrange(0, k + 1)[j] == d.subrange(0, k)[j]);
                } else {
                    assert(d.subrange(0, k + 1)[j] == c);
                }
            }
        }
        acc = acc * 10 + dv;
        i += 1;
    }
    proof {
        assert(d.subrange(0, n - start) =~= d);
    }
    Some(acc)
}

/// The input-number value of a token: the parsed `u16`, or 0 when the
/// token is not a well-formed 16-bit decimal number.
pub open spec fn spec_input_number(s: Seq<char>) -> u16 {
    if parses_as_u16(s) {
        dec_value(dec_digits_part(s)) as u16
    } else {
        0
    }
}

/// Parse an input-number token, falling back to 0 on malformed input.
pub fn parse_input_number(value: &str) -> (r: u16)
    ensures
        r == spec_input_number(value@),
{
    match parse_u64(value) {
        Some(n) => {
            if n <= u16::MAX as u64 {
                n as u16
            } else {
                0
            }
        },
        None => 0,
    }
}

/// Whether the token is the literal `"1"`, the wire encoding of `true`.
pub fn is_active(value: &str) -> (r: bool)
    ensures
        r == (value@ == "1"@),
{
    str_eq(value, "1")
}

pub open spec fn dec_digit_char(d: nat) -> char
    recommends
        d < 10,
{
    if d == 0 {
        '0'
    } else if d == 1 {
        '1'
    } else if d == 2 {
        '2'
    } else if d == 3 {
        '3'
    } else if d == 4 {
        '4'
    } else if d == 5 {
        '5'
    } else if d == 6 {
        '6'
    } else if d == 7 {
        '7'
    } else if d == 8 {
        '8'
    } else {
        '9'
    }
}

/// The decimal rendering of a number, as `u64`'s `Display` writes it.
pub open spec fn dec_chars(n: nat) -> Seq<char>
    decreases n,
{
    if n < 10 {
        seq![dec_digit_char(n)]
    } else {
        dec_chars(n / 10).push(dec_digit_char(n % 10))
    }
}

fn dec_digit_str(d: u64) -> (r: &'static str)
    requires
        d < 10,
    ensures
        r@ =~= seq![dec_digit_char(d as nat)],
{
    proof {
        reveal_strlit("0");
        reveal_strlit("1");
        reveal_strlit("2");
        reveal_strlit("3");
        reveal_strlit("4");
        reveal_strlit("5");
        reveal_strlit("6");
        reveal_strlit("7");
        reveal_strlit("8");
        reveal_strlit("9");
    }
    match d {
        0 => "0",
        1 => "1",
        2 => "2",
        3 => "3",
        4 => "4",
        5 => "5",
        6 => "6",
        7 => "7",
        8 => "8",
        _ => "9",
    }
}

/// Render a number in decimal.
pub fn u64_to_string(n: u64) -> (r: String)
    ensures
        r@ == dec_chars(n as nat),
    decreases n,
{
    if n < 10 {
        dec_digit_str(n).to_owned()
    } else {
        let mut s = u64_to_string(n / 10);
        s.append(dec_digit_str(n % 10));
        assert(s@ =~= dec_chars(n as nat));
        s
    }
}

/// Round trip: parsing a rendered number gives the number back.
pub proof fn lemma_dec_chars_value(n: nat)
    ensures
        dec_chars(n).len() > 0,
        all_dec_digits(dec_chars(n)),
        dec_value(dec_chars(n)) == n,
    decreases n,
{
    if n < 10 {
        let s = dec_chars(n);
        assert(s.len() == 1);
        assert(s.last() == dec_digit_char(n));
        assert(s.drop_last() =~= Seq::<char>::empty());
        assert(dec_value(Seq::<char>::empty()) == 0);
        assert(dec_value(s) == dec_value(s.drop_last()) * 10 + digit_value(s.last()));
        assert(digit_value(dec_digit_char(n)) == n);
    } else {
        lemma_dec_chars_value(n / 10);
        let s = dec_chars(n);
        assert(s.drop_last() == dec_chars(n / 10));
        assert(s.last() == dec_digit_char(n % 10));
        assert(digit_value(dec_digit_char(n % 10)) == n % 10);
        assert(dec_value(s) == (n / 10) * 10 + n % 10);
        assert((n / 10) * 10 + n % 10 == n) by (nonlinear_arith);
        assert forall|i: int| 0 <= i < s.len() implies is_dec_digit(#[trigger] s[i]) by {
            if i < s.len() - 1 {
                assert(s[i] == dec_chars(n / 10)[i]);
            } else {
                assert(s[i] == dec_digit_char(n % 10));
            }
        }
    }
}

/// The length of the leading run of non-whitespace characters.
pub open spec fn token_len(s: Seq<char>) -> nat
    decreases s.len(),
{
    if s.len() == 0 || is_wire_space(s[0]) {
        0
    } else {
        1 + token_len(s.drop_first())
    }
}

pub proof fn lemma_token_len(s: Seq<char>)
    ensures
        token_len(s) <= s.len(),
        forall|i: int| 0 <= i < token_len(s) ==> !is_wire_space(#[trigger] s[i]),
        token_len(s) < s.len() ==> is_wire_space(s[token_len(s) as int]),
    decreases s.len(),
{
    if s.len() == 0 || is_wire_space(s[0]) {
    } else {
        lemma_token_len(s.drop_first());
        assert forall|i: int| 0 <= i < token_len(s) implies !is_wire_space(#[trigger] s[i]) by {
            if i > 0 {
                assert(s[i] == s.drop_first()[i - 1]);
            }
        }
        if token_len(s) < s.len() {
            assert(s[token_len(s) as int] == s.drop_first()[token_len(s.drop_first()) as int]);
        }
    }
}

/// A leading run of `k` non-whitespace characters bounded by whitespace or
/// the end of the string is exactly the leading token.
pub proof fn lemma_token_len_is(s: Seq<char>, k: int)
    requires
        0 <= k <= s.len(),
        forall|i: int| 0 <= i < k ==> !is_wire_space(#[trigger] s[i]),
        k == s.len() || is_wire_space(s[k]),
    ensures
        token_len(s) == k,
    decreases s.len(),
{
    if k == 0 {
    } else {
        assert(!is_wire_space(s[0]));
        assert forall|i: int| 0 <= i < k - 1 implies !is_wire_space(#[trigger] s.drop_first()[i]) by {
            assert(s.drop_first()[i] == s[i + 1]);
        }
        if k < s.len() {
            assert(s.drop_first()[k - 1] == s[k]);
        }
        lemma_token_len_is(s.drop_first(), k - 1);
    }
}

/// The whitespace-separated tokens of a line, in order.
pub open spec fn split_ws(s: Seq<char>) -> Seq<Seq<char>>
    decreases s.len(),
    when s.len() >= 0
    via split_ws_decreases
{
    if s.len() == 0 {
        Seq::empty()
    } else if is_wire_space(s[0]) {
        split_ws(s.drop_first())
    } else {
        seq![s.subrange(0, token_len(s) as int)] + split_ws(
            s.subrange(token_len(s) as int, s.len() as int),
        )
    }
}

#[via_fn]
proof fn split_ws_decreases(s: Seq<char>) {
    if s.len() > 0 && !is_wire_space(s[0]) {
        lemma_token_len(s);
        assert(token_len(s) >= 1);
    }
}

proof fn lemma_split_ws_skip_space(s: Seq<char>, i: int)
    requires
        0 <= i < s.len(),
        is_wire_space(s[i]),
    ensures
        split_ws(s.subrange(i, s.len() as int)) == split_ws(s.subrange(i + 1, s.len() as int)),
{
    let t = s.subrange(i, s.len() as int);
    assert(t.drop_first() =~= s.subrange(i + 1, s.len() as int));
}

proof fn lemma_split_ws_take_token(s: Seq<char>, i: int, j: int)
    requires
        0 <= i < j <= s.len(),
        forall|k: int| i <= k < j ==> !is_wire_space(#[trigger] s[k]),
        j == s.len() || is_wire_space(s[j]),
    ensures
        split_ws(s.subrange(i, s.len() as int)) == seq![s.subrange(i, j)] + split_ws(
            s.subrange(j, s.len() as int),
        ),
{
    let t = s.subrange(i, s.len() as int);
    assert forall|k: int| 0 <= k < j - i implies !is_wire_space(#[trigger] t[k]) by {
        assert(t[k] == s[i + k]);
    }
    if j - i < t.len() {
        assert(t[j - i] == s[j]);
    }
    lemma_token_len_is(t, j - i);
    assert(!is_wire_space(t[0]));
    assert(t.subrange(0, j - i) =~= s.subrange(i, j));
    assert(t.subrange(j - i, t.len() as int) =~= s.subrange(j, s.len() as int));
}

/// Split a line into its whitespace-separated tokens.
pub fn tokenize(s: &str) -> (toks: Vec<String>)
    ensures
        toks@.map_values(|t: String| t@) == split_ws(s@),
{
    let n = s.unicode_len();
    let mut toks: Vec<String> = Vec::new();
    proof {
        assert(s@.subrange(0, n as int) =~= s@);
        assert(toks@.map_values(|t: String| t@) =~= Seq::<Seq<char>>::empty());
    }
    let mut i: usize = 0;
    while i < n
        invariant
            i <= n,
            n == s@.len(),
            toks@.map_values(|t: String| t@) + split_ws(s@.subrange(i as int, n as int)) == split_ws(
                s@,
            ),
        decreases n - i,
    {
        let c = s.get_char(i);
        if c == ' ' || c == '\t' || c == '\r' || c == '\n' {
            proof {
                lemma_split_ws_skip_space(s@, i as int);
            }
            i += 1;
        } else {
            let start = i;
            let mut j = i + 1;
            loop
                invariant
                    start < j <= n,
                    n == s@.len(),
                    forall|k: int| start <= k < j ==> !is_wire_space(#[trigger] s@[k]),
                ensures
                    start < j <= n,
                    forall|k: int| start <= k < j ==> !is_wire_space(#[trigger] s@[k]),
                    j == n || is_wire_space(s@[j as int]),
                decreases n - j,
            {
                if j == n {
                    break;
                }
                let c2 = s.get_char(j);
                if c2 == ' ' || c2 == '\t' || c2 == '\r' || c2 == '\n' {
                    break;
                }
                j += 1;
            }
            let tok = s.substring_char(start, j).to_owned();
            proof {
                lemma_split_ws_take_token(s@, start as int, j as int);
            }
            let ghost old_toks = toks@;
            toks.push(tok);
            proof {
                assert(toks@.map_values(|t: String| t@) =~= old_toks.map_values(|t: String| t@)
                    + seq![s@.subrange(start as int, j as int)]);
            }
            i = j;
        }
    }
    proof {
        assert(split_ws(s@.subrange(n as int, n as int)) =~= Seq::<Seq<char>>::empty());
        assert(toks@.map_values(|t: String| t@) =~= toks@.map_values(|t: String| t@) + split_ws(
            s@.subrange(n as int, n as int),
        ));
    }
    toks
}

/// The text with trailing wire whitespace removed.
pub open spec fn trim_end_ws(s: Seq<char>) -> Seq<char>
    decreases s.len(),
{
    if s.len() > 0 && is_wire_space(s.last()) {
        trim_end_ws(s.drop_last())
    } else {
        s
    }
}

/// Remove trailing whitespace, as the codec does to a decoded payload.
pub fn trim_end(s: &str) -> (r: String)
    ensures
        r@ == trim_end_ws(s@),
{
    let n = s.unicode_len();
    proof {
        assert(s@.subrange(0, n as int) =~= s@);
    }
    let mut j = n;
    loop
        invariant
            j <= n,
            n == s@.len(),
            trim_end_ws(s@.subrange(0, j as int)) == trim_end_ws(s@),
        ensures
            j <= n,
            n == s@.len(),
            trim_end_ws(s@.subrange(0, j as int)) == trim_end_ws(s@),
            j == 0 || !is_wire_space(s@[j - 1]),
        decreases j,
    {
        if j == 0 {
            break;
        }
        let c = s.get_char(j - 1);
        if !(c == ' ' || c == '\t' || c == '\r' || c == '\n') {
            break;
        }
        proof {
            let t = s@.subrange(0, j as int);
            assert(t.last() == s@[j - 1]);
            assert(t.drop_last() =~= s@.subrange(0, j - 1));
        }
        j -= 1;
    }
    proof {
        let t = s@.subrange(0, j as int);
        if j > 0 {
            assert(t.last() == s@[j - 1]);
        }
        assert(trim_end_ws(t) == t);
    }
    s.substring_char(0, j).to_owned()
}

} // verus!
