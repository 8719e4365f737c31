//! The wire codec: typed commands and events, and their translation to
//! and from the line-oriented wire format.
//!
//! A request is one ASCII line `<KEYWORD> [args...]\r\n`.  A response is
//! one line `<KEYWORD> <STATUS> [body]`, except for the XML state
//! snapshot, whose header line announces a byte length and is followed by
//! exactly that many raw bytes.

use vstd::prelude::*;

use std::collections::HashMap;

use crate::acts::{
    acts_decodes, acts_error_matches, acts_value_matches, token_views, ActivatorsData,
};
use crate::error::DecodeError;
use crate::text::{
    dec_chars, dec_digits_part, dec_value, is_dec_digit, parse_u64, parses_as_u64, split_ws,
    str_eq, tokenize, trim_end, trim_end_ws, u64_to_string,
};
use crate::InputNumber;
use vstd::utf8::{decode_utf8, encode_utf8, valid_utf8};

verus! {

broadcast use vstd::std_specs::hash::group_hash_axioms;

/// The status token of a response line: `OK`, `ER`, a byte length that
/// announces a following fixed-size payload, or an opaque detail string.
#[derive(Debug, Clone)]
pub enum Status {
    OK,
    ER,
    Length(u64),
    Detail(String),
}

/// The status a given token denotes.  The format is forward-compatible:
/// a token that is neither `OK`, `ER` nor a number is carried as detail,
/// never rejected.
pub open spec fn spec_status(v: String) -> Status {
    if v@ == "OK"@ {
        Status::OK
    } else if v@ == "ER"@ {
        Status::ER
    } else if parses_as_u64(v@) {
        Status::Length(dec_value(dec_digits_part(v@)) as u64)
    } else {
        Status::Detail(v)
    }
}

/// Relates a status token to the status it decodes to.
pub open spec fn status_matches(t: Seq<char>, st: Status) -> bool {
    match st {
        Status::OK => t == "OK"@,
        Status::ER => t == "ER"@,
        Status::Length(n) => t != "OK"@ && t != "ER"@ && parses_as_u64(t) && n == dec_value(
            dec_digits_part(t),
        ),
        Status::Detail(d) => t != "OK"@ && t != "ER"@ && !parses_as_u64(t) && d@ == t,
    }
}

pub proof fn lemma_status_spec_matches(v: String)
    ensures
        status_matches(v@, spec_status(v)),
{
}

impl From<String> for Status {
    fn from(value: String) -> (r: Status) {
        if str_eq(value.as_str(), "OK") {
            Status::OK
        } else if str_eq(value.as_str(), "ER") {
            Status::ER
        } else {
            match parse_u64(value.as_str()) {
                Some(n) => Status::Length(n),
                None => Status::Detail(value),
            }
        }
    }
}

impl vstd::std_specs::convert::FromSpecImpl<String> for Status {
    open spec fn obeys_from_spec() -> bool {
        true
    }

    open spec fn from_spec(v: String) -> Status {
        spec_status(v)
    }
}

/// The tally state of one input: off the air, on program, or on preview.
#[derive(Debug, Clone, Copy, PartialEq, Eq, Structural)]
pub enum TallyData {
    OFF,
    PROGRAM,
    PREVIEW,
}

/// The tally state a given digit character denotes.  Anything but `'1'`
/// or `'2'` is off: an unknown digit is a defensive fallback, never an
/// error.
pub open spec fn spec_tally_of(c: char) -> TallyData {
    if c == '1' {
        TallyData::PROGRAM
    } else if c == '2' {
        TallyData::PREVIEW
    } else {
        TallyData::OFF
    }
}

impl From<char> for TallyData {
    fn from(value: char) -> (r: TallyData) {
        if value == '1' {
            TallyData::PROGRAM
        } else if value == '2' {
            TallyData::PREVIEW
        } else {
            TallyData::OFF
        }
    }
}

impl vstd::std_specs::convert::FromSpecImpl<char> for TallyData {
    open spec fn obeys_from_spec() -> bool {
        true
    }

    open spec fn from_spec(v: char) -> TallyData {
        spec_tally_of(v)
    }
}

/// Relates a tally body string to the decoded mapping: exactly the keys
/// `1..=N` for a body of length `N`, each value determined solely by the
/// corresponding character.
pub open spec fn tally_map_matches(body: Seq<char>, m: Map<InputNumber, TallyData>) -> bool {
    body.len() <= u16::MAX ==> ((forall|k: InputNumber|
        #[trigger] m.contains_key(k) <==> 1 <= k <= body.len()) && (forall|k: InputNumber|
        1 <= k <= body.len() ==> #[trigger] m[k] == spec_tally_of(body[k - 1])))
}

/// Decode a tally body: character `i` (0-indexed) is the tally digit for
/// input `i + 1`.
pub fn decode_tally_body(body: &str) -> (m: HashMap<InputNumber, TallyData>)
    ensures
        tally_map_matches(body@, m@),
{
    let n = body.unicode_len();
    let mut m: HashMap<InputNumber, TallyData> = HashMap::new();
    let bound = if n > u16::MAX as usize {
        u16::MAX as usize
    } else {
        n
    };
    let mut i: usize = 0;
    while i < bound
        invariant
            bound <= u16::MAX as usize,
            bound <= n,
            n == body@.len(),
            i <= bound,
            forall|k: InputNumber| #[trigger] m@.contains_key(k) <==> 1 <= k <= i,
            forall|k: InputNumber| 1 <= k <= i ==> #[trigger] m@[k] == spec_tally_of(body@[k - 1]),
        decreases bound - i,
    {
        let c = body.get_char(i);
        let td = TallyData::from(c);
        m.insert((i + 1) as u16, td);
        i += 1;
    }
    m
}

/// One response frame decoded from the wire.
#[derive(Debug)]
pub struct TallyResponse {
    pub status: Status,
    pub body: HashMap<InputNumber, TallyData>,
}

#[derive(Debug, Clone)]
pub struct FunctionResponse {
    pub status: Status,
    pub body: Option<String>,
}

#[derive(Debug, Clone)]
pub struct XMLResponse {
    pub status: Status,
    pub body: String,
}

#[derive(Debug, Clone)]
pub struct XMLTextResponse {
    pub status: Status,
    pub body: Option<String>,
}

#[derive(Debug, Clone)]
pub struct SubscribeResponse {
    pub status: Status,
    pub body: Option<String>,
}

#[derive(Debug, Clone)]
pub struct UnsubscribeResponse {
    pub status: Status,
    pub body: Option<String>,
}

#[derive(Debug, Clone)]
pub struct VersionResponse {
    pub status: Status,
    pub version: Option<String>,
}

#[derive(Debug, Clone)]
pub struct ActivatorsResponse {
    pub status: Status,
    pub body: ActivatorsData,
}

/// One inbound event: a response frame of any kind.
#[derive(Debug)]
pub enum RecvCommand {
    TALLY(TallyResponse),
    FUNCTION(FunctionResponse),
    ACTS(ActivatorsResponse),
    XML(XMLResponse),
    XMLTEXT(XMLTextResponse),
    SUBSCRIBE(SubscribeResponse),
    UNSUBSCRIBE(UnsubscribeResponse),
    QUIT,
    VERSION(VersionResponse),
}

/// The event category of a subscription command.
#[derive(Debug, Clone, Copy, PartialEq, Eq, Structural)]
pub enum SUBSCRIBECommand {
    TALLY,
    ACTS,
}

impl SUBSCRIBECommand {
    pub open spec fn spec_keyword(self) -> Seq<char> {
        match self {
            SUBSCRIBECommand::TALLY => "TALLY"@,
            SUBSCRIBECommand::ACTS => "ACTS"@,
        }
    }

    /// The category tag as it appears on the wire.
    pub fn keyword(&self) -> (r: &'static str)
        ensures
            r@ == self.spec_keyword(),
    {
        match self {
            SUBSCRIBECommand::TALLY => "TALLY",
            SUBSCRIBECommand::ACTS => "ACTS",
        }
    }
}

/// One outbound request.
#[derive(Debug, Clone)]
pub enum SendCommand {
    TALLY,
    FUNCTION(String, Option<String>),
    ACTS(String, usize),
    XML,
    XMLTEXT(String),
    SUBSCRIBE(SUBSCRIBECommand),
    UNSUBSCRIBE(SUBSCRIBECommand),
    QUIT,
    VERSION,
    RAW(String),
}

/// The exact line a command encodes to.  Every command is terminated by
/// CRLF except the raw passthrough, which is sent as given.
pub open spec fn wire_text(cmd: SendCommand) -> Seq<char> {
    match cmd {
        SendCommand::TALLY => "TALLY\r\n"@,
        SendCommand::FUNCTION(func, query) => "FUNCTION "@ + func@ + " "@ + (match query {
            Some(q) => q@,
            None => Seq::<char>::empty(),
        }) + "\r\n"@,
        SendCommand::ACTS(command, input) => "ACTS "@ + command@ + " "@ + dec_chars(input as nat)
            + "\r\n"@,
        SendCommand::XML => "XML\r\n"@,
        SendCommand::XMLTEXT(path) => "XMLTEXT "@ + path@ + "\r\n"@,
        SendCommand::SUBSCRIBE(c) => "SUBSCRIBE "@ + c.spec_keyword() + "\r\n"@,
        SendCommand::UNSUBSCRIBE(c) => "UNSUBSCRIBE "@ + c.spec_keyword() + "\r\n"@,
        SendCommand::QUIT => "QUIT\r\n"@,
        SendCommand::VERSION => "VERSION\r\n"@,
        SendCommand::RAW(raw) => raw@,
    }
}

impl SendCommand {
    /// Render the command as its wire line.
    pub fn wire_string(&self) -> (r: String)
        ensures
            r@ == wire_text(*self),
    {
        match self {
            SendCommand::TALLY => "TALLY\r\n".to_owned(),
            SendCommand::FUNCTION(func, query) => {
                let mut s = "FUNCTION ".to_owned();
                s.append(func.as_str());
                s.append(" ");
                match query {
                    Some(q) => s.append(q.as_str()),
                    None => (),
                }
                s.append("\r\n");
                proof {
                    assert(s@ =~= wire_text(*self));
                }
                s
            },
            SendCommand::ACTS(command, input) => {
                let mut s = "ACTS ".to_owned();
                s.append(command.as_str());
                s.append(" ");
                let num = u64_to_string(*input as u64);
                s.append(num.as_str());
                s.append("\r\n");
                proof {
                    assert(s@ =~= wire_text(*self));
                }
                s
            },
            SendCommand::XML => "XML\r\n".to_owned(),
            SendCommand::XMLTEXT(path) => {
                let mut s = "XMLTEXT ".to_owned();
                s.append(path.as_str());
                s.append("\r\n");
                proof {
                    assert(s@ =~= wire_text(*self));
                }
                s
            },
            SendCommand::SUBSCRIBE(c) => {
                let mut s = "SUBSCRIBE ".to_owned();
                s.append(c.keyword());
                s.append("\r\n");
                proof {
                    assert(s@ =~= wire_text(*self));
                }
                s
            },
            SendCommand::UNSUBSCRIBE(c) => {
                let mut s = "UNSUBSCRIBE ".to_owned();
                s.append(c.keyword());
                s.append("\r\n");
                proof {
                    assert(s@ =~= wire_text(*self));
                }
                s
            },
            SendCommand::QUIT => "QUIT\r\n".to_owned(),
            SendCommand::VERSION => "VERSION\r\n".to_owned(),
            SendCommand::RAW(raw) => raw.clone(),
        }
    }

    /// Encode the command to the bytes that go out on the socket.
    pub fn encode(&self) -> (r: Vec<u8>)
        ensures
            r@ == encode_utf8(wire_text(*self)),
    {
        let text = self.wire_string();
        text.as_str().as_bytes_vec()
    }
}

/// Every encoded command ends in CRLF, except the raw passthrough.
pub proof fn lemma_encode_crlf_terminated(cmd: SendCommand)
    requires
        !(cmd matches SendCommand::RAW(_)),
    ensures
        wire_text(cmd).len() >= 2,
        wire_text(cmd)[wire_text(cmd).len() - 2] == '\r',
        wire_text(cmd)[wire_text(cmd).len() - 1] == '\n',
{
    reveal_strlit("TALLY\r\n");
    reveal_strlit("XML\r\n");
    reveal_strlit("QUIT\r\n");
    reveal_strlit("VERSION\r\n");
    reveal_strlit("\r\n");
    let t = wire_text(cmd);
    match cmd {
        SendCommand::TALLY => {
            assert(t[t.len() - 2] == '\r' && t[t.len() - 1] == '\n');
        },
        SendCommand::XML => {
            assert(t[t.len() - 2] == '\r' && t[t.len() - 1] == '\n');
        },
        SendCommand::QUIT => {
            assert(t[t.len() - 2] == '\r' && t[t.len() - 1] == '\n');
        },
        SendCommand::VERSION => {
            assert(t[t.len() - 2] == '\r' && t[t.len() - 1] == '\n');
        },
        SendCommand::FUNCTION(_, _) => {
            assert(t[t.len() - 2] == "\r\n"@[0] && t[t.len() - 1] == "\r\n"@[1]);
        },
        SendCommand::ACTS(_, _) => {
            assert(t[t.len() - 2] == "\r\n"@[0] && t[t.len() - 1] == "\r\n"@[1]);
        },
        SendCommand::XMLTEXT(_) => {
            assert(t[t.len() - 2] == "\r\n"@[0] && t[t.len() - 1] == "\r\n"@[1]);
        },
        SendCommand::SUBSCRIBE(_) => {
            assert(t[t.len() - 2] == "\r\n"@[0] && t[t.len() - 1] == "\r\n"@[1]);
        },
        SendCommand::UNSUBSCRIBE(_) => {
            assert(t[t.len() - 2] == "\r\n"@[0] && t[t.len() - 1] == "\r\n"@[1]);
        },
        SendCommand::RAW(_) => {},
    }
}

/// What decoding one response line yields: either a complete event, or
/// the header of an XML response whose payload of the given byte length
/// must be read next.
#[derive(Debug)]
pub enum LineOutcome {
    Complete(RecvCommand),
    XmlPayload(u64),
}

/// The response keywords the protocol defines.
pub open spec fn known_keyword(k: Seq<char>) -> bool {
    k == "TALLY"@ || k == "FUNCTION"@ || k == "ACTS"@ || k == "XML"@ || k == "XMLTEXT"@ || k
        == "SUBSCRIBE"@ || k == "UNSUBSCRIBE"@ || k == "QUIT"@ || k == "VERSION"@
}

/// Relates the token list to an optional simple body: token 2 when the
/// line has one, nothing otherwise.
pub open spec fn opt_body_matches(tv: Seq<Seq<char>>, b: Option<String>) -> bool {
    match b {
        Some(s) => tv.len() >= 3 && s@ == tv[2],
        None => tv.len() == 2,
    }
}

/// Relates a decoded event to the token list of its line.
pub open spec fn recv_matches(tv: Seq<Seq<char>>, cmd: RecvCommand) -> bool {
    tv.len() >= 2 && match cmd {
        RecvCommand::TALLY(tr) => tv[0] == "TALLY"@ && status_matches(tv[1], tr.status)
            && tally_map_matches(
            if tv.len() >= 3 {
                tv[2]
            } else {
                Seq::<char>::empty()
            },
            tr.body@,
        ),
        RecvCommand::FUNCTION(fr) => tv[0] == "FUNCTION"@ && status_matches(tv[1], fr.status)
            && opt_body_matches(tv, fr.body),
        RecvCommand::ACTS(ar) => tv[0] == "ACTS"@ && status_matches(tv[1], ar.status)
            && acts_decodes(tv.subrange(2, tv.len() as int)) && acts_value_matches(
            tv.subrange(2, tv.len() as int),
            ar.body,
        ),
        RecvCommand::XML(_) => false,
        RecvCommand::XMLTEXT(xr) => tv[0] == "XMLTEXT"@ && status_matches(tv[1], xr.status)
            && opt_body_matches(tv, xr.body),
        RecvCommand::SUBSCRIBE(sr) => tv[0] == "SUBSCRIBE"@ && status_matches(tv[1], sr.status)
            && opt_body_matches(tv, sr.body),
        RecvCommand::UNSUBSCRIBE(ur) => tv[0] == "UNSUBSCRIBE"@ && status_matches(tv[1], ur.status)
            && opt_body_matches(tv, ur.body),
        RecvCommand::QUIT => tv[0] == "QUIT"@,
        RecvCommand::VERSION(vr) => tv[0] == "VERSION"@ && status_matches(tv[1], vr.status)
            && opt_body_matches(tv, vr.version),
    }
}

/// Relates a successful decode outcome to the token list of its line.
pub open spec fn line_outcome_matches(tv: Seq<Seq<char>>, out: LineOutcome) -> bool {
    tv.len() >= 2 && match out {
        LineOutcome::XmlPayload(n) => tv[0] == "XML"@ && parses_as_u64(tv[1]) && n == dec_value(
            dec_digits_part(tv[1]),
        ),
        LineOutcome::Complete(cmd) => recv_matches(tv, cmd),
    }
}

/// Relates a decode error to the token list of its line.
pub open spec fn line_error_matches(tv: Seq<Seq<char>>, e: DecodeError) -> bool {
    match e {
        DecodeError::EmptyLine => tv.len() == 0,
        DecodeError::MissingStatus => tv.len() == 1,
        DecodeError::UnknownCommand => tv.len() >= 2 && !known_keyword(tv[0]),
        DecodeError::BadXmlHeader => tv.len() >= 2 && tv[0] == "XML"@ && !parses_as_u64(tv[1]),
        DecodeError::UnknownActivator => tv.len() >= 2 && tv[0] == "ACTS"@ && !acts_decodes(
            tv.subrange(2, tv.len() as int),
        ) && acts_error_matches(tv.subrange(2, tv.len() as int), e),
        DecodeError::MissingArgument => tv.len() >= 2 && tv[0] == "ACTS"@ && !acts_decodes(
            tv.subrange(2, tv.len() as int),
        ) && acts_error_matches(tv.subrange(2, tv.len() as int), e),
        DecodeError::InvalidUtf8 => false,
    }
}

/// Relates the result of decoding one line to the line's token list.
pub open spec fn line_decode_result_matches(
    tv: Seq<Seq<char>>,
    r: Result<LineOutcome, DecodeError>,
) -> bool {
    match r {
        Ok(out) => line_outcome_matches(tv, out),
        Err(e) => line_error_matches(tv, e),
    }
}

/// Decode one response line from its whitespace-separated tokens.
///
/// Token 0 is the keyword, token 1 the status, token 2 (when present) the
/// simple body.  An unrecognized keyword is a frame-recoverable error: the
/// line is dropped and decoding resumes with the next one.
pub fn decode_tokens(tokens: &Vec<String>) -> (r: Result<LineOutcome, DecodeError>)
    ensures
        line_decode_result_matches(token_views(tokens@), r),
{
    let ghost tv = token_views(tokens@);
    if tokens.len() == 0 {
        return Err(DecodeError::EmptyLine);
    }
    if tokens.len() == 1 {
        return Err(DecodeError::MissingStatus);
    }
    let kw = tokens[0].as_str();
    let status = Status::from(tokens[1].clone());
    proof {
        lemma_status_spec_matches(tokens@[1]);
        assert(status_matches(tv[1], status));
    }
    if str_eq(kw, "TALLY") {
        let body = if tokens.len() >= 3 {
            decode_tally_body(tokens[2].as_str())
        } else {
            let empty: HashMap<InputNumber, TallyData> = HashMap::new();
            empty
        };
        Ok(LineOutcome::Complete(RecvCommand::TALLY(TallyResponse { status, body })))
    } else if str_eq(kw, "FUNCTION") {
        let body = if tokens.len() >= 3 {
            Some(tokens[2].clone())
        } else {
            None
        };
        Ok(LineOutcome::Complete(RecvCommand::FUNCTION(FunctionResponse { status, body })))
    } else if str_eq(kw, "ACTS") {
        let mut args: Vec<String> = Vec::new();
        let mut k: usize = 2;
        while k < tokens.len()
            invariant
                2 <= k <= tokens@.len(),
                args@.len() == k - 2,
                forall|j: int| 0 <= j < k - 2 ==> #[trigger] args@[j] == tokens@[j + 2],
            decreases tokens@.len() - k,
        {
            args.push(tokens[k].clone());
            k += 1;
        }
        proof {
            assert(token_views(args@) =~= tv.subrange(2, tv.len() as int));
        }
        match ActivatorsData::decode(&args) {
            Ok(d) => Ok(
                LineOutcome::Complete(
                    RecvCommand::ACTS(ActivatorsResponse { status, body: d }),
                ),
            ),
            Err(e) => Err(e),
        }
    } else if str_eq(kw, "XML") {
        match parse_u64(tokens[1].as_str()) {
            Some(n) => Ok(LineOutcome::XmlPayload(n)),
            None => Err(DecodeError::BadXmlHeader),
        }
    } else if str_eq(kw, "XMLTEXT") {
        let body = if tokens.len() >= 3 {
            Some(tokens[2].clone())
        } else {
            None
        };
        Ok(LineOutcome::Complete(RecvCommand::XMLTEXT(XMLTextResponse { status, body })))
    } else if str_eq(kw, "SUBSCRIBE") {
        let body = if tokens.len() >= 3 {
            Some(tokens[2].clone())
        } else {
            None
        };
        Ok(LineOutcome::Complete(RecvCommand::SUBSCRIBE(SubscribeResponse { status, body })))
    } else if str_eq(kw, "UNSUBSCRIBE") {
        let body = if tokens.len() >= 3 {
            Some(tokens[2].clone())
        } else {
            None
        };
        Ok(
            LineOutcome::Complete(
                RecvCommand::UNSUBSCRIBE(UnsubscribeResponse { status, body }),
            ),
        )
    } else if str_eq(kw, "QUIT") {
        Ok(LineOutcome::Complete(RecvCommand::QUIT))
    } else if str_eq(kw, "VERSION") {
        let version = if tokens.len() >= 3 {
            Some(tokens[2].clone())
        } else {
            None
        };
        Ok(LineOutcome::Complete(RecvCommand::VERSION(VersionResponse { status, version })))
    } else {
        Err(DecodeError::UnknownCommand)
    }
}

/// Relies on `String::from_utf8`: it succeeds exactly on valid UTF-8 and
/// returns the string holding those bytes decoded.
#[verifier::external_body]
fn string_from_utf8(v: Vec<u8>) -> (r: Option<String>)
    ensures
        match r {
            Some(s) => valid_utf8(v@) && s@ == decode_utf8(v@),
            None => !valid_utf8(v@),
        },
{
    String::from_utf8(v).ok()
}

/// Decode one raw response line, as read from the socket up to and
/// including the line feed.  Trailing CR/LF need not be stripped: line
/// ends count as token separators.
pub fn decode_line(line: Vec<u8>) -> (r: Result<LineOutcome, DecodeError>)
    ensures
        valid_utf8(line@) ==> line_decode_result_matches(split_ws(decode_utf8(line@)), r),
        !valid_utf8(line@) ==> r == Err::<LineOutcome, DecodeError>(DecodeError::InvalidUtf8),
{
    match string_from_utf8(line) {
        Some(s) => {
            let tokens = tokenize(s.as_str());
            decode_tokens(&tokens)
        },
        None => Err(DecodeError::InvalidUtf8),
    }
}

/// A well-formed XML header line announcing `n` bytes decodes to a
/// demand for exactly `n` payload bytes and nothing else: every result
/// the decoder's contract admits for the token list `XML <n>` is
/// `XmlPayload(n)`.  Completing the response then requires a payload of
/// exactly that length, so the codec consumes neither more nor fewer
/// bytes than the header announced.
pub proof fn lemma_xml_header_demands_length(n: u64, r: Result<LineOutcome, DecodeError>)
    requires
        line_decode_result_matches(seq!["XML"@, dec_chars(n as nat)], r),
    ensures
        r matches Ok(out) && out matches LineOutcome::XmlPayload(m) && m == n,
{
    reveal_strlit("XML");
    reveal_strlit("ACTS");
    reveal_strlit("TALLY");
    reveal_strlit("FUNCTION");
    reveal_strlit("XMLTEXT");
    reveal_strlit("SUBSCRIBE");
    reveal_strlit("UNSUBSCRIBE");
    reveal_strlit("QUIT");
    reveal_strlit("VERSION");
    let tv = seq!["XML"@, dec_chars(n as nat)];
    crate::text::lemma_dec_chars_value(n as nat);
    let d = dec_chars(n as nat);
    assert(tv.len() == 2);
    assert(tv[0] == "XML"@);
    assert(tv[1] == d);
    assert(is_dec_digit(d[0]));
    assert(d[0] != '+');
    assert(dec_digits_part(d) == d);
    assert(parses_as_u64(d));
    match r {
        Ok(out) => {
            match out {
                LineOutcome::XmlPayload(m) => {
                    assert(m == dec_value(dec_digits_part(tv[1])));
                },
                LineOutcome::Complete(cmd) => {
                    assert(recv_matches(tv, cmd));
                    assert(false);
                },
            }
        },
        Err(e) => {
            assert(line_error_matches(tv, e));
            assert(false);
        },
    }
}

/// Relates an XML payload, already decoded to text, to the event built
/// from it.
pub open spec fn xml_response_matches(len: u64, text: Seq<char>, cmd: RecvCommand) -> bool {
    match cmd {
        RecvCommand::XML(xr) => xr.status == Status::Length(len) && xr.body@ == trim_end_ws(text),
        _ => false,
    }
}

/// Complete an XML response: the header line announced `len` bytes, and
/// `payload` holds exactly those bytes, no more and no fewer.  The payload
/// is decoded as UTF-8 and trailing whitespace is trimmed.
pub fn decode_xml_payload(len: u64, payload: Vec<u8>) -> (r: Result<RecvCommand, DecodeError>)
    requires
        payload@.len() == len,
    ensures
        match r {
            Ok(cmd) => valid_utf8(payload@) && xml_response_matches(
                len,
                decode_utf8(payload@),
                cmd,
            ),
            Err(e) => e == DecodeError::InvalidUtf8 && !valid_utf8(payload@),
        },
{
    match string_from_utf8(payload) {
        Some(s) => {
            let body = trim_end(s.as_str());
            Ok(RecvCommand::XML(XMLResponse { status: Status::Length(len), body }))
        },
        None => Err(DecodeError::InvalidUtf8),
    }
}

} // verus!
