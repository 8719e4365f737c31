//! Wire codec tests: status parsing, command encoding, line decoding,
//! and the two-stage XML response.

use vmix_rs::commands::{
    decode_line, decode_tokens, decode_xml_payload, LineOutcome, RecvCommand, SUBSCRIBECommand,
    SendCommand, Status, TallyData,
};
use vmix_rs::error::DecodeError;

fn decode(line: &[u8]) -> Result<LineOutcome, DecodeError> {
    decode_line(line.to_vec())
}

#[test]
fn status_ok() {
    assert!(matches!(Status::from(String::from("OK")), Status::OK));
}

#[test]
fn status_er() {
    assert!(matches!(Status::from(String::from("ER")), Status::ER));
}

#[test]
fn status_length() {
    assert!(matches!(Status::from(String::from("1234")), Status::Length(1234)));
}

#[test]
fn status_detail() {
    match Status::from(String::from("Foo")) {
        Status::Detail(d) => assert_eq!(d, "Foo"),
        other => panic!("expected detail status, got {:?}", other),
    }
}

#[test]
fn status_huge_number_is_detail() {
    // one past u64::MAX no longer parses as a length
    match Status::from(String::from("18446744073709551616")) {
        Status::Detail(d) => assert_eq!(d, "18446744073709551616"),
        other => panic!("expected detail status, got {:?}", other),
    }
}

#[test]
fn encode_bare_commands() {
    assert_eq!(SendCommand::TALLY.encode(), b"TALLY\r\n");
    assert_eq!(SendCommand::XML.encode(), b"XML\r\n");
    assert_eq!(SendCommand::QUIT.encode(), b"QUIT\r\n");
    assert_eq!(SendCommand::VERSION.encode(), b"VERSION\r\n");
}

#[test]
fn encode_function_without_query() {
    let cmd = SendCommand::FUNCTION(String::from("Cut"), None);
    assert_eq!(cmd.encode(), b"FUNCTION Cut \r\n");
}

#[test]
fn encode_function_with_query() {
    let cmd = SendCommand::FUNCTION(String::from("Fade"), Some(String::from("Duration=1000")));
    assert_eq!(cmd.encode(), b"FUNCTION Fade Duration=1000\r\n");
}

#[test]
fn encode_acts() {
    let cmd = SendCommand::ACTS(String::from("Input"), 3);
    assert_eq!(cmd.encode(), b"ACTS Input 3\r\n");
}

#[test]
fn encode_xmltext() {
    let cmd = SendCommand::XMLTEXT(String::from("vmix/version"));
    assert_eq!(cmd.encode(), b"XMLTEXT vmix/version\r\n");
}

#[test]
fn encode_subscribe_unsubscribe() {
    assert_eq!(SendCommand::SUBSCRIBE(SUBSCRIBECommand::TALLY).encode(), b"SUBSCRIBE TALLY\r\n");
    assert_eq!(SendCommand::UNSUBSCRIBE(SUBSCRIBECommand::ACTS).encode(), b"UNSUBSCRIBE ACTS\r\n");
}

#[test]
fn encode_always_crlf_terminated_except_raw() {
    let commands = vec![
        SendCommand::TALLY,
        SendCommand::FUNCTION(String::from("Cut"), None),
        SendCommand::ACTS(String::from("Input"), 7),
        SendCommand::XML,
        SendCommand::XMLTEXT(String::from("p")),
        SendCommand::SUBSCRIBE(SUBSCRIBECommand::ACTS),
        SendCommand::UNSUBSCRIBE(SUBSCRIBECommand::TALLY),
        SendCommand::QUIT,
        SendCommand::VERSION,
    ];
    for cmd in commands {
        let bytes = cmd.encode();
        assert!(bytes.len() >= 2);
        assert_eq!(&bytes[bytes.len() - 2..], b"\r\n");
    }
    // the raw passthrough is sent as given, with no terminator added
    let raw = SendCommand::RAW(String::from("PING"));
    assert_eq!(raw.encode(), b"PING");
}

#[test]
fn decode_tally_line() {
    match decode(b"TALLY OK 0121\r\n") {
        Ok(LineOutcome::Complete(RecvCommand::TALLY(tr))) => {
            assert!(matches!(tr.status, Status::OK));
            assert_eq!(tr.body.len(), 4);
            assert_eq!(tr.body[&1], TallyData::OFF);
            assert_eq!(tr.body[&2], TallyData::PROGRAM);
            assert_eq!(tr.body[&3], TallyData::PREVIEW);
            assert_eq!(tr.body[&4], TallyData::PROGRAM);
            assert!(!tr.body.contains_key(&0));
            assert!(!tr.body.contains_key(&5));
        },
        other => panic!("expected tally event, got {:?}", other),
    }
}

#[test]
fn decode_tally_unknown_digit_is_off() {
    match decode(b"TALLY OK 07\r\n") {
        Ok(LineOutcome::Complete(RecvCommand::TALLY(tr))) => {
            assert_eq!(tr.body[&1], TallyData::OFF);
            assert_eq!(tr.body[&2], TallyData::OFF);
        },
        other => panic!("expected tally event, got {:?}", other),
    }
}

#[test]
fn decode_tally_without_body_is_empty() {
    match decode(b"TALLY OK\r\n") {
        Ok(LineOutcome::Complete(RecvCommand::TALLY(tr))) => {
            assert_eq!(tr.body.len(), 0);
        },
        other => panic!("expected tally event, got {:?}", other),
    }
}

#[test]
fn decode_function_line() {
    match decode(b"FUNCTION OK PreviewInput\r\n") {
        Ok(LineOutcome::Complete(RecvCommand::FUNCTION(fr))) => {
            assert!(matches!(fr.status, Status::OK));
            assert_eq!(fr.body.as_deref(), Some("PreviewInput"));
        },
        other => panic!("expected function event, got {:?}", other),
    }
    match decode(b"FUNCTION ER\r\n") {
        Ok(LineOutcome::Complete(RecvCommand::FUNCTION(fr))) => {
            assert!(matches!(fr.status, Status::ER));
            assert!(fr.body.is_none());
        },
        other => panic!("expected function event, got {:?}", other),
    }
}

#[test]
fn decode_acts_line() {
    match decode(b"ACTS OK Input 1 1\r\n") {
        Ok(LineOutcome::Complete(RecvCommand::ACTS(ar))) => {
            assert!(matches!(ar.status, Status::OK));
            assert!(matches!(ar.body, vmix_rs::acts::ActivatorsData::Input(1, true)));
        },
        other => panic!("expected activator event, got {:?}", other),
    }
}

#[test]
fn decode_acts_unknown_is_recoverable_error() {
    assert!(matches!(decode(b"ACTS OK Bogus 1 1\r\n"), Err(DecodeError::UnknownActivator)));
}

#[test]
fn decode_xml_header() {
    assert!(matches!(decode(b"XML 37\r\n"), Ok(LineOutcome::XmlPayload(37))));
}

#[test]
fn decode_xml_header_and_payload() {
    // a header announcing 37 bytes followed by exactly 37 bytes
    let payload: &[u8] = b"<vmix><version>1.2.3</version></vmix>";
    assert_eq!(payload.len(), 37);
    match decode(b"XML 37\r\n") {
        Ok(LineOutcome::XmlPayload(n)) => {
            assert_eq!(n, 37);
            match decode_xml_payload(n, payload.to_vec()) {
                Ok(RecvCommand::XML(xr)) => {
                    assert!(matches!(xr.status, Status::Length(37)));
                    assert_eq!(xr.body, "<vmix><version>1.2.3</version></vmix>");
                },
                other => panic!("expected XML event, got {:?}", other),
            }
        },
        other => panic!("expected an XML payload demand, got {:?}", other),
    }
}

#[test]
fn decode_xml_payload_trims_trailing_whitespace() {
    let payload: &[u8] = b"<vmix />\r\n";
    match decode_xml_payload(payload.len() as u64, payload.to_vec()) {
        Ok(RecvCommand::XML(xr)) => assert_eq!(xr.body, "<vmix />"),
        other => panic!("expected XML event, got {:?}", other),
    }
}

#[test]
fn decode_xml_bad_header() {
    assert!(matches!(decode(b"XML OK\r\n"), Err(DecodeError::BadXmlHeader)));
}

#[test]
fn decode_simple_acknowledgements() {
    match decode(b"XMLTEXT OK SomeText\r\n") {
        Ok(LineOutcome::Complete(RecvCommand::XMLTEXT(xr))) => {
            assert_eq!(xr.body.as_deref(), Some("SomeText"));
        },
        other => panic!("expected xmltext event, got {:?}", other),
    }
    match decode(b"SUBSCRIBE OK TALLY\r\n") {
        Ok(LineOutcome::Complete(RecvCommand::SUBSCRIBE(sr))) => {
            assert_eq!(sr.body.as_deref(), Some("TALLY"));
        },
        other => panic!("expected subscribe event, got {:?}", other),
    }
    match decode(b"UNSUBSCRIBE OK TALLY\r\n") {
        Ok(LineOutcome::Complete(RecvCommand::UNSUBSCRIBE(ur))) => {
            assert_eq!(ur.body.as_deref(), Some("TALLY"));
        },
        other => panic!("expected unsubscribe event, got {:?}", other),
    }
    match decode(b"VERSION OK 28.0.0.39\r\n") {
        Ok(LineOutcome::Complete(RecvCommand::VERSION(vr))) => {
            assert_eq!(vr.version.as_deref(), Some("28.0.0.39"));
        },
        other => panic!("expected version event, got {:?}", other),
    }
    assert!(matches!(
        decode(b"QUIT OK\r\n"),
        Ok(LineOutcome::Complete(RecvCommand::QUIT))
    ));
}

#[test]
fn decode_unknown_keyword() {
    assert!(matches!(decode(b"NONSENSE OK\r\n"), Err(DecodeError::UnknownCommand)));
}

#[test]
fn decode_empty_line() {
    assert!(matches!(decode(b"\r\n"), Err(DecodeError::EmptyLine)));
    assert!(matches!(decode(b""), Err(DecodeError::EmptyLine)));
}

#[test]
fn decode_keyword_without_status() {
    assert!(matches!(decode(b"TALLY\r\n"), Err(DecodeError::MissingStatus)));
}

#[test]
fn decode_invalid_utf8_line() {
    assert!(matches!(decode(&[0xff, 0xfe, b'\n']), Err(DecodeError::InvalidUtf8)));
}

#[test]
fn decode_status_detail_token() {
    match decode(b"FUNCTION Maybe body\r\n") {
        Ok(LineOutcome::Complete(RecvCommand::FUNCTION(fr))) => {
            match fr.status {
                Status::Detail(d) => assert_eq!(d, "Maybe"),
                other => panic!("expected detail status, got {:?}", other),
            }
            assert_eq!(fr.body.as_deref(), Some("body"));
        },
        other => panic!("expected function event, got {:?}", other),
    }
}

#[test]
fn decode_tokens_directly() {
    let tokens = vec![String::from("FUNCTION"), String::from("OK")];
    match decode_tokens(&tokens) {
        Ok(LineOutcome::Complete(RecvCommand::FUNCTION(fr))) => {
            assert!(fr.body.is_none());
        },
        other => panic!("expected function event, got {:?}", other),
    }
}
