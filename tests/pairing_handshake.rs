use notification_listener::handshake::{
    conclude, HandshakeReader, HandshakeStep, PairingData, PairingError, ReaderPhase, Transport,
};

const SUCCESS_LINE: &str = "{\"success\":true,\"message\":\"Pairing successful\"}\n";
const BAD_REQUEST: &str = "HTTP/1.1 400 Bad Request\r\nContent-Length: 0\r\n\r\n";

fn expect_finished(step: HandshakeStep) -> notification_listener::handshake::HandshakeOutcome {
    match step {
        HandshakeStep::Finished(o) => o,
        other => panic!("handshake not finished: {:?}", other),
    }
}

fn run_http(lines: &[&str], body: &[u8]) -> notification_listener::handshake::HandshakeOutcome {
    let mut reader = HandshakeReader::new();
    for (i, line) in lines.iter().enumerate() {
        match reader.on_line(line.as_bytes()) {
            HandshakeStep::ReadLine => {}
            HandshakeStep::ReadBody(n) => {
                assert_eq!(i, lines.len() - 1);
                assert_eq!(n, body.len());
                return expect_finished(reader.on_body(body));
            }
            HandshakeStep::Finished(o) => return o,
        }
    }
    panic!("request not complete");
}

#[test]
fn raw_line_pairs() {
    let mut reader = HandshakeReader::new();
    let step = reader.on_line(b"{\"url\":\"10.0.0.5:9000\",\"token\":\"abc123\"}\n");
    let o = expect_finished(step);
    assert_eq!(o.reply, SUCCESS_LINE.as_bytes().to_vec());
    let p = o.result.unwrap();
    assert_eq!(p.url, "10.0.0.5:9000");
    assert_eq!(p.token, "abc123");
    assert_eq!(reader.phase, ReaderPhase::Done);
}

#[test]
fn http_post_pairs() {
    let body = "{\"url\":\"10.0.0.5:9000\",\"token\":\"abc123\"}";
    let length = format!("Content-Length: {}\r\n", body.len());
    let o = run_http(
        &["POST /pair HTTP/1.1\r\n", "Host: 10.0.0.2:18080\r\n", "Content-Type: application/json\r\n", &length, "\r\n"],
        body.as_bytes(),
    );
    let reply = String::from_utf8(o.reply.clone()).unwrap();
    let json = "{\"success\":true,\"message\":\"Pairing successful\"}";
    assert_eq!(
        reply,
        format!(
            "HTTP/1.1 200 OK\r\nContent-Type: application/json\r\nContent-Length: {}\r\n\r\n{}",
            json.len(),
            json
        )
    );
    assert!(reply.starts_with("HTTP/1.1 200 OK\r\n"));
    assert!(reply.contains("Content-Length: 47\r\n"));
    let p = o.result.unwrap();
    assert_eq!(p.url, "10.0.0.5:9000");
    assert_eq!(p.token, "abc123");
}

#[test]
fn both_transports_give_the_same_pairing() {
    let payload = "{\"url\":\"192.168.1.20:10035\",\"token\":\"t-42\",\"extra\":1}";
    let mut reader = HandshakeReader::new();
    let raw = expect_finished(reader.on_line(format!("{}\n", payload).as_bytes()));
    let length = format!("content-length: {}\r\n", payload.len());
    let http = run_http(&["POST /pair HTTP/1.1\r\n", &length, "\r\n"], payload.as_bytes());
    let a = raw.result.unwrap();
    let b = http.result.unwrap();
    assert_eq!(a.url, b.url);
    assert_eq!(a.token, b.token);
    assert_eq!(a.url, "192.168.1.20:10035");
}

#[test]
fn raw_line_is_trimmed() {
    let mut reader = HandshakeReader::new();
    let o = expect_finished(reader.on_line(b"  {\"url\":\"u\",\"token\":\"t\"} \r\n"));
    assert_eq!(o.result.unwrap().url, "u");
}

#[test]
fn malformed_raw_line_is_rejected_with_the_line_kept() {
    let mut reader = HandshakeReader::new();
    let o = expect_finished(reader.on_line(b"{\"url\":\"10.0.0.5:9000\",\"token\":\n"));
    assert!(o.reply.is_empty());
    match o.result {
        Err(PairingError::InvalidPayload(raw)) => {
            assert_eq!(raw, b"{\"url\":\"10.0.0.5:9000\",\"token\":".to_vec())
        }
        other => panic!("unexpected {:?}", other),
    }
}

#[test]
fn raw_line_missing_token_is_rejected() {
    let mut reader = HandshakeReader::new();
    let o = expect_finished(reader.on_line(b"{\"url\":\"10.0.0.5:9000\"}\n"));
    assert!(matches!(o.result, Err(PairingError::InvalidPayload(_))));
    let mut reader = HandshakeReader::new();
    let o = expect_finished(reader.on_line(b"{\"url\":5,\"token\":\"x\"}\n"));
    assert!(matches!(o.result, Err(PairingError::InvalidPayload(_))));
}

#[test]
fn malformed_http_body_gets_bad_request() {
    let o = run_http(&["POST /pair HTTP/1.1\r\n", "Content-Length: 8\r\n", "\r\n"], b"not json");
    assert_eq!(o.reply, BAD_REQUEST.as_bytes().to_vec());
    match o.result {
        Err(PairingError::InvalidPayload(raw)) => assert_eq!(raw, b"not json".to_vec()),
        other => panic!("unexpected {:?}", other),
    }
}

#[test]
fn missing_content_length_gets_bad_request() {
    let o = run_http(&["POST /pair HTTP/1.1\r\n", "Content-Type: application/json\r\n", "\r\n"], b"");
    assert_eq!(o.reply, BAD_REQUEST.as_bytes().to_vec());
    assert!(matches!(o.result, Err(PairingError::InvalidPayload(_))));
}

#[test]
fn zero_or_unreadable_content_length_gets_bad_request() {
    let o = run_http(&["POST /pair HTTP/1.1\r\n", "Content-Length: 0\r\n", "\r\n"], b"");
    assert_eq!(o.reply, BAD_REQUEST.as_bytes().to_vec());
    let o = run_http(&["POST /pair HTTP/1.1\r\n", "Content-Length: 1x\r\n", "\r\n"], b"");
    assert_eq!(o.reply, BAD_REQUEST.as_bytes().to_vec());
}

#[test]
fn content_length_name_ignores_case() {
    let mut reader = HandshakeReader::new();
    assert!(matches!(reader.on_line(b"POST /pair HTTP/1.1\r\n"), HandshakeStep::ReadLine));
    assert!(matches!(reader.on_line(b"CONTENT-LENGTH:   12 \r\n"), HandshakeStep::ReadLine));
    assert_eq!(reader.content_length, Some(12));
    assert!(matches!(reader.on_line(b"\r\n"), HandshakeStep::ReadBody(12)));
    assert_eq!(reader.phase, ReaderPhase::Body);
}

#[test]
fn lines_without_carriage_return_work_too() {
    let body = "{\"url\":\"a\",\"token\":\"b\"}";
    let length = format!("Content-Length: {}\n", body.len());
    let o = run_http(&["POST /pair HTTP/1.1\n", &length, "\n"], body.as_bytes());
    assert_eq!(o.result.unwrap().token, "b");
}

#[test]
fn rejected_attempt_then_valid_attempt_pairs() {
    let mut first = HandshakeReader::new();
    let o = expect_finished(first.on_line(b"{\"token\":\"abc123\"}\n"));
    match o.result {
        Err(PairingError::InvalidPayload(raw)) => assert_eq!(raw, b"{\"token\":\"abc123\"}".to_vec()),
        other => panic!("unexpected {:?}", other),
    }
    let mut second = HandshakeReader::new();
    let o = expect_finished(second.on_line(b"{\"url\":\"10.0.0.5:9000\",\"token\":\"abc123\"}\n"));
    assert_eq!(o.reply, SUCCESS_LINE.as_bytes().to_vec());
    assert_eq!(o.result.unwrap().token, "abc123");
}

#[test]
fn get_request_line_is_treated_as_raw_payload() {
    let mut reader = HandshakeReader::new();
    let o = expect_finished(reader.on_line(b"GET /pair HTTP/1.1\r\n"));
    assert!(o.reply.is_empty());
    assert!(matches!(o.result, Err(PairingError::InvalidPayload(_))));
}

#[test]
fn conclude_follows_the_decoded_value() {
    let data = PairingData { url: "h:1".to_string(), token: "k".to_string() };
    let o = conclude(Transport::RawLine, b"x".to_vec(), Some(data));
    assert_eq!(o.reply, SUCCESS_LINE.as_bytes().to_vec());
    assert_eq!(o.result.unwrap().url, "h:1");
    let o = conclude(Transport::Http, b"x".to_vec(), None);
    assert_eq!(o.reply, BAD_REQUEST.as_bytes().to_vec());
    let o = conclude(Transport::RawLine, b"x".to_vec(), None);
    assert!(o.reply.is_empty());
}

#[test]
fn pairing_data_from_json() {
    let p = PairingData::from_json(b" {\"token\":\"T\",\"url\":\"U\"} ").unwrap();
    assert_eq!(p.url, "U");
    assert_eq!(p.token, "T");
    assert!(PairingData::from_json(b"[]").is_none());
    assert!(PairingData::from_json(b"").is_none());
}
