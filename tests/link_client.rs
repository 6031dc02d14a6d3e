use notification_listener::link::{
    decide_login, decide_token, format_request_id, new_request_id, on_first_response, random,
    suffix_from_nanos, AuthRequest, AuthResponse, LinkError, TokenStep,
};

fn response(line: &str) -> AuthResponse {
    AuthResponse::from_json(line.as_bytes()).expect("well-formed response")
}

fn request_token_over(lines: &[&str]) -> Result<String, LinkError> {
    match on_first_response(response(lines[0])) {
        TokenStep::Done(r) => r,
        TokenStep::AwaitDecision => decide_token(response(lines[1])),
    }
}

#[test]
fn pending_then_token() {
    let r = request_token_over(&[
        "{\"success\":true,\"pending\":true,\"requestId\":\"r1\"}",
        "{\"success\":true,\"token\":\"T\",\"rejected\":false}",
    ]);
    assert_eq!(r.unwrap(), "T");
}

#[test]
fn pending_then_rejected() {
    let r = request_token_over(&[
        "{\"success\":true,\"pending\":true,\"requestId\":\"r1\"}",
        "{\"success\":true,\"rejected\":true}",
    ]);
    assert!(matches!(r, Err(LinkError::Rejected)));
}

#[test]
fn pending_then_no_token() {
    let r = request_token_over(&[
        "{\"success\":true,\"pending\":true}",
        "{\"success\":false,\"message\":\"expired\"}",
    ]);
    match r {
        Err(LinkError::NoToken(m)) => assert_eq!(m.as_deref(), Some("expired")),
        other => panic!("unexpected {:?}", other),
    }
}

#[test]
fn immediate_token() {
    let r = request_token_over(&["{\"success\":true,\"token\":\"abc\"}"]);
    assert_eq!(r.unwrap(), "abc");
}

#[test]
fn immediate_answer_without_token() {
    let r = request_token_over(&["{\"success\":false,\"message\":\"busy\",\"pending\":false}"]);
    match r {
        Err(LinkError::NoToken(m)) => assert_eq!(m.as_deref(), Some("busy")),
        other => panic!("unexpected {:?}", other),
    }
    let r = request_token_over(&["{\"success\":false}"]);
    assert!(matches!(r, Err(LinkError::NoToken(None))));
}

#[test]
fn login_outcomes() {
    assert!(decide_login(response("{\"success\":true}")).is_ok());
    match decide_login(response("{\"success\":false,\"message\":\"bad token\"}")) {
        Err(LinkError::LoginFailed(m)) => assert_eq!(m.as_deref(), Some("bad token")),
        other => panic!("unexpected {:?}", other),
    }
    assert!(matches!(decide_login(response("{\"success\":false}")), Err(LinkError::LoginFailed(None))));
}

#[test]
fn response_fields_are_read() {
    let r = response("{\"success\":true,\"message\":null,\"token\":\"t\",\"rejected\":false,\"requestId\":\"q\",\"pending\":null}\n");
    assert!(r.success);
    assert_eq!(r.message, None);
    assert_eq!(r.token.as_deref(), Some("t"));
    assert_eq!(r.rejected, Some(false));
    assert_eq!(r.request_id.as_deref(), Some("q"));
    assert_eq!(r.pending, None);
}

#[test]
fn malformed_responses_are_refused() {
    assert!(AuthResponse::from_json(b"{\"token\":\"t\"}").is_none());
    assert!(AuthResponse::from_json(b"{\"success\":\"yes\"}").is_none());
    assert!(AuthResponse::from_json(b"{\"success\":true,\"pending\":\"yes\"}").is_none());
    assert!(AuthResponse::from_json(b"{\"success\":true,\"token\":7}").is_none());
    assert!(AuthResponse::from_json(b"not json").is_none());
}

#[test]
fn request_lines() {
    let r = AuthRequest::request_token("socket_1_2".to_string());
    assert_eq!(r.to_json_line(), "{\"action\":\"request_token\",\"requestId\":\"socket_1_2\"}\n");
    let r = AuthRequest::login("id".to_string(), "to\"ken".to_string());
    assert_eq!(r.to_json_line(), "{\"action\":\"login\",\"requestId\":\"id\",\"token\":\"to\\\"ken\"}\n");
}

#[test]
fn token_escaping_follows_json() {
    let r = AuthRequest::login("i".to_string(), "a\u{1}b\n\\\u{7f}é".to_string());
    assert_eq!(
        r.to_json_line(),
        "{\"action\":\"login\",\"requestId\":\"i\",\"token\":\"a\\u0001b\\n\\\\\u{7f}é\"}\n"
    );
}

#[test]
fn request_ids() {
    assert_eq!(format_request_id(1700000000123, 42), "socket_1700000000123_42");
    assert_eq!(format_request_id(0, 0), "socket_0_0");
    assert_eq!(format_request_id(-15, 9999), "socket_-15_9999");
    assert_eq!(format_request_id(i64::MIN, 7), "socket_-9223372036854775808_7");
    let id = new_request_id(1700000000123);
    assert!(id.starts_with("socket_1700000000123_"));
    let suffix: u32 = id["socket_1700000000123_".len()..].parse().unwrap();
    assert!(suffix < 10000);
}

#[test]
fn random_suffixes() {
    assert!(random() < 10000);
    assert_eq!(suffix_from_nanos(123456789), (123456789u32 % 65536) as u16 % 10000);
    assert_eq!(suffix_from_nanos(9999), 9999);
    assert_eq!(suffix_from_nanos(10000), 0);
    assert_eq!(suffix_from_nanos(65536 + 5), 5);
}
