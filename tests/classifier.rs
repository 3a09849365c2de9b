use forward_proxy::proxy_listener::ProxyError;
use forward_proxy::request_handler::{classify_head, determine_request, HeadParse, ReqType};

fn parse_message(r: Result<ReqType, ProxyError>) -> String {
    match r {
        Err(ProxyError::Parse(m)) => m,
        other => panic!("expected a parse error, got {:?}", other),
    }
}

#[test]
fn connect_request_gives_its_target() {
    match determine_request(b"CONNECT example.com:443 HTTP/1.1\r\n\r\n") {
        Ok(ReqType::CONNECT(t)) => assert_eq!(t, "example.com:443"),
        other => panic!("unexpected {:?}", other),
    }
}

#[test]
fn connect_request_with_headers() {
    let buf = b"CONNECT 93.184.216.34:443 HTTP/1.1\r\nHost: 93.184.216.34:443\r\n\r\n";
    match determine_request(buf) {
        Ok(ReqType::CONNECT(t)) => assert_eq!(t, "93.184.216.34:443"),
        other => panic!("unexpected {:?}", other),
    }
}

#[test]
fn get_request_gives_its_path() {
    match determine_request(b"GET /x HTTP/1.1\r\n\r\n") {
        Ok(ReqType::GET(p)) => assert_eq!(p, "/x"),
        other => panic!("unexpected {:?}", other),
    }
}

#[test]
fn other_methods_are_parse_errors() {
    let m = parse_message(determine_request(b"FOO /x HTTP/1.1\r\n\r\n"));
    assert_eq!(m, "Could not parse FOO");
}

#[test]
fn truncated_request_is_incomplete() {
    assert_eq!(parse_message(determine_request(b"CONNECT example.com:443 HTTP/1.1")), "Incomplete request");
    assert_eq!(parse_message(determine_request(b"GET /x HTTP/1.1\r\n")), "Incomplete request");
    assert_eq!(parse_message(determine_request(b"")), "Incomplete request");
}

#[test]
fn malformed_request_is_a_parse_error() {
    assert_eq!(parse_message(determine_request(b"GET /x JUNK\r\n\r\n")), "While parsing request");
    assert_eq!(parse_message(determine_request(b"\x00\x01\x02\r\n\r\n")), "While parsing request");
}

#[test]
fn classify_head_covers_missing_parts() {
    let m = parse_message(classify_head(HeadParse::Complete { method: None, path: None }));
    assert_eq!(m, "Could not parse request");
    let m = parse_message(classify_head(HeadParse::Complete {
        method: Some("CONNECT".to_string()),
        path: None,
    }));
    assert_eq!(m, "Could not parse path");
    let m = parse_message(classify_head(HeadParse::Complete {
        method: Some("GET".to_string()),
        path: None,
    }));
    assert_eq!(m, "Could not parse path");
    let m = parse_message(classify_head(HeadParse::Complete {
        method: Some("PUT".to_string()),
        path: Some("/".to_string()),
    }));
    assert_eq!(m, "Could not parse PUT");
    assert_eq!(parse_message(classify_head(HeadParse::Invalid)), "While parsing request");
    assert_eq!(parse_message(classify_head(HeadParse::Partial)), "Incomplete request");
}

#[test]
fn classify_head_accepts_connect_and_get() {
    match classify_head(HeadParse::Complete {
        method: Some("CONNECT".to_string()),
        path: Some("a:1".to_string()),
    }) {
        Ok(ReqType::CONNECT(t)) => assert_eq!(t, "a:1"),
        other => panic!("unexpected {:?}", other),
    }
    match classify_head(HeadParse::Complete {
        method: Some("GET".to_string()),
        path: Some("/index.html".to_string()),
    }) {
        Ok(ReqType::GET(p)) => assert_eq!(p, "/index.html"),
        other => panic!("unexpected {:?}", other),
    }
}
