use version_server::handle::handle_request;
use version_server::render::VersionInfo;
use version_server::router::{route, RouteOutcome};
use version_server::scan::{contains_subslice, first_line};
use version_server::wire::u64_to_dec;

fn info() -> VersionInfo {
    VersionInfo {
        version: b"1.2.3".to_vec(),
        built_at_secs: 1700000000,
        rust_version: b"1.95.0".to_vec(),
        os: b"linux".to_vec(),
        arch: b"x86_64".to_vec(),
    }
}

fn split_response(wire: &[u8]) -> (String, Vec<u8>) {
    let pos = wire
        .windows(4)
        .position(|w| w == b"\r\n\r\n")
        .expect("response has a header block");
    let header = String::from_utf8_lossy(&wire[..pos]).into_owned();
    let body = wire[pos + 4..].to_vec();
    (header, body)
}

fn declared_content_length(header: &str) -> usize {
    let line = header
        .lines()
        .find(|l| l.starts_with("Content-Length: "))
        .expect("response declares a content length");
    line["Content-Length: ".len()..].parse().expect("length is decimal")
}

#[test]
fn version_json_request() {
    let raw = b"GET /version HTTP/1.1\r\nAccept: application/json\r\n\r\n";
    let reply = handle_request(raw, &info()).expect("a response is owed");
    let (header, body) = split_response(&reply.wire);
    assert!(header.starts_with("HTTP/1.1 200 OK\r\n"));
    assert!(header.contains("Content-Type: application/json"));
    let parsed: serde_json::Value =
        serde_json::from_slice(&body).expect("body is valid JSON");
    assert_eq!(parsed.get("version").unwrap().as_str().unwrap(), "1.2.3");
    assert_eq!(parsed.get("commit").unwrap().as_str().unwrap(), "unknown");
    assert_eq!(parsed.get("branch").unwrap().as_str().unwrap(), "main");
    assert_eq!(parsed.get("built_at").unwrap().as_str().unwrap(), "1700000000");
    assert_eq!(parsed.get("platform").unwrap().as_str().unwrap(), "linux");
    assert_eq!(parsed.get("arch").unwrap().as_str().unwrap(), "x86_64");
    assert_eq!(reply.bytes_read, raw.len());
    assert_eq!(reply.status_text, b"200 OK".to_vec());
    assert_eq!(reply.path, b"/version".to_vec());
}

#[test]
fn version_html_request() {
    let raw = b"GET /version HTTP/1.1\r\nHost: localhost\r\n\r\n";
    let reply = handle_request(raw, &info()).expect("a response is owed");
    let (header, body) = split_response(&reply.wire);
    assert!(header.starts_with("HTTP/1.1 200 OK\r\n"));
    assert!(header.contains("Content-Type: text/html"));
    let body_text = String::from_utf8(body).expect("html body is text");
    assert!(body_text.contains("1.2.3"));
    assert!(body_text.contains("{\"version\": \"1.2.3\""));
}

#[test]
fn version_html_embeds_same_version_as_json() {
    let json_raw = b"GET /version HTTP/1.1\r\nAccept: application/json\r\n\r\n";
    let html_raw = b"GET /version HTTP/1.1\r\n\r\n";
    let json_reply = handle_request(json_raw, &info()).unwrap();
    let html_reply = handle_request(html_raw, &info()).unwrap();
    let (_, json_body) = split_response(&json_reply.wire);
    let (_, html_body) = split_response(&html_reply.wire);
    let parsed: serde_json::Value = serde_json::from_slice(&json_body).unwrap();
    let version = parsed.get("version").unwrap().as_str().unwrap().to_owned();
    let html_text = String::from_utf8(html_body).unwrap();
    assert!(html_text.contains(&version));
}

#[test]
fn not_found_request() {
    let raw = b"GET /foo HTTP/1.1\r\n\r\n";
    let reply = handle_request(raw, &info()).expect("a response is owed");
    let (header, body) = split_response(&reply.wire);
    assert!(header.starts_with("HTTP/1.1 404 NOT FOUND\r\n"));
    assert!(header.contains("Content-Type: text/html"));
    let body_text = String::from_utf8(body).unwrap();
    assert!(body_text.contains("/foo"));
    assert_eq!(reply.status_text, b"404 Not Found".to_vec());
    assert_eq!(reply.path, b"/foo".to_vec());
}

#[test]
fn bad_request_on_delete() {
    let raw = b"DELETE / HTTP/1.1\r\n\r\n";
    let reply = handle_request(raw, &info()).expect("a response is owed");
    let (header, _) = split_response(&reply.wire);
    assert!(header.starts_with("HTTP/1.1 400 BAD REQUEST\r\n"));
    assert_eq!(reply.status_text, b"400 Bad Request".to_vec());
    assert_eq!(reply.path, b"/unknown".to_vec());
}

#[test]
fn bad_request_on_garbled_line() {
    let raw = b"\x00\xfe\xffgarbage\r\n\r\n";
    let reply = handle_request(raw, &info()).expect("a response is owed");
    let (header, _) = split_response(&reply.wire);
    assert!(header.starts_with("HTTP/1.1 400 BAD REQUEST\r\n"));
}

#[test]
fn bad_request_on_blank_first_line() {
    let raw = b"\r\n\r\n";
    let reply = handle_request(raw, &info()).expect("a response is owed");
    let (header, _) = split_response(&reply.wire);
    assert!(header.starts_with("HTTP/1.1 400 BAD REQUEST\r\n"));
}

#[test]
fn zero_byte_read_gets_no_response() {
    assert!(handle_request(b"", &info()).is_none());
}

#[test]
fn content_length_is_exact_byte_length() {
    let requests: [&[u8]; 4] = [
        b"GET /version HTTP/1.1\r\nAccept: application/json\r\n\r\n",
        b"GET /version HTTP/1.1\r\n\r\n",
        b"GET /some/long/path HTTP/1.1\r\n\r\n",
        b"PATCH / HTTP/1.1\r\n\r\n",
    ];
    for raw in requests {
        let reply = handle_request(raw, &info()).unwrap();
        let (header, body) = split_response(&reply.wire);
        let declared = declared_content_length(&header);
        assert_eq!(declared, body.len());
        let tail = &reply.wire[reply.wire.len() - declared..];
        assert_eq!(tail, &body[..]);
    }
}

#[test]
fn routing_is_exact_match() {
    assert!(matches!(route(b"GET /version HTTP/1.1"), RouteOutcome::Version));
    assert!(matches!(route(b"GET /version"), RouteOutcome::Version));
    match route(b"GET /versions HTTP/1.1") {
        RouteOutcome::NotFound { path } => assert_eq!(path, b"/versions".to_vec()),
        _ => panic!("a GET for another path is not found"),
    }
    match route(b"GET") {
        RouteOutcome::NotFound { path } => assert_eq!(path, b"/unknown".to_vec()),
        _ => panic!("a GET without a path is not found at /unknown"),
    }
    assert!(matches!(route(b""), RouteOutcome::BadRequest));
    assert!(matches!(route(b"POST /version HTTP/1.1"), RouteOutcome::BadRequest));
    assert!(matches!(route(b"get /version HTTP/1.1"), RouteOutcome::BadRequest));
}

#[test]
fn truncated_request_line_still_routes() {
    let raw = b"GET /ver";
    let reply = handle_request(raw, &info()).unwrap();
    let (header, body) = split_response(&reply.wire);
    assert!(header.starts_with("HTTP/1.1 404 NOT FOUND\r\n"));
    assert!(String::from_utf8(body).unwrap().contains("/ver"));
}

#[test]
fn accept_header_is_found_anywhere_in_the_raw_bytes() {
    let raw = b"GET /version HTTP/1.1\r\nX-Filler: 1\r\nAccept: application/json\r\n\r\n";
    let reply = handle_request(raw, &info()).unwrap();
    let (header, _) = split_response(&reply.wire);
    assert!(header.contains("Content-Type: application/json"));
}

#[test]
fn first_line_splits_on_line_feed() {
    assert_eq!(first_line(b"GET / HTTP/1.1\r\nHost: x"), b"GET / HTTP/1.1".to_vec());
    assert_eq!(first_line(b"GET / HTTP/1.1"), b"GET / HTTP/1.1".to_vec());
    assert_eq!(first_line(b"\nsecond"), b"".to_vec());
    assert_eq!(first_line(b"abc\ndef\nghi"), b"abc".to_vec());
}

#[test]
fn contains_subslice_agrees_with_search() {
    assert!(contains_subslice(b"abc", b""));
    assert!(contains_subslice(b"abc", b"bc"));
    assert!(contains_subslice(b"abc", b"abc"));
    assert!(!contains_subslice(b"abc", b"bd"));
    assert!(!contains_subslice(b"ab", b"abc"));
    assert!(!contains_subslice(b"", b"a"));
    assert!(contains_subslice(b"", b""));
}

#[test]
fn decimal_rendering_is_exact() {
    assert_eq!(u64_to_dec(0), b"0".to_vec());
    assert_eq!(u64_to_dec(7), b"7".to_vec());
    assert_eq!(u64_to_dec(10), b"10".to_vec());
    assert_eq!(u64_to_dec(12345), b"12345".to_vec());
    assert_eq!(u64_to_dec(u64::MAX), b"18446744073709551615".to_vec());
}
