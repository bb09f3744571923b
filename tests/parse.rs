use http_start_line::{parse_start_line, HttpVersion, Method, StartLine, StatusCode};

fn request(line: &str) -> (Method, String, HttpVersion) {
    match parse_start_line(line) {
        Ok(StartLine::RequestLine(r)) => (r.method, r.request_target, r.http_version),
        Ok(StartLine::StatusLine(_)) => panic!("status line for {:?}", line),
        Err(e) => panic!("error {:?} for {:?}", e, line),
    }
}

fn status(line: &str) -> (HttpVersion, u16) {
    match parse_start_line(line) {
        Ok(StartLine::StatusLine(s)) => (s.http_version, s.status_code),
        Ok(StartLine::RequestLine(_)) => panic!("request line for {:?}", line),
        Err(e) => panic!("error {:?} for {:?}", e, line),
    }
}

fn error(line: &str) -> StatusCode {
    match parse_start_line(line) {
        Ok(_) => panic!("parsed {:?}", line),
        Err(e) => e,
    }
}

#[test]
fn get_root() {
    assert_eq!(request("GET / HTTP/1.1"), (Method::GET, "/".to_string(), HttpVersion::Http11));
}

#[test]
fn head_index() {
    assert_eq!(
        request("HEAD /index.html HTTP/1.1"),
        (Method::HEAD, "/index.html".to_string(), HttpVersion::Http11)
    );
}

#[test]
fn post_not_implemented() {
    assert_eq!(error("POST /submit HTTP/1.1"), StatusCode::NotImplemented);
}

#[test]
fn every_known_method_not_implemented() {
    for m in ["POST", "PUT", "DELETE", "PATCH", "OPTIONS", "TRACE", "CONNECT"] {
        assert_eq!(error(&format!("{} / HTTP/1.1", m)), StatusCode::NotImplemented);
    }
}

#[test]
fn http2_version_rejected() {
    assert_eq!(error("GET / HTTP/2"), StatusCode::BadRequest);
}

#[test]
fn http10_version_rejected() {
    assert_eq!(error("GET / HTTP/1.0"), StatusCode::BadRequest);
}

#[test]
fn status_line_ok() {
    assert_eq!(status("HTTP/1.1 200 OK"), (HttpVersion::Http11, 200));
}

#[test]
fn status_line_without_reason() {
    assert_eq!(status("HTTP/1.1 404"), (HttpVersion::Http11, 404));
}

#[test]
fn empty_line_rejected() {
    assert_eq!(error(""), StatusCode::BadRequest);
}

#[test]
fn whitespace_only_rejected() {
    assert_eq!(error(" \t  \r"), StatusCode::BadRequest);
}

#[test]
fn unknown_method_rejected() {
    assert_eq!(error("FOO / HTTP/1.1"), StatusCode::BadRequest);
}

#[test]
fn lowercase_method_rejected() {
    assert_eq!(error("get / HTTP/1.1"), StatusCode::BadRequest);
}

#[test]
fn method_checked_before_version() {
    assert_eq!(error("POST / HTTP/2"), StatusCode::NotImplemented);
    assert_eq!(error("FOO / HTTP/2"), StatusCode::BadRequest);
}

#[test]
fn token_counts_outside_two_and_three_rejected() {
    assert_eq!(error("GET"), StatusCode::BadRequest);
    assert_eq!(error("HTTP/1.1"), StatusCode::BadRequest);
    assert_eq!(error("GET / HTTP/1.1 extra"), StatusCode::BadRequest);
    assert_eq!(error("HTTP/1.1 200 OK really"), StatusCode::BadRequest);
    assert_eq!(error("a b c d e"), StatusCode::BadRequest);
}

#[test]
fn request_with_two_tokens_rejected() {
    assert_eq!(error("GET /"), StatusCode::BadRequest);
}

#[test]
fn first_token_decides_the_kind() {
    assert!(matches!(parse_start_line("HTTP/1.1 200 OK"), Ok(StartLine::StatusLine(_))));
    assert!(matches!(parse_start_line("GET / HTTP/1.1"), Ok(StartLine::RequestLine(_))));
    assert_eq!(error("HTTP/1.0 200 OK"), StatusCode::BadRequest);
    assert_eq!(error("HTTP/ 200"), StatusCode::BadRequest);
    assert_eq!(error("HTTPS/1.1 200"), StatusCode::BadRequest);
}

#[test]
fn surrounding_and_inner_whitespace_ignored() {
    assert_eq!(
        request("  GET \t /a   HTTP/1.1 \r"),
        (Method::GET, "/a".to_string(), HttpVersion::Http11)
    );
}

#[test]
fn unicode_whitespace_separates_tokens() {
    assert_eq!(
        request("GET\u{3000}/x\u{a0}HTTP/1.1"),
        (Method::GET, "/x".to_string(), HttpVersion::Http11)
    );
}

#[test]
fn target_kept_verbatim() {
    assert_eq!(
        request("GET /a%20b?q=1#f HTTP/1.1"),
        (Method::GET, "/a%20b?q=1#f".to_string(), HttpVersion::Http11)
    );
    assert_eq!(
        request("HEAD /caf\u{e9} HTTP/1.1"),
        (Method::HEAD, "/caf\u{e9}".to_string(), HttpVersion::Http11)
    );
}

#[test]
fn status_code_bounds() {
    assert_eq!(status("HTTP/1.1 0"), (HttpVersion::Http11, 0));
    assert_eq!(status("HTTP/1.1 65535 Max"), (HttpVersion::Http11, 65535));
    assert_eq!(error("HTTP/1.1 65536"), StatusCode::BadRequest);
    assert_eq!(error("HTTP/1.1 99999999999999999999"), StatusCode::BadRequest);
}

#[test]
fn status_code_text_forms() {
    assert_eq!(status("HTTP/1.1 +201"), (HttpVersion::Http11, 201));
    assert_eq!(status("HTTP/1.1 007"), (HttpVersion::Http11, 7));
    assert_eq!(error("HTTP/1.1 +"), StatusCode::BadRequest);
    assert_eq!(error("HTTP/1.1 -1"), StatusCode::BadRequest);
    assert_eq!(error("HTTP/1.1 2x0"), StatusCode::BadRequest);
    assert_eq!(error("HTTP/1.1 OK"), StatusCode::BadRequest);
}

#[test]
fn parsing_twice_gives_equal_results() {
    for line in ["GET / HTTP/1.1", "HTTP/1.1 200 OK", "POST / HTTP/1.1", "", "FOO / HTTP/1.1"] {
        match (parse_start_line(line), parse_start_line(line)) {
            (Ok(StartLine::RequestLine(a)), Ok(StartLine::RequestLine(b))) => {
                assert_eq!(a.method, b.method);
                assert_eq!(a.request_target, b.request_target);
                assert_eq!(a.http_version, b.http_version);
            }
            (Ok(StartLine::StatusLine(a)), Ok(StartLine::StatusLine(b))) => {
                assert_eq!(a.http_version, b.http_version);
                assert_eq!(a.status_code, b.status_code);
            }
            (Err(a), Err(b)) => assert_eq!(a, b),
            _ => panic!("different outcomes for {:?}", line),
        }
    }
}

#[test]
fn status_code_numbers() {
    assert_eq!(StatusCode::BadRequest.code(), 400);
    assert_eq!(StatusCode::MethodNotAllowed.code(), 405);
    assert_eq!(StatusCode::URITooLong.code(), 414);
    assert_eq!(StatusCode::NotImplemented.code(), 501);
    assert_eq!(StatusCode::GatewayTimeout.code(), 504);
}
