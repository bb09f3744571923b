//! The start-line grammar: request lines and status lines.
use vstd::prelude::*;

use crate::text::{chars_of, has_prefix, parse_u16, same_text, token_spans, u16_value, words};

verus! {

/// The methods that this server supports.
#[derive(Clone, Copy, Debug, PartialEq, Eq, Structural)]
pub enum Method {
    GET,
    HEAD,
}

/// The protocol versions that this server supports.
#[derive(Clone, Copy, Debug, PartialEq, Eq, Structural)]
pub enum HttpVersion {
    Http11,
}

/// The outcomes that a failed parse reports. Parsing produces `BadRequest`
/// for malformed text and `NotImplemented` for a known but unsupported
/// method; the other members are kept for checks that are not made yet.
#[derive(Clone, Copy, Debug, PartialEq, Eq, Structural)]
pub enum StatusCode {
    BadRequest,
    MethodNotAllowed,
    URITooLong,
    NotImplemented,
    GatewayTimeout,
}

/// The numeric code of each outcome.
pub open spec fn code_number(c: StatusCode) -> u16 {
    match c {
        StatusCode::BadRequest => 400,
        StatusCode::MethodNotAllowed => 405,
        StatusCode::URITooLong => 414,
        StatusCode::NotImplemented => 501,
        StatusCode::GatewayTimeout => 504,
    }
}

impl StatusCode {
    /// The numeric HTTP status code.
    pub fn code(&self) -> (r: u16)
        ensures
            r == code_number(*self),
    {
        match self {
            StatusCode::BadRequest => 400,
            StatusCode::MethodNotAllowed => 405,
            StatusCode::URITooLong => 414,
            StatusCode::NotImplemented => 501,
            StatusCode::GatewayTimeout => 504,
        }
    }
}

/// A request's opening line: `<method> <target> HTTP/1.1`.
pub struct RequestLine {
    pub method: Method,
    pub request_target: String,
    pub http_version: HttpVersion,
}

/// A response's opening line: `HTTP/1.1 <code> [reason]`; the reason
/// phrase is not kept.
pub struct StatusLine {
    pub http_version: HttpVersion,
    pub status_code: u16,
}

/// The first line of an HTTP message.
pub enum StartLine {
    RequestLine(RequestLine),
    StatusLine(StatusLine),
}

/// What a start line holds, with the request target as characters.
pub enum StartLineView {
    Request { method: Method, target: Seq<char>, version: HttpVersion },
    Status { version: HttpVersion, code: u16 },
}

impl View for StartLine {
    type V = StartLineView;

    open spec fn view(&self) -> StartLineView {
        match self {
            StartLine::RequestLine(r) => StartLineView::Request {
                method: r.method,
                target: r.request_target@,
                version: r.http_version,
            },
            StartLine::StatusLine(s) => StartLineView::Status {
                version: s.http_version,
                code: s.status_code,
            },
        }
    }
}

/// A parse outcome with the start line seen through its view.
pub open spec fn outcome_view(r: Result<StartLine, StatusCode>) -> Result<StartLineView, StatusCode> {
    match r {
        Ok(line) => Ok(line@),
        Err(e) => Err(e),
    }
}

/// Methods that are well known but that this server does not implement.
pub open spec fn unsupported_method(tok: Seq<char>) -> bool {
    tok == "POST"@ || tok == "PUT"@ || tok == "DELETE"@ || tok == "PATCH"@ || tok == "OPTIONS"@
        || tok == "TRACE"@ || tok == "CONNECT"@
}

/// The method that a token names, or why it is refused.
pub open spec fn method_of(tok: Seq<char>) -> Result<Method, StatusCode> {
    if tok == "GET"@ {
        Ok(Method::GET)
    } else if tok == "HEAD"@ {
        Ok(Method::HEAD)
    } else if unsupported_method(tok) {
        Err(StatusCode::NotImplemented)
    } else {
        Err(StatusCode::BadRequest)
    }
}

/// The protocol version that a token names; only `HTTP/1.1` is accepted.
pub open spec fn version_of(tok: Seq<char>) -> Result<HttpVersion, StatusCode> {
    if tok == "HTTP/1.1"@ {
        Ok(HttpVersion::Http11)
    } else {
        Err(StatusCode::BadRequest)
    }
}

/// Whether a token opens a status line.
pub open spec fn is_status_token(tok: Seq<char>) -> bool {
    "HTTP/"@.is_prefix_of(tok)
}

/// The outcome of parsing `s` as a start line.
///
/// The line is split into whitespace-separated tokens. Two or three tokens
/// are required. A first token that begins with `HTTP/` makes a status line
/// (version, then a 16-bit code, then an ignored reason); any other makes a
/// request line of exactly three tokens (method, target, version), where the
/// method is checked before the version.
pub open spec fn start_line_of(s: Seq<char>) -> Result<StartLineView, StatusCode> {
    let t = words(s);
    if t.len() < 2 || t.len() > 3 {
        Err(StatusCode::BadRequest)
    } else if is_status_token(t[0]) {
        match version_of(t[0]) {
            Err(e) => Err(e),
            Ok(version) => match u16_value(t[1]) {
                None => Err(StatusCode::BadRequest),
                Some(code) => Ok(StartLineView::Status { version, code }),
            },
        }
    } else if t.len() != 3 {
        Err(StatusCode::BadRequest)
    } else {
        match method_of(t[0]) {
            Err(e) => Err(e),
            Ok(method) => match version_of(t[2]) {
                Err(e) => Err(e),
                Ok(version) => Ok(StartLineView::Request { method, target: t[1], version }),
            },
        }
    }
}

/// Parses the first line of an HTTP message.
pub fn parse_start_line(line: &str) -> (r: Result<StartLine, StatusCode>)
    ensures
        outcome_view(r) == start_line_of(line@),
{
    let cs = chars_of(line);
    let spans = token_spans(&cs);
    let ghost t = words(line@);
    if spans.len() < 2 || spans.len() > 3 {
        return Err(StatusCode::BadRequest);
    }
    let first = line.substring_char(spans[0].0, spans[0].1);
    let second = line.substring_char(spans[1].0, spans[1].1);
    assert(first@ == t[0]);
    assert(second@ == t[1]);
    if has_prefix(first, "HTTP/") {
        let http_version = match parse_http_version(first) {
            Ok(v) => v,
            Err(e) => return Err(e),
        };
        match parse_u16(second) {
            Some(status_code) => Ok(StartLine::StatusLine(StatusLine { http_version, status_code })),
            None => Err(StatusCode::BadRequest),
        }
    } else {
        if spans.len() != 3 {
            return Err(StatusCode::BadRequest);
        }
        let method = match parse_method(first) {
            Ok(m) => m,
            Err(e) => return Err(e),
        };
        let request_target = second.to_string();
        let third = line.substring_char(spans[2].0, spans[2].1);
        assert(third@ == t[2]);
        let http_version = match parse_http_version(third) {
            Ok(v) => v,
            Err(e) => return Err(e),
        };
        Ok(StartLine::RequestLine(RequestLine { method, request_target, http_version }))
    }
}

/// Reads a method token.
fn parse_method(s: &str) -> (r: Result<Method, StatusCode>)
    ensures
        r == method_of(s@),
{
    if same_text(s, "GET") {
        Ok(Method::GET)
    } else if same_text(s, "HEAD") {
        Ok(Method::HEAD)
    } else if same_text(s, "POST") || same_text(s, "PUT") || same_text(s, "DELETE")
        || same_text(s, "PATCH") || same_text(s, "OPTIONS") || same_text(s, "TRACE")
        || same_text(s, "CONNECT") {
        Err(StatusCode::NotImplemented)
    } else {
        Err(StatusCode::BadRequest)
    }
}

/// Reads a protocol version token.
fn parse_http_version(s: &str) -> (r: Result<HttpVersion, StatusCode>)
    ensures
        r == version_of(s@),
{
    if same_text(s, "HTTP/1.1") {
        Ok(HttpVersion::Http11)
    } else {
        Err(StatusCode::BadRequest)
    }
}

} // verus!
