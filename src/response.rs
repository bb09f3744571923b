//! The single response that the server writes for a request.
use vstd::prelude::*;

use crate::parser::{
    parse_start_line, start_line_of, Method, StartLine, StartLineView, StatusCode,
};
use crate::text::chars_of;

verus! {

/// Written when the request holds no text at all.
pub const EMPTY_REQUEST_RESPONSE: &'static str = "HTTP/1.1 400 Bad Request\r\n\r\nEmpty request";

/// Written for a `GET` request.
pub const GET_RESPONSE: &'static str = "HTTP/1.1 200 OK\r\nContent-Length: 12\r\n\r\nHello World!";

/// Written for a `HEAD` request: the headers of the `GET` response, no body.
pub const HEAD_RESPONSE: &'static str = "HTTP/1.1 200 OK\r\nContent-Length: 12\r\n\r\n";

/// Written when a status line arrives where a request line was expected.
pub const STATUS_LINE_RESPONSE: &'static str = "HTTP/1.1 400 Bad Request\r\n\r\nUnexpected status line";

/// The text that precedes the code in the response to a failed parse.
pub const ERROR_PREFIX: &'static str = "HTTP/1.1 ";

/// The text that follows the code in the response to a failed parse.
pub const ERROR_SUFFIX: &'static str = " Error\r\n\r\nRequest parsing failed";

/// The decimal digits of each outcome's code.
pub open spec fn code_digits(c: StatusCode) -> Seq<char> {
    match c {
        StatusCode::BadRequest => "400"@,
        StatusCode::MethodNotAllowed => "405"@,
        StatusCode::URITooLong => "414"@,
        StatusCode::NotImplemented => "501"@,
        StatusCode::GatewayTimeout => "504"@,
    }
}

/// `k` is the index of the first line feed of `s`.
pub open spec fn is_first_newline(s: Seq<char>, k: int) -> bool {
    &&& 0 <= k < s.len()
    &&& s[k] == '\n'
    &&& forall|j: int| 0 <= j < k ==> s[j] != '\n'
}

/// A line without the carriage return that ended it.
pub open spec fn strip_cr(l: Seq<char>) -> Seq<char> {
    if l.len() > 0 && l.last() == '\r' {
        l.drop_last()
    } else {
        l
    }
}

/// The first line of `s`, as `str::lines` yields it: the text before the
/// first line feed, without a carriage return just before that line feed;
/// the whole text where there is no line feed.
pub open spec fn first_line(s: Seq<char>) -> Seq<char> {
    if exists|k: int| is_first_newline(s, k) {
        strip_cr(s.take(choose|k: int| is_first_newline(s, k)))
    } else {
        s
    }
}

/// The response to the request text `s`.
pub open spec fn response_of(s: Seq<char>) -> Seq<char> {
    if s.len() == 0 {
        EMPTY_REQUEST_RESPONSE@
    } else {
        match start_line_of(first_line(s)) {
            Ok(StartLineView::Request { method: Method::GET, .. }) => GET_RESPONSE@,
            Ok(StartLineView::Request { method: Method::HEAD, .. }) => HEAD_RESPONSE@,
            Ok(StartLineView::Status { .. }) => STATUS_LINE_RESPONSE@,
            Err(c) => ERROR_PREFIX@ + code_digits(c) + ERROR_SUFFIX@,
        }
    }
}

fn code_text(c: StatusCode) -> (r: &'static str)
    ensures
        r@ == code_digits(c),
{
    match c {
        StatusCode::BadRequest => "400",
        StatusCode::MethodNotAllowed => "405",
        StatusCode::URITooLong => "414",
        StatusCode::NotImplemented => "501",
        StatusCode::GatewayTimeout => "504",
    }
}

/// The first line of `request`.
pub fn first_line_of(request: &str) -> (r: &str)
    ensures
        r@ == first_line(request@),
{
    let cs = chars_of(request);
    let n = cs.len();
    let mut k: usize = 0;
    while k < n && cs[k] != '\n'
        invariant
            n == cs@.len(),
            cs@ == request@,
            k <= n,
            forall|j: int| 0 <= j < k ==> cs@[j] != '\n',
        decreases n - k,
    {
        k = k + 1;
    }
    if k < n {
        assert(is_first_newline(request@, k as int));
        let ghost chosen = choose|i: int| is_first_newline(request@, i);
        assert(chosen == k) by {
            if chosen < k {
                assert(cs@[chosen] != '\n');
            } else if chosen > k {
                assert(request@[k as int] != '\n');
            }
        }
        let end = if k > 0 && cs[k - 1] == '\r' {
            k - 1
        } else {
            k
        };
        let r = request.substring_char(0, end);
        assert(r@ == strip_cr(request@.take(k as int)));
        r
    } else {
        assert(!exists|i: int| is_first_newline(request@, i));
        assert(request@.subrange(0, n as int) == request@);
        request.substring_char(0, n)
    }
}

/// The response to the request text `request`: an empty request, a `GET`,
/// a `HEAD`, a status line, or the code of the parse failure of its first
/// line.
pub fn respond(request: &str) -> (r: String)
    ensures
        r@ == response_of(request@),
{
    if request.unicode_len() == 0 {
        return String::from_str(EMPTY_REQUEST_RESPONSE);
    }
    let line = first_line_of(request);
    match parse_start_line(line) {
        Ok(StartLine::RequestLine(req)) => match req.method {
            Method::GET => String::from_str(GET_RESPONSE),
            Method::HEAD => String::from_str(HEAD_RESPONSE),
        },
        Ok(StartLine::StatusLine(_)) => String::from_str(STATUS_LINE_RESPONSE),
        Err(c) => {
            let mut out = String::from_str(ERROR_PREFIX);
            out.append(code_text(c));
            out.append(ERROR_SUFFIX);
            out
        },
    }
}

/// The text that `String::from_utf8_lossy` makes of `b`.
pub uninterp spec fn utf8_lossy(b: Seq<u8>) -> Seq<char>;

/// Relies on `String::from_utf8_lossy`: the text of `b`, with each invalid
/// sequence replaced by U+FFFD, which depends on the bytes alone; no bytes
/// give no text.
#[verifier::external_body]
fn decode_lossy(b: &[u8]) -> (r: String)
    ensures
        r@ == utf8_lossy(b@),
        b@.len() == 0 ==> r@.len() == 0,
{
    String::from_utf8_lossy(b).into_owned()
}

/// The response to the bytes that a client sent, read as UTF-8 text.
pub fn respond_to_bytes(bytes: &[u8]) -> (r: String)
    ensures
        r@ == response_of(utf8_lossy(bytes@)),
        bytes@.len() == 0 ==> r@ == EMPTY_REQUEST_RESPONSE@,
{
    let text = decode_lossy(bytes);
    respond(text.as_str())
}

} // verus!
