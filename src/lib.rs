//! Start-line parsing for a minimal HTTP/1.1 server, with the response
//! that the server writes for each parse outcome.
pub mod laws;
pub mod parser;
pub mod response;
pub mod text;

pub use parser::{parse_start_line, HttpVersion, Method, RequestLine, StartLine, StatusCode, StatusLine};
