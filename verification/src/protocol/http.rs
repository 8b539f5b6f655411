//! Reading the head of an HTTP response with the `httparse` crate.
use vstd::prelude::*;

verus! {

/// Why `httparse` refused a response: the variants of `httparse::Error`.
#[derive(Clone, Copy, Debug, PartialEq, Eq, Structural, Hash)]
pub enum HttpParseError {
    HeaderName,
    HeaderValue,
    NewLine,
    Status,
    Token,
    TooManyHeaders,
    Version,
}

impl HttpParseError {
    /// The description that `httparse` gives of the error.
    pub fn message(&self) -> (r: String)
        ensures
            r@ == http_parse_error_text(*self),
    {
        http_error_text(*self)
    }
}

/// `Display` of `httparse::Error`, for the variant of the same name.
/// Claimed: it writes the error's description, one fixed text per variant,
/// as `http_parse_error_text` gives them (`description_str` in its source).
#[verifier::external_body]
pub(crate) fn http_error_text(e: HttpParseError) -> (r: String)
    ensures
        r@ == http_parse_error_text(e),
{
    let e = match e {
        HttpParseError::HeaderName => httparse::Error::HeaderName,
        HttpParseError::HeaderValue => httparse::Error::HeaderValue,
        HttpParseError::NewLine => httparse::Error::NewLine,
        HttpParseError::Status => httparse::Error::Status,
        HttpParseError::Token => httparse::Error::Token,
        HttpParseError::TooManyHeaders => httparse::Error::TooManyHeaders,
        HttpParseError::Version => httparse::Error::Version,
    };
    e.to_string()
}

/// The description that `httparse` gives of each error.
pub open spec fn http_parse_error_text(e: HttpParseError) -> Seq<char> {
    match e {
        HttpParseError::HeaderName => "invalid header name"@,
        HttpParseError::HeaderValue => "invalid header value"@,
        HttpParseError::NewLine => "invalid new line"@,
        HttpParseError::Status => "invalid response status"@,
        HttpParseError::Token => "invalid token"@,
        HttpParseError::TooManyHeaders => "too many headers"@,
        HttpParseError::Version => "invalid HTTP version"@,
    }
}

/// How far `httparse` got with the head of a response.
#[derive(Clone, Copy, Debug, PartialEq, Eq, Structural)]
pub enum HttpHead {
    /// More bytes are needed.
    Partial,
    /// The head takes the first `len` bytes; `code` is its status code.
    Complete { len: usize, code: Option<u16> },
}

/// Name for what `httparse::Response::parse`, with room for 32 headers,
/// makes of a buffer: how far it got, or which error it gave.
pub uninterp spec fn parsed_response_head(bytes: Seq<u8>) -> Result<HttpHead, HttpParseError>;

/// `httparse::Response::parse` on a response with room for 32 headers, and
/// its `code` field; its error is given as the variant of the same name.
/// Claimed: it gives what `parsed_response_head` names for the buffer; a
/// complete head (its source sets the code before it can finish) has a code
/// and lies within the buffer.
#[verifier::external_body]
pub(crate) fn parse_response_head(buf: &[u8]) -> (r: Result<HttpHead, HttpParseError>)
    ensures
        r == parsed_response_head(buf@),
        r matches Ok(HttpHead::Complete { len, code }) ==> code is Some && len <= buf@.len(),
{
    let mut headers = [httparse::EMPTY_HEADER; 32];
    let mut response = httparse::Response::new(&mut headers);
    match response.parse(buf) {
        Ok(httparse::Status::Partial) => Ok(HttpHead::Partial),
        Ok(httparse::Status::Complete(len)) => Ok(HttpHead::Complete { len, code: response.code }),
        Err(httparse::Error::HeaderName) => Err(HttpParseError::HeaderName),
        Err(httparse::Error::HeaderValue) => Err(HttpParseError::HeaderValue),
        Err(httparse::Error::NewLine) => Err(HttpParseError::NewLine),
        Err(httparse::Error::Status) => Err(HttpParseError::Status),
        Err(httparse::Error::Token) => Err(HttpParseError::Token),
        Err(httparse::Error::TooManyHeaders) => Err(HttpParseError::TooManyHeaders),
        Err(httparse::Error::Version) => Err(HttpParseError::Version),
    }
}

} // verus!
