//! What can go wrong while a proxy is asked to open a connection.
use vstd::prelude::*;

use vstd::utf8::valid_utf8;

use crate::message::{appended, io_error_text, lemma_appended_exact, lemma_appended_open, lossy_text, utf8_text};
use crate::protocol::http::{http_parse_error_text, HttpParseError};
use crate::protocol::socks::{method_text, socks_error_text, Error as SocksError, Socks5Method};
use crate::text::{push_str, string_of};

verus! {

/// Why a handshake with a proxy failed.
#[derive(Debug)]
pub enum Error {
    ReadStream { source: std::io::Error },
    WriteStream { source: std::io::Error },
    ShutdownStream { source: std::io::Error },
    ParseSocks4Reply { source: SocksError },
    ParseSocks5Reply { source: SocksError },
    /// The request could not be written in the proxy's protocol.
    EncodeSocksRequest { source: SocksError },
    ParseHttpResponse { source: HttpParseError },
    HostUnreachable,
    ProxyRejected,
    AccessDenied { user_name: Vec<u8>, password: Vec<u8> },
    UnsupportedSocksMethod { method: Socks5Method },
    InvalidSocks4aId { id: Vec<u8> },
    NoHttpResponseCode,
    UnsupportedHttpMethod { method: String },
    BadHttpRequest,
    BadHttpResponse,
    HttpResponseTooLarge,
    BuildHttpRequest,
}

/// The known text of a handshake error, and whether a message of the
/// operating system (or bytes that are not UTF-8) complete it.
pub open spec fn handshake_error_text(e: Error) -> (Seq<char>, bool) {
    match e {
        Error::ReadStream { .. } => ("Could not read stream, error: "@, true),
        Error::WriteStream { .. } => ("Could not read stream, error: "@, true),
        Error::ShutdownStream { .. } => ("Error occurred while shutdown stream, error: "@, true),
        Error::ParseSocks4Reply { source } => (
            "Could not parse SOCKS4, error: "@ + socks_error_text(source),
            false,
        ),
        Error::ParseSocks5Reply { source } => (
            "Could not parse SOCKS5, error: "@ + socks_error_text(source),
            false,
        ),
        Error::EncodeSocksRequest { source } => (
            "Could not write SOCKS request, error: "@ + socks_error_text(source),
            false,
        ),
        Error::ParseHttpResponse { source } => (
            "Could not parse HTTP repsonse, error: "@ + http_parse_error_text(source),
            false,
        ),
        Error::HostUnreachable => ("Host is unreachable"@, false),
        Error::ProxyRejected => ("Remote proxy rejected our request"@, false),
        Error::AccessDenied { user_name, password } => if valid_utf8(user_name@) && valid_utf8(
            password@,
        ) {
            (
                "Access denied user name: "@ + utf8_text(user_name@) + ", password: "@ + utf8_text(
                    password@,
                ),
                false,
            )
        } else {
            ("Access denied user name: "@, true)
        },
        Error::UnsupportedSocksMethod { method } => (
            "Unsupported SOCKS method: "@ + method_text(method),
            false,
        ),
        Error::InvalidSocks4aId { id } => if valid_utf8(id@) {
            ("Invalid SOCKS4a id: "@ + utf8_text(id@), false)
        } else {
            ("Invalid SOCKS4a id: "@, true)
        },
        Error::NoHttpResponseCode => ("No HTTP response code"@, false),
        Error::UnsupportedHttpMethod { method } => ("Unsupported HTTP method: "@ + method@, false),
        Error::BadHttpRequest => ("Bad HTTP request"@, false),
        Error::BadHttpResponse => ("Bad HTTP response"@, false),
        Error::HttpResponseTooLarge => ("HTTP response is too large"@, false),
        Error::BuildHttpRequest => (
            "Could not build HTTP request, error: an error occurred when formatting an argument"@,
            false,
        ),
    }
}

fn push_lossy(out: &mut Vec<char>, b: &[u8])
    ensures
        old(out)@.is_prefix_of(final(out)@),
        valid_utf8(b@) ==> final(out)@ == old(out)@ + utf8_text(b@),
{
    let t = lossy_text(b);
    push_str(out, t.as_str());
    proof {
        if valid_utf8(b@) {
            crate::message::lemma_lossy_text(b@, t@);
        }
        assert(final(out)@.take(old(out)@.len() as int) =~= old(out)@);
    }
}

impl Error {
    /// Appends the text of the error.
    pub fn push_text(&self, out: &mut Vec<char>)
        ensures
            appended(old(out)@, final(out)@, handshake_error_text(*self).0, handshake_error_text(*self).1),
    {
        let ghost start = out@;
        match self {
            Error::ReadStream { source } | Error::WriteStream { source } => {
                push_str(out, "Could not read stream, error: ");
                let t = io_error_text(source);
                push_str(out, t.as_str());
                proof { lemma_appended_open(start, "Could not read stream, error: "@, t@); }
            },
            Error::ShutdownStream { source } => {
                push_str(out, "Error occurred while shutdown stream, error: ");
                let t = io_error_text(source);
                push_str(out, t.as_str());
                proof {
                    lemma_appended_open(start, "Error occurred while shutdown stream, error: "@, t@);
                }
            },
            Error::ParseSocks4Reply { source } => {
                push_str(out, "Could not parse SOCKS4, error: ");
                source.push_text(out);
                proof { lemma_appended_exact(start, handshake_error_text(*self).0); }
                assert(out@ =~= start + handshake_error_text(*self).0);
            },
            Error::ParseSocks5Reply { source } => {
                push_str(out, "Could not parse SOCKS5, error: ");
                source.push_text(out);
                proof { lemma_appended_exact(start, handshake_error_text(*self).0); }
                assert(out@ =~= start + handshake_error_text(*self).0);
            },
            Error::EncodeSocksRequest { source } => {
                push_str(out, "Could not write SOCKS request, error: ");
                source.push_text(out);
                proof { lemma_appended_exact(start, handshake_error_text(*self).0); }
                assert(out@ =~= start + handshake_error_text(*self).0);
            },
            Error::ParseHttpResponse { source } => {
                push_str(out, "Could not parse HTTP repsonse, error: ");
                push_str(out, source.message().as_str());
                proof { lemma_appended_exact(start, handshake_error_text(*self).0); }
                assert(out@ =~= start + handshake_error_text(*self).0);
            },
            Error::AccessDenied { user_name, password } => {
                push_str(out, "Access denied user name: ");
                let ghost mid = out@;
                push_lossy(out, user_name.as_slice());
                push_str(out, ", password: ");
                push_lossy(out, password.as_slice());
                proof {
                    let text = handshake_error_text(*self).0;
                    if valid_utf8(user_name@) && valid_utf8(password@) {
                        assert(out@ =~= start + text);
                        lemma_appended_exact(start, text);
                    } else {
                        assert(mid =~= start + "Access denied user name: "@);
                        assert(out@ =~= start + "Access denied user name: "@ + out@.skip(mid.len() as int)) by {
                            assert(out@.take(mid.len() as int) =~= mid);
                        }
                        lemma_appended_open(start, "Access denied user name: "@, out@.skip(mid.len() as int));
                    }
                }
            },
            Error::UnsupportedSocksMethod { method } => {
                push_str(out, "Unsupported SOCKS method: ");
                method.push_text(out);
                proof { lemma_appended_exact(start, handshake_error_text(*self).0); }
                assert(out@ =~= start + handshake_error_text(*self).0);
            },
            Error::InvalidSocks4aId { id } => {
                push_str(out, "Invalid SOCKS4a id: ");
                let ghost mid = out@;
                push_lossy(out, id.as_slice());
                proof {
                    if valid_utf8(id@) {
                        assert(out@ =~= start + handshake_error_text(*self).0);
                        lemma_appended_exact(start, handshake_error_text(*self).0);
                    } else {
                        assert(out@ =~= start + "Invalid SOCKS4a id: "@ + out@.skip(mid.len() as int)) by {
                            assert(out@.take(mid.len() as int) =~= mid);
                        }
                        lemma_appended_open(start, "Invalid SOCKS4a id: "@, out@.skip(mid.len() as int));
                    }
                }
            },
            Error::UnsupportedHttpMethod { method } => {
                push_str(out, "Unsupported HTTP method: ");
                push_str(out, method.as_str());
                proof { lemma_appended_exact(start, handshake_error_text(*self).0); }
                assert(out@ =~= start + handshake_error_text(*self).0);
            },
            Error::HostUnreachable => {
                push_str(out, "Host is unreachable");
                proof { lemma_appended_exact(start, handshake_error_text(*self).0); }
            },
            Error::ProxyRejected => {
                push_str(out, "Remote proxy rejected our request");
                proof { lemma_appended_exact(start, handshake_error_text(*self).0); }
            },
            Error::NoHttpResponseCode => {
                push_str(out, "No HTTP response code");
                proof { lemma_appended_exact(start, handshake_error_text(*self).0); }
            },
            Error::BadHttpRequest => {
                push_str(out, "Bad HTTP request");
                proof { lemma_appended_exact(start, handshake_error_text(*self).0); }
            },
            Error::BadHttpResponse => {
                push_str(out, "Bad HTTP response");
                proof { lemma_appended_exact(start, handshake_error_text(*self).0); }
            },
            Error::HttpResponseTooLarge => {
                push_str(out, "HTTP response is too large");
                proof { lemma_appended_exact(start, handshake_error_text(*self).0); }
            },
            Error::BuildHttpRequest => {
                push_str(
                    out,
                    "Could not build HTTP request, error: an error occurred when formatting an argument",
                );
                proof { lemma_appended_exact(start, handshake_error_text(*self).0); }
            },
        }
    }

    /// The text of the error.
    pub fn to_string(&self) -> (r: String)
        ensures
            appended(Seq::empty(), r@, handshake_error_text(*self).0, handshake_error_text(*self).1),
    {
        let mut out: Vec<char> = Vec::new();
        self.push_text(&mut out);
        string_of(out.as_slice())
    }
}

} // verus!
