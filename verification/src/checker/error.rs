//! What can go wrong while a proxy server is checked, and how a report
//! records it.
use vstd::prelude::*;

use crate::client::error::client_error_text;
use crate::client::Error as ClientError;
use crate::message::{appended, io_error_text};
use crate::protocol::http::{http_parse_error_text, HttpParseError};
use crate::text::{push_str, string_of};

verus! {

/// Why a probe failed.
#[derive(Debug)]
pub enum Error {
    ConnectProxyServer { source: ClientError },
    InitializeTlsStream { source: std::io::Error },
    Shutdown { source: std::io::Error },
    NoHostProvided,
    NoPortProvided,
    NoPathProvided,
    UnknownScheme { scheme: String },
    ReadHttpResponse { source: std::io::Error },
    WriteHttpRequest { source: std::io::Error },
    ParseHttpRequest { source: HttpParseError },
    ParseHttpResponse { source: HttpParseError },
    IncompleteHttpResponse,
    /// The host of a URL is not a DNS name that TLS accepts.
    InvalidDnsName { dns_name: String },
    Timeout,
}

/// Why a probe failed, as a report keeps it: the messages of the errors
/// beneath, not the errors.
#[derive(Clone, Debug, PartialEq, Eq)]
pub enum ReportError {
    ConnectProxyServer { message: String },
    InitializeTlsStream { message: String },
    Shutdown { message: String },
    NoHostProvided,
    NoPortProvided,
    NoPathProvided,
    UnknownScheme { scheme: String },
    ReadHttpResponse { message: String },
    WriteHttpRequest { message: String },
    ParseHttpRequest { source: HttpParseError },
    ParseHttpResponse { source: HttpParseError },
    IncompleteHttpResponse,
    InvalidDnsName { dns_name: String },
    Timeout,
}

/// How a report keeps an error: the same variant, with the message of the
/// error beneath in place of the error (for a connection error, a message
/// of which `client_error_text` is known; for an error of the operating
/// system, its message, of which nothing is known), and the rest as it is.
pub open spec fn reported(err: Error, r: ReportError) -> bool {
    match err {
        Error::ConnectProxyServer { source } => r matches ReportError::ConnectProxyServer {
            message,
        } && appended(
            Seq::empty(),
            message@,
            client_error_text(source).0,
            client_error_text(source).1,
        ),
        Error::InitializeTlsStream { .. } => r is InitializeTlsStream,
        Error::Shutdown { .. } => r is Shutdown,
        Error::NoHostProvided => r is NoHostProvided,
        Error::NoPortProvided => r is NoPortProvided,
        Error::NoPathProvided => r is NoPathProvided,
        Error::UnknownScheme { scheme } => r matches ReportError::UnknownScheme { scheme: s }
            && s@ == scheme@,
        Error::ReadHttpResponse { .. } => r is ReadHttpResponse,
        Error::WriteHttpRequest { .. } => r is WriteHttpRequest,
        Error::ParseHttpRequest { source } => r == (ReportError::ParseHttpRequest { source }),
        Error::ParseHttpResponse { source } => r == (ReportError::ParseHttpResponse { source }),
        Error::IncompleteHttpResponse => r is IncompleteHttpResponse,
        Error::InvalidDnsName { dns_name } => r matches ReportError::InvalidDnsName {
            dns_name: d,
        } && d@ == dns_name@,
        Error::Timeout => r is Timeout,
    }
}

/// The text of a report's error.
pub open spec fn report_error_text(e: ReportError) -> Seq<char> {
    match e {
        ReportError::ConnectProxyServer { message } => "Could not connect proxy server, error: "@
            + message@,
        ReportError::InitializeTlsStream { message } => "Could not initialize TLS stream, error: "@
            + message@,
        ReportError::Shutdown { message } => "Error occurred when shutdown, error: "@ + message@,
        ReportError::NoHostProvided => "No host is provided"@,
        ReportError::NoPortProvided => "No port is provided"@,
        ReportError::NoPathProvided => "No path is provided"@,
        ReportError::UnknownScheme { scheme } => "Unknown scheme: "@ + scheme@,
        ReportError::ReadHttpResponse { message } => "Could not read HTTP response, error: "@
            + message@,
        ReportError::WriteHttpRequest { message } => "Could not write HTTP request, error: "@
            + message@,
        ReportError::ParseHttpRequest { source } => "Could not parse HTTP request, error: "@
            + http_parse_error_text(source),
        ReportError::ParseHttpResponse { source } => "Could not parse HTTP response, error: "@
            + http_parse_error_text(source),
        ReportError::IncompleteHttpResponse => "Incomplete HTTP response"@,
        ReportError::InvalidDnsName { dns_name } => "Invalid DNS name `"@ + dns_name@ + "`"@,
        ReportError::Timeout => "Operation timed out"@,
    }
}

impl ReportError {
    /// How a report keeps `err`.
    pub fn from(err: Error) -> (r: ReportError)
        ensures
            reported(err, r),
    {
        match err {
            Error::ConnectProxyServer { source } => ReportError::ConnectProxyServer {
                message: source.to_string(),
            },
            Error::InitializeTlsStream { source } => ReportError::InitializeTlsStream {
                message: io_error_text(&source),
            },
            Error::Shutdown { source } => ReportError::Shutdown { message: io_error_text(&source) },
            Error::NoHostProvided => ReportError::NoHostProvided,
            Error::NoPortProvided => ReportError::NoPortProvided,
            Error::NoPathProvided => ReportError::NoPathProvided,
            Error::UnknownScheme { scheme } => ReportError::UnknownScheme { scheme },
            Error::ReadHttpResponse { source } => ReportError::ReadHttpResponse {
                message: io_error_text(&source),
            },
            Error::WriteHttpRequest { source } => ReportError::WriteHttpRequest {
                message: io_error_text(&source),
            },
            Error::ParseHttpRequest { source } => ReportError::ParseHttpRequest { source },
            Error::ParseHttpResponse { source } => ReportError::ParseHttpResponse { source },
            Error::IncompleteHttpResponse => ReportError::IncompleteHttpResponse,
            Error::InvalidDnsName { dns_name } => ReportError::InvalidDnsName { dns_name },
            Error::Timeout => ReportError::Timeout,
        }
    }

    /// The text of the error.
    pub fn to_string(&self) -> (r: String)
        ensures
            r@ == report_error_text(*self),
    {
        let mut out: Vec<char> = Vec::new();
        match self {
            ReportError::ConnectProxyServer { message } => {
                push_str(&mut out, "Could not connect proxy server, error: ");
                push_str(&mut out, message.as_str());
            },
            ReportError::InitializeTlsStream { message } => {
                push_str(&mut out, "Could not initialize TLS stream, error: ");
                push_str(&mut out, message.as_str());
            },
            ReportError::Shutdown { message } => {
                push_str(&mut out, "Error occurred when shutdown, error: ");
                push_str(&mut out, message.as_str());
            },
            ReportError::NoHostProvided => push_str(&mut out, "No host is provided"),
            ReportError::NoPortProvided => push_str(&mut out, "No port is provided"),
            ReportError::NoPathProvided => push_str(&mut out, "No path is provided"),
            ReportError::UnknownScheme { scheme } => {
                push_str(&mut out, "Unknown scheme: ");
                push_str(&mut out, scheme.as_str());
            },
            ReportError::ReadHttpResponse { message } => {
                push_str(&mut out, "Could not read HTTP response, error: ");
                push_str(&mut out, message.as_str());
            },
            ReportError::WriteHttpRequest { message } => {
                push_str(&mut out, "Could not write HTTP request, error: ");
                push_str(&mut out, message.as_str());
            },
            ReportError::ParseHttpRequest { source } => {
                push_str(&mut out, "Could not parse HTTP request, error: ");
                push_str(&mut out, source.message().as_str());
            },
            ReportError::ParseHttpResponse { source } => {
                push_str(&mut out, "Could not parse HTTP response, error: ");
                push_str(&mut out, source.message().as_str());
            },
            ReportError::IncompleteHttpResponse => push_str(&mut out, "Incomplete HTTP response"),
            ReportError::InvalidDnsName { dns_name } => {
                push_str(&mut out, "Invalid DNS name `");
                push_str(&mut out, dns_name.as_str());
                push_str(&mut out, "`");
            },
            ReportError::Timeout => push_str(&mut out, "Operation timed out"),
        }
        assert(out@ =~= report_error_text(*self));
        string_of(out.as_slice())
    }
}

} // verus!
