//! What can go wrong on the way to a host through proxies.
use vstd::prelude::*;

use crate::client::handshake::error::handshake_error_text;
use crate::client::handshake::Error as HandshakeError;
use crate::common::host_address::{host_address_text, HostAddress};
use crate::message::{
    appended, io_error_text, lemma_appended_exact, lemma_appended_nested, lemma_appended_open,
};
use crate::text::{push_str, string_of};
use crate::net::SocketAddress;

verus! {

/// Why a connection through proxies failed.
#[derive(Debug)]
pub enum Error {
    RecvDatagram { source: std::io::Error },
    SendDatagram { source: std::io::Error },
    BindUdpSocket { addr: SocketAddress, source: std::io::Error },
    GetLocalAddress { source: std::io::Error },
    ConnectProxyServer { source: std::io::Error },
    ConnectUdpSocket { addr: HostAddress, source: std::io::Error },
    Timeout,
    Shutdown { source: std::io::Error },
    Handshake { source: HandshakeError },
    ConnectForbiddenHost { addr: HostAddress },
    NoProxyServiceProvided,
    DatagramClosed,
    BadSocksReply,
    SerializeDatagram { source: std::io::Error },
}

impl From<HandshakeError> for Error {
    fn from(source: HandshakeError) -> (r: Error) {
        Error::Handshake { source }
    }
}

impl vstd::std_specs::convert::FromSpecImpl<HandshakeError> for Error {
    open spec fn obeys_from_spec() -> bool {
        true
    }

    open spec fn from_spec(source: HandshakeError) -> Error {
        Error::Handshake { source }
    }
}

/// The known text of a client error, and whether a message of the operating
/// system completes it.
pub open spec fn client_error_text(e: Error) -> (Seq<char>, bool) {
    match e {
        Error::RecvDatagram { .. } => ("Could not receive datagram, error: "@, true),
        Error::SendDatagram { .. } => ("Could not send datagram, error: "@, true),
        Error::BindUdpSocket { .. } => ("Could not bind UDP socket, error: "@, true),
        Error::GetLocalAddress { .. } => (
            "Could not get the local address that this socket is bound to, error: "@,
            true,
        ),
        Error::ConnectProxyServer { .. } => ("Could not connect proxy server, error: "@, true),
        Error::ConnectUdpSocket { addr, .. } => (
            "Could not connect UDP socket "@ + host_address_text(addr@) + ", error: "@,
            true,
        ),
        Error::Timeout => ("Connection timed out"@, false),
        Error::Shutdown { .. } => (
            "Error occurred while shutting down connection, error: "@,
            true,
        ),
        Error::Handshake { source } => (
            "Error occurred while handshaking, error: "@ + handshake_error_text(source).0,
            handshake_error_text(source).1,
        ),
        Error::ConnectForbiddenHost { addr } => (
            "Try to connect a forbidden host "@ + host_address_text(addr@),
            false,
        ),
        Error::NoProxyServiceProvided => ("Remote host does not provide proxy service"@, false),
        Error::DatagramClosed => ("Datagram endpoint is closed"@, false),
        Error::BadSocksReply => ("Received bad SOCKS reply"@, false),
        Error::SerializeDatagram { .. } => ("Could not serialize datagram, error: "@, true),
    }
}

fn push_io(out: &mut Vec<char>, prefix: &str, source: &std::io::Error)
    ensures
        appended(old(out)@, final(out)@, prefix@, true),
{
    let ghost start = out@;
    push_str(out, prefix);
    let t = io_error_text(source);
    push_str(out, t.as_str());
    proof {
        lemma_appended_open(start, prefix@, t@);
    }
}

impl Error {
    /// Appends the text of the error.
    pub fn push_text(&self, out: &mut Vec<char>)
        ensures
            appended(old(out)@, final(out)@, client_error_text(*self).0, client_error_text(*self).1),
    {
        let ghost start = out@;
        match self {
            Error::RecvDatagram { source } => push_io(out, "Could not receive datagram, error: ", source),
            Error::SendDatagram { source } => push_io(out, "Could not send datagram, error: ", source),
            Error::BindUdpSocket { source, .. } => push_io(out, "Could not bind UDP socket, error: ", source),
            Error::GetLocalAddress { source } => push_io(
                out,
                "Could not get the local address that this socket is bound to, error: ",
                source,
            ),
            Error::ConnectProxyServer { source } => push_io(
                out,
                "Could not connect proxy server, error: ",
                source,
            ),
            Error::ConnectUdpSocket { addr, source } => {
                push_str(out, "Could not connect UDP socket ");
                let a = addr.to_string();
                push_str(out, a.as_str());
                push_str(out, ", error: ");
                let t = io_error_text(source);
                push_str(out, t.as_str());
                proof {
                    let known = "Could not connect UDP socket "@ + host_address_text(addr@) + ", error: "@;
                    assert(out@ =~= start + known + t@);
                    lemma_appended_open(start, known, t@);
                }
            },
            Error::Timeout => {
                push_str(out, "Connection timed out");
                proof { lemma_appended_exact(start, client_error_text(*self).0); }
            },
            Error::Shutdown { source } => push_io(
                out,
                "Error occurred while shutting down connection, error: ",
                source,
            ),
            Error::Handshake { source } => {
                push_str(out, "Error occurred while handshaking, error: ");
                source.push_text(out);
                proof {
                    lemma_appended_nested(
                        start,
                        "Error occurred while handshaking, error: "@,
                        out@,
                        handshake_error_text(*source).0,
                        handshake_error_text(*source).1,
                    );
                }
            },
            Error::ConnectForbiddenHost { addr } => {
                push_str(out, "Try to connect a forbidden host ");
                let a = addr.to_string();
                push_str(out, a.as_str());
                proof { lemma_appended_exact(start, client_error_text(*self).0); }
                assert(out@ =~= start + client_error_text(*self).0);
            },
            Error::NoProxyServiceProvided => {
                push_str(out, "Remote host does not provide proxy service");
                proof { lemma_appended_exact(start, client_error_text(*self).0); }
            },
            Error::DatagramClosed => {
                push_str(out, "Datagram endpoint is closed");
                proof { lemma_appended_exact(start, client_error_text(*self).0); }
            },
            Error::BadSocksReply => {
                push_str(out, "Received bad SOCKS reply");
                proof { lemma_appended_exact(start, client_error_text(*self).0); }
            },
            Error::SerializeDatagram { source } => push_io(
                out,
                "Could not serialize datagram, error: ",
                source,
            ),
        }
    }

    /// The text of the error.
    pub fn to_string(&self) -> (r: String)
        ensures
            appended(Seq::empty(), r@, client_error_text(*self).0, client_error_text(*self).1),
    {
        let mut out: Vec<char> = Vec::new();
        self.push_text(&mut out);
        string_of(out.as_slice())
    }
}

} // verus!
