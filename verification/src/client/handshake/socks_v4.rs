//! The SOCKS4a handshake: one request, one reply.
use vstd::prelude::*;

use crate::client::handshake::Error;
use crate::common::host_address::HostAddress;
use crate::protocol::socks::{
    socks4_reply, socks4_reply_field, socks4_request, socks4_request_bytes, Socks4ReplyField,
    SocksCommand,
};

verus! {

/// The user id sent: the one given, or none at all.
pub open spec fn id_bytes(id: Option<&[u8]>) -> Seq<u8> {
    match id {
        Some(i) => i@,
        None => Seq::empty(),
    }
}

fn id_vec(id: Option<&[u8]>) -> (r: Vec<u8>)
    ensures
        r@ == id_bytes(id),
{
    let mut v: Vec<u8> = Vec::new();
    if let Some(i) = id {
        crate::protocol::bytes::push_bytes(&mut v, i);
    }
    v
}

/// The request of a SOCKS4a handshake that asks for `command` toward
/// `destination`, with the user id `id`.
pub fn handshake_request(command: SocksCommand, destination: &HostAddress, id: Option<&[u8]>) -> (r:
    Result<Vec<u8>, Error>)
    ensures
        match socks4_request_bytes(command, destination@, id_bytes(id)) {
            Ok(s) => r matches Ok(b) && b@ == s,
            Err(e) => r matches Err(Error::EncodeSocksRequest { source }) && source == e,
        },
{
    let id = id_vec(id);
    match socks4_request(command, destination, id.as_slice()) {
        Ok(b) => Ok(b),
        Err(source) => Err(Error::EncodeSocksRequest { source }),
    }
}

/// The request of a SOCKS4a "connect" handshake.
pub fn tcp_connect_request(destination: &HostAddress, id: Option<&[u8]>) -> (r: Result<
    Vec<u8>,
    Error,
>)
    ensures
        match socks4_request_bytes(SocksCommand::TcpConnect, destination@, id_bytes(id)) {
            Ok(s) => r matches Ok(b) && b@ == s,
            Err(e) => r matches Err(Error::EncodeSocksRequest { source }) && source == e,
        },
{
    handshake_request(SocksCommand::TcpConnect, destination, id)
}

/// The request of a SOCKS4a "bind" handshake.
pub fn tcp_bind_request(destination: &HostAddress, id: Option<&[u8]>) -> (r: Result<
    Vec<u8>,
    Error,
>)
    ensures
        match socks4_request_bytes(SocksCommand::TcpBind, destination@, id_bytes(id)) {
            Ok(s) => r matches Ok(b) && b@ == s,
            Err(e) => r matches Err(Error::EncodeSocksRequest { source }) && source == e,
        },
{
    handshake_request(SocksCommand::TcpBind, destination, id)
}

/// How a SOCKS4a handshake ends on the reply `reply`: granted is success;
/// a refusal, an unreachable host and an invalid user id (with the id that
/// was sent) are errors, as is a reply that cannot be read.
pub fn handshake_outcome(reply: &[u8], id: Option<&[u8]>) -> (r: Result<(), Error>)
    ensures
        match socks4_reply_field(reply@) {
            Err(e) => r matches Err(Error::ParseSocks4Reply { source }) && source == e,
            Ok(Socks4ReplyField::Granted) => r is Ok,
            Ok(Socks4ReplyField::Rejected) => r matches Err(Error::ProxyRejected),
            Ok(Socks4ReplyField::Unreachable) => r matches Err(Error::HostUnreachable),
            Ok(Socks4ReplyField::InvalidId) => r matches Err(Error::InvalidSocks4aId { id: i })
                && i@ == id_bytes(id),
        },
{
    match socks4_reply(reply) {
        Err(source) => Err(Error::ParseSocks4Reply { source }),
        Ok(Socks4ReplyField::Granted) => Ok(()),
        Ok(Socks4ReplyField::Rejected) => Err(Error::ProxyRejected),
        Ok(Socks4ReplyField::Unreachable) => Err(Error::HostUnreachable),
        Ok(Socks4ReplyField::InvalidId) => Err(Error::InvalidSocks4aId { id: id_vec(id) }),
    }
}

} // verus!
