//! The SOCKS4a and SOCKS5 messages that a client sends and receives.
use vstd::prelude::*;
use vstd::utf8::{encode_utf8, valid_utf8};

use crate::common::host_address::{HostAddress, HostAddressView};
use crate::net::{Ipv4Address, Ipv6Address, SocketAddress};
use crate::protocol::bytes::{be_bytes, be_value, push_be, push_byte, push_bytes, read_be};
use crate::text::{dec_text, push_dec, push_str, string_of};

verus! {

/// A version of the SOCKS protocol.
#[derive(Clone, Copy, Debug, PartialEq, Eq, Structural, Hash)]
pub enum SocksVersion {
    V4,
    V5,
}

/// What a SOCKS client asks the server to do.
#[derive(Clone, Copy, Debug, PartialEq, Eq, Structural, Hash)]
pub enum SocksCommand {
    TcpConnect,
    TcpBind,
    UdpAssociate,
}

/// Why a SOCKS message could not be written or read.
#[derive(Clone, Copy, Debug, PartialEq, Eq, Structural)]
pub enum Error {
    /// The message has a version that is not the one expected.
    BadVersion { version: u8 },
    /// The reply carries a code that the protocol does not define.
    BadReplyCode { code: u8 },
    /// The address has a type that the protocol does not define.
    BadAddressType { address_type: u8 },
    /// A domain name in the reply is not UTF-8.
    BadDomainName,
    /// The message is shorter than its fields say.
    Incomplete,
    /// The destination cannot be written in this version of the protocol.
    AddressNotSupported,
    /// A name or a list is longer than one length byte can count.
    FieldTooLong,
}

/// The text of a SOCKS error.
pub open spec fn socks_error_text(e: Error) -> Seq<char> {
    match e {
        Error::BadVersion { version } => "Invalid SOCKS version: "@ + dec_text(version as nat),
        Error::BadReplyCode { code } => "Invalid SOCKS reply code: "@ + dec_text(code as nat),
        Error::BadAddressType { address_type } => "Invalid SOCKS address type: "@ + dec_text(
            address_type as nat,
        ),
        Error::BadDomainName => "Domain name is not UTF-8"@,
        Error::Incomplete => "SOCKS message is incomplete"@,
        Error::AddressNotSupported => "Address is not supported by this SOCKS version"@,
        Error::FieldTooLong => "Field is longer than 255 bytes"@,
    }
}

impl Error {
    /// Appends the text of the error.
    pub fn push_text(&self, out: &mut Vec<char>)
        ensures
            final(out)@ == old(out)@ + socks_error_text(*self),
    {
        match self {
            Error::BadVersion { version } => {
                push_str(out, "Invalid SOCKS version: ");
                push_dec(out, *version as u32);
            },
            Error::BadReplyCode { code } => {
                push_str(out, "Invalid SOCKS reply code: ");
                push_dec(out, *code as u32);
            },
            Error::BadAddressType { address_type } => {
                push_str(out, "Invalid SOCKS address type: ");
                push_dec(out, *address_type as u32);
            },
            Error::BadDomainName => push_str(out, "Domain name is not UTF-8"),
            Error::Incomplete => push_str(out, "SOCKS message is incomplete"),
            Error::AddressNotSupported => push_str(
                out,
                "Address is not supported by this SOCKS version",
            ),
            Error::FieldTooLong => push_str(out, "Field is longer than 255 bytes"),
        }
        assert(out@ =~= old(out)@ + socks_error_text(*self));
    }

    /// The text of the error.
    pub fn to_string(&self) -> (r: String)
        ensures
            r@ == socks_error_text(*self),
    {
        let mut out: Vec<char> = Vec::new();
        self.push_text(&mut out);
        assert(out@ =~= socks_error_text(*self));
        string_of(out.as_slice())
    }
}

/// The code of a command in a request.
pub open spec fn command_code(c: SocksCommand) -> u8 {
    match c {
        SocksCommand::TcpConnect => 1,
        SocksCommand::TcpBind => 2,
        SocksCommand::UdpAssociate => 3,
    }
}

fn command_code_exec(c: SocksCommand) -> (r: u8)
    ensures
        r == command_code(c),
{
    match c {
        SocksCommand::TcpConnect => 1,
        SocksCommand::TcpBind => 2,
        SocksCommand::UdpAssociate => 3,
    }
}

/// The four bytes of an IPv4 address.
pub open spec fn ipv4_bytes(ip: Ipv4Address) -> Seq<u8> {
    seq![ip.0, ip.1, ip.2, ip.3]
}

/// The sixteen bytes of an IPv6 address, segment by segment.
pub open spec fn ipv6_bytes(ip: Ipv6Address) -> Seq<u8> {
    be_bytes(ip.0) + be_bytes(ip.1) + be_bytes(ip.2) + be_bytes(ip.3) + be_bytes(ip.4) + be_bytes(
        ip.5,
    ) + be_bytes(ip.6) + be_bytes(ip.7)
}

fn push_ipv6(out: &mut Vec<u8>, ip: Ipv6Address)
    ensures
        final(out)@ == old(out)@ + ipv6_bytes(ip),
{
    push_be(out, ip.0);
    push_be(out, ip.1);
    push_be(out, ip.2);
    push_be(out, ip.3);
    push_be(out, ip.4);
    push_be(out, ip.5);
    push_be(out, ip.6);
    push_be(out, ip.7);
    assert(out@ =~= old(out)@ + ipv6_bytes(ip));
}

// ---------------------------------------------------------------- SOCKS4a
/// The server's answer to a SOCKS4a request.
#[derive(Clone, Copy, Debug, PartialEq, Eq, Structural)]
pub enum Socks4ReplyField {
    Granted,
    Rejected,
    Unreachable,
    InvalidId,
}

/// The length of a SOCKS4a reply.
pub const SOCKS4_REPLY_LEN: usize = 8;

/// A SOCKS4a request: version 4, the command, the port, the IPv4 address
/// (0.0.0.1 where a domain name follows), the user id and a zero byte, then
/// for a domain name its UTF-8 bytes and a zero byte. A SOCKS4a request
/// cannot carry an IPv6 address, nor the command `UdpAssociate`.
pub open spec fn socks4_request_bytes(command: SocksCommand, dest: HostAddressView, id: Seq<u8>) -> Result<
    Seq<u8>,
    Error,
> {
    if command is UdpAssociate {
        Err(Error::AddressNotSupported)
    } else {
        match dest {
            HostAddressView::Socket(SocketAddress::V4 { ip, port }) => Ok(
                seq![4u8, command_code(command)] + be_bytes(port) + ipv4_bytes(ip) + id + seq![0u8],
            ),
            HostAddressView::Socket(SocketAddress::V6 { .. }) => Err(Error::AddressNotSupported),
            HostAddressView::DomainName(host, port) => Ok(
                seq![4u8, command_code(command)] + be_bytes(port) + seq![0u8, 0u8, 0u8, 1u8] + id
                    + seq![0u8] + encode_utf8(host) + seq![0u8],
            ),
        }
    }
}

/// Writes a SOCKS4a request.
pub fn socks4_request(command: SocksCommand, dest: &HostAddress, id: &[u8]) -> (r: Result<
    Vec<u8>,
    Error,
>)
    ensures
        match (r, socks4_request_bytes(command, dest@, id@)) {
            (Ok(b), Ok(s)) => b@ == s,
            (Err(e), Err(f)) => e == f,
            _ => false,
        },
{
    if let SocksCommand::UdpAssociate = command {
        return Err(Error::AddressNotSupported);
    }
    let mut out: Vec<u8> = Vec::new();
    push_byte(&mut out, 4);
    push_byte(&mut out, command_code_exec(command));
    match dest {
        HostAddress::Socket(SocketAddress::V4 { ip, port }) => {
            push_be(&mut out, *port);
            push_byte(&mut out, ip.0);
            push_byte(&mut out, ip.1);
            push_byte(&mut out, ip.2);
            push_byte(&mut out, ip.3);
            push_bytes(&mut out, id);
            push_byte(&mut out, 0);
            assert(out@ =~= seq![4u8, command_code(command)] + be_bytes(*port) + ipv4_bytes(*ip)
                + id@ + seq![0u8]);
            Ok(out)
        },
        HostAddress::Socket(SocketAddress::V6 { .. }) => Err(Error::AddressNotSupported),
        HostAddress::DomainName(host, port) => {
            push_be(&mut out, *port);
            push_byte(&mut out, 0);
            push_byte(&mut out, 0);
            push_byte(&mut out, 0);
            push_byte(&mut out, 1);
            push_bytes(&mut out, id);
            push_byte(&mut out, 0);
            push_bytes(&mut out, host.as_str().as_bytes());
            push_byte(&mut out, 0);
            assert(out@ =~= seq![4u8, command_code(command)] + be_bytes(*port) + seq![
                0u8,
                0u8,
                0u8,
                1u8,
            ] + id@ + seq![0u8] + encode_utf8(host@) + seq![0u8]);
            Ok(out)
        },
    }
}

/// What the eight bytes of a SOCKS4a reply say: version 0, then the code
/// 90 (granted), 91 (rejected), 92 (unreachable) or 93 (invalid user id).
pub open spec fn socks4_reply_field(bytes: Seq<u8>) -> Result<Socks4ReplyField, Error> {
    if bytes.len() < 8 {
        Err(Error::Incomplete)
    } else if bytes[0] != 0 {
        Err(Error::BadVersion { version: bytes[0] })
    } else if bytes[1] == 90 {
        Ok(Socks4ReplyField::Granted)
    } else if bytes[1] == 91 {
        Ok(Socks4ReplyField::Rejected)
    } else if bytes[1] == 92 {
        Ok(Socks4ReplyField::Unreachable)
    } else if bytes[1] == 93 {
        Ok(Socks4ReplyField::InvalidId)
    } else {
        Err(Error::BadReplyCode { code: bytes[1] })
    }
}

/// Reads a SOCKS4a reply.
pub fn socks4_reply(bytes: &[u8]) -> (r: Result<Socks4ReplyField, Error>)
    ensures
        r == socks4_reply_field(bytes@),
{
    if bytes.len() < SOCKS4_REPLY_LEN {
        Err(Error::Incomplete)
    } else if bytes[0] != 0 {
        Err(Error::BadVersion { version: bytes[0] })
    } else if bytes[1] == 90 {
        Ok(Socks4ReplyField::Granted)
    } else if bytes[1] == 91 {
        Ok(Socks4ReplyField::Rejected)
    } else if bytes[1] == 92 {
        Ok(Socks4ReplyField::Unreachable)
    } else if bytes[1] == 93 {
        Ok(Socks4ReplyField::InvalidId)
    } else {
        Err(Error::BadReplyCode { code: bytes[1] })
    }
}

// ---------------------------------------------------------------- SOCKS5
/// A way for a SOCKS5 client to authenticate.
#[derive(Clone, Copy, Debug, PartialEq, Eq, Structural, Hash)]
pub enum Socks5Method {
    NoAuthentication,
    Gssapi,
    UsernamePassword,
    NotAcceptable,
    Other(u8),
}

/// The text of a method.
pub open spec fn method_text(m: Socks5Method) -> Seq<char> {
    match m {
        Socks5Method::NoAuthentication => "No authentication"@,
        Socks5Method::Gssapi => "GSSAPI"@,
        Socks5Method::UsernamePassword => "Username/password"@,
        Socks5Method::NotAcceptable => "No acceptable method"@,
        Socks5Method::Other(c) => "Method "@ + dec_text(c as nat),
    }
}

impl Socks5Method {
    /// Appends the text of the method.
    pub fn push_text(&self, out: &mut Vec<char>)
        ensures
            final(out)@ == old(out)@ + method_text(*self),
    {
        match self {
            Socks5Method::NoAuthentication => push_str(out, "No authentication"),
            Socks5Method::Gssapi => push_str(out, "GSSAPI"),
            Socks5Method::UsernamePassword => push_str(out, "Username/password"),
            Socks5Method::NotAcceptable => push_str(out, "No acceptable method"),
            Socks5Method::Other(c) => {
                push_str(out, "Method ");
                push_dec(out, *c as u32);
            },
        }
        assert(out@ =~= old(out)@ + method_text(*self));
    }
}

/// The code of a method.
pub open spec fn method_code(m: Socks5Method) -> u8 {
    match m {
        Socks5Method::NoAuthentication => 0,
        Socks5Method::Gssapi => 1,
        Socks5Method::UsernamePassword => 2,
        Socks5Method::NotAcceptable => 0xff,
        Socks5Method::Other(c) => c,
    }
}

/// The method that a code names.
pub open spec fn method_of(code: u8) -> Socks5Method {
    if code == 0 {
        Socks5Method::NoAuthentication
    } else if code == 1 {
        Socks5Method::Gssapi
    } else if code == 2 {
        Socks5Method::UsernamePassword
    } else if code == 0xff {
        Socks5Method::NotAcceptable
    } else {
        Socks5Method::Other(code)
    }
}

fn method_code_exec(m: Socks5Method) -> (r: u8)
    ensures
        r == method_code(m),
{
    match m {
        Socks5Method::NoAuthentication => 0,
        Socks5Method::Gssapi => 1,
        Socks5Method::UsernamePassword => 2,
        Socks5Method::NotAcceptable => 0xff,
        Socks5Method::Other(c) => c,
    }
}

fn method_of_exec(code: u8) -> (r: Socks5Method)
    ensures
        r == method_of(code),
{
    if code == 0 {
        Socks5Method::NoAuthentication
    } else if code == 1 {
        Socks5Method::Gssapi
    } else if code == 2 {
        Socks5Method::UsernamePassword
    } else if code == 0xff {
        Socks5Method::NotAcceptable
    } else {
        Socks5Method::Other(code)
    }
}

/// The codes of a list of methods.
pub open spec fn method_codes(methods: Seq<Socks5Method>) -> Seq<u8> {
    methods.map_values(|m: Socks5Method| method_code(m))
}

/// The greeting: version 5, the number of methods, their codes.
pub open spec fn socks5_greeting_bytes(methods: Seq<Socks5Method>) -> Result<Seq<u8>, Error> {
    if methods.len() > 255 {
        Err(Error::FieldTooLong)
    } else {
        Ok(seq![5u8, methods.len() as u8] + method_codes(methods))
    }
}

/// Writes the greeting that offers `methods`.
pub fn socks5_greeting(methods: &[Socks5Method]) -> (r: Result<Vec<u8>, Error>)
    ensures
        match (r, socks5_greeting_bytes(methods@)) {
            (Ok(b), Ok(s)) => b@ == s,
            (Err(e), Err(f)) => e == f,
            _ => false,
        },
{
    if methods.len() > 255 {
        return Err(Error::FieldTooLong);
    }
    let mut out: Vec<u8> = Vec::new();
    push_byte(&mut out, 5);
    push_byte(&mut out, methods.len() as u8);
    let mut i: usize = 0;
    while i < methods.len()
        invariant
            i <= methods@.len() <= 255,
            out@ == seq![5u8, methods@.len() as u8] + method_codes(methods@.take(i as int)),
        decreases methods@.len() - i,
    {
        push_byte(&mut out, method_code_exec(methods[i]));
        i = i + 1;
        assert(method_codes(methods@.take(i as int)) =~= method_codes(
            methods@.take(i - 1 as int),
        ).push(method_code(methods@[i - 1])));
        assert(out@ =~= seq![5u8, methods@.len() as u8] + method_codes(methods@.take(i as int)));
    }
    assert(methods@.take(methods@.len() as int) =~= methods@);
    Ok(out)
}

/// Writes the greeting that offers one method.
pub fn socks5_greeting_one(method: Socks5Method) -> (r: Vec<u8>)
    ensures
        socks5_greeting_bytes(seq![method]) == Ok::<Seq<u8>, Error>(r@),
{
    let mut out: Vec<u8> = Vec::new();
    push_byte(&mut out, 5);
    push_byte(&mut out, 1);
    push_byte(&mut out, method_code_exec(method));
    assert(method_codes(seq![method]) =~= seq![method_code(method)]);
    assert(out@ =~= seq![5u8, 1u8] + method_codes(seq![method]));
    out
}

/// The length of the server's choice of method.
pub const SOCKS5_METHOD_REPLY_LEN: usize = 2;

/// The method that the server chose: version 5, then its code.
pub open spec fn socks5_chosen_method(bytes: Seq<u8>) -> Result<Socks5Method, Error> {
    if bytes.len() < 2 {
        Err(Error::Incomplete)
    } else if bytes[0] != 5 {
        Err(Error::BadVersion { version: bytes[0] })
    } else {
        Ok(method_of(bytes[1]))
    }
}

/// Reads the server's choice of method.
pub fn socks5_method_reply(bytes: &[u8]) -> (r: Result<Socks5Method, Error>)
    ensures
        r == socks5_chosen_method(bytes@),
{
    if bytes.len() < SOCKS5_METHOD_REPLY_LEN {
        Err(Error::Incomplete)
    } else if bytes[0] != 5 {
        Err(Error::BadVersion { version: bytes[0] })
    } else {
        Ok(method_of_exec(bytes[1]))
    }
}

/// The user name and password sub-negotiation (version 1): each field
/// after its length byte.
pub open spec fn socks5_credentials_bytes(user_name: Seq<u8>, password: Seq<u8>) -> Result<
    Seq<u8>,
    Error,
> {
    if user_name.len() > 255 || password.len() > 255 {
        Err(Error::FieldTooLong)
    } else {
        Ok(
            seq![1u8, user_name.len() as u8] + user_name + seq![password.len() as u8]
                + password,
        )
    }
}

/// Writes the user name and password.
pub fn socks5_credentials(user_name: &[u8], password: &[u8]) -> (r: Result<Vec<u8>, Error>)
    ensures
        match (r, socks5_credentials_bytes(user_name@, password@)) {
            (Ok(b), Ok(s)) => b@ == s,
            (Err(e), Err(f)) => e == f,
            _ => false,
        },
{
    if user_name.len() > 255 || password.len() > 255 {
        return Err(Error::FieldTooLong);
    }
    let mut out: Vec<u8> = Vec::new();
    push_byte(&mut out, 1);
    push_byte(&mut out, user_name.len() as u8);
    push_bytes(&mut out, user_name);
    push_byte(&mut out, password.len() as u8);
    push_bytes(&mut out, password);
    assert(out@ =~= seq![1u8, user_name@.len() as u8] + user_name@ + seq![
        password@.len() as u8,
    ] + password@);
    Ok(out)
}

/// The length of the answer to the user name and password.
pub const SOCKS5_CREDENTIALS_REPLY_LEN: usize = 2;

/// Whether the server accepted the user name and password: version 1, then
/// status 0.
pub open spec fn socks5_credentials_accepted(bytes: Seq<u8>) -> Result<bool, Error> {
    if bytes.len() < 2 {
        Err(Error::Incomplete)
    } else if bytes[0] != 1 {
        Err(Error::BadVersion { version: bytes[0] })
    } else {
        Ok(bytes[1] == 0)
    }
}

/// Reads the answer to the user name and password.
pub fn socks5_credentials_reply(bytes: &[u8]) -> (r: Result<bool, Error>)
    ensures
        r == socks5_credentials_accepted(bytes@),
{
    if bytes.len() < SOCKS5_CREDENTIALS_REPLY_LEN {
        Err(Error::Incomplete)
    } else if bytes[0] != 1 {
        Err(Error::BadVersion { version: bytes[0] })
    } else {
        Ok(bytes[1] == 0)
    }
}

/// An address as SOCKS5 writes it: its type (1 for IPv4, 3 for a domain
/// name, 4 for IPv6), the address (a domain name after its length byte),
/// then the port.
pub open spec fn socks5_address_bytes(a: HostAddressView) -> Result<Seq<u8>, Error> {
    match a {
        HostAddressView::Socket(SocketAddress::V4 { ip, port }) => Ok(
            seq![1u8] + ipv4_bytes(ip) + be_bytes(port),
        ),
        HostAddressView::Socket(SocketAddress::V6 { ip, port, .. }) => Ok(
            seq![4u8] + ipv6_bytes(ip) + be_bytes(port),
        ),
        HostAddressView::DomainName(host, port) => if encode_utf8(host).len() > 255 {
            Err(Error::FieldTooLong)
        } else {
            Ok(seq![3u8, encode_utf8(host).len() as u8] + encode_utf8(host) + be_bytes(port))
        },
    }
}

fn push_address(out: &mut Vec<u8>, a: &HostAddress) -> (r: Result<(), Error>)
    ensures
        match (r, socks5_address_bytes(a@)) {
            (Ok(_), Ok(s)) => final(out)@ == old(out)@ + s,
            (Err(e), Err(f)) => e == f,
            _ => false,
        },
{
    match a {
        HostAddress::Socket(SocketAddress::V4 { ip, port }) => {
            push_byte(out, 1);
            push_byte(out, ip.0);
            push_byte(out, ip.1);
            push_byte(out, ip.2);
            push_byte(out, ip.3);
            push_be(out, *port);
            assert(out@ =~= old(out)@ + (seq![1u8] + ipv4_bytes(*ip) + be_bytes(*port)));
            Ok(())
        },
        HostAddress::Socket(SocketAddress::V6 { ip, port, .. }) => {
            push_byte(out, 4);
            push_ipv6(out, *ip);
            push_be(out, *port);
            assert(out@ =~= old(out)@ + (seq![4u8] + ipv6_bytes(*ip) + be_bytes(*port)));
            Ok(())
        },
        HostAddress::DomainName(host, port) => {
            let b = host.as_str().as_bytes();
            if b.len() > 255 {
                return Err(Error::FieldTooLong);
            }
            push_byte(out, 3);
            push_byte(out, b.len() as u8);
            push_bytes(out, b);
            push_be(out, *port);
            assert(out@ =~= old(out)@ + (seq![3u8, b@.len() as u8] + b@ + be_bytes(*port)));
            Ok(())
        },
    }
}

/// A SOCKS5 request: version 5, the command, a reserved zero byte, then the
/// destination.
pub open spec fn socks5_request_bytes(command: SocksCommand, dest: HostAddressView) -> Result<
    Seq<u8>,
    Error,
> {
    match socks5_address_bytes(dest) {
        Ok(a) => Ok(seq![5u8, command_code(command), 0u8] + a),
        Err(e) => Err(e),
    }
}

/// Writes a SOCKS5 request.
pub fn socks5_request(command: SocksCommand, dest: &HostAddress) -> (r: Result<Vec<u8>, Error>)
    ensures
        match (r, socks5_request_bytes(command, dest@)) {
            (Ok(b), Ok(s)) => b@ == s,
            (Err(e), Err(f)) => e == f,
            _ => false,
        },
{
    let mut out: Vec<u8> = Vec::new();
    push_byte(&mut out, 5);
    push_byte(&mut out, command_code_exec(command));
    push_byte(&mut out, 0);
    let ghost head = out@;
    match push_address(&mut out, dest) {
        Ok(()) => {
            assert(head =~= seq![5u8, command_code(command), 0u8]);
            Ok(out)
        },
        Err(e) => Err(e),
    }
}

/// The number of bytes of the first part of a SOCKS5 reply from which its
/// whole length follows.
pub const SOCKS5_REPLY_HEAD_LEN: usize = 5;

/// The whole length of a SOCKS5 reply whose first five bytes are `head`:
/// four bytes, the address (4 bytes for IPv4, 16 for IPv6, a length byte and
/// that many for a domain name) and two for the port.
pub open spec fn socks5_reply_length(head: Seq<u8>) -> Result<nat, Error> {
    if head.len() < 5 {
        Err(Error::Incomplete)
    } else if head[0] != 5 {
        Err(Error::BadVersion { version: head[0] })
    } else if head[3] == 1 {
        Ok(10)
    } else if head[3] == 4 {
        Ok(22)
    } else if head[3] == 3 {
        Ok(7 + head[4] as nat)
    } else {
        Err(Error::BadAddressType { address_type: head[3] })
    }
}

/// How long the SOCKS5 reply that begins with `head` is.
pub fn socks5_reply_len(head: &[u8]) -> (r: Result<usize, Error>)
    ensures
        match (r, socks5_reply_length(head@)) {
            (Ok(n), Ok(m)) => n == m,
            (Err(e), Err(f)) => e == f,
            _ => false,
        },
{
    if head.len() < SOCKS5_REPLY_HEAD_LEN {
        Err(Error::Incomplete)
    } else if head[0] != 5 {
        Err(Error::BadVersion { version: head[0] })
    } else if head[3] == 1 {
        Ok(10)
    } else if head[3] == 4 {
        Ok(22)
    } else if head[3] == 3 {
        Ok(7 + head[4] as usize)
    } else {
        Err(Error::BadAddressType { address_type: head[3] })
    }
}

/// The text of a domain name that a reply carries.
#[verifier::external_body]
fn utf8_text(bytes: &[u8]) -> (r: Option<String>)
    ensures
        r is Some <==> valid_utf8(bytes@),
        r matches Some(s) ==> encode_utf8(s@) == bytes@,
{
    std::str::from_utf8(bytes).ok().map(str::to_owned)
}

/// What a whole SOCKS5 reply says: whether the server succeeded (code 0),
/// the code, and the address it bound.
pub open spec fn socks5_reply_fields(bytes: Seq<u8>) -> Result<(u8, HostAddressView), Error> {
    match socks5_reply_length(bytes) {
        Err(e) => Err(e),
        Ok(n) => if bytes.len() < n {
            Err(Error::Incomplete)
        } else {
            let port = be_value(bytes[n - 2], bytes[n - 1]);
            if bytes[3] == 1 {
                Ok(
                    (
                        bytes[1],
                        HostAddressView::Socket(
                            SocketAddress::V4 {
                                ip: Ipv4Address(bytes[4], bytes[5], bytes[6], bytes[7]),
                                port,
                            },
                        ),
                    ),
                )
            } else if bytes[3] == 4 {
                Ok(
                    (
                        bytes[1],
                        HostAddressView::Socket(
                            SocketAddress::V6 {
                                ip: Ipv6Address(
                                    be_value(bytes[4], bytes[5]),
                                    be_value(bytes[6], bytes[7]),
                                    be_value(bytes[8], bytes[9]),
                                    be_value(bytes[10], bytes[11]),
                                    be_value(bytes[12], bytes[13]),
                                    be_value(bytes[14], bytes[15]),
                                    be_value(bytes[16], bytes[17]),
                                    be_value(bytes[18], bytes[19]),
                                ),
                                port,
                                flowinfo: 0,
                                scope_id: 0,
                            },
                        ),
                    ),
                )
            } else {
                let name = bytes.subrange(5, n - 2);
                if valid_utf8(name) {
                    Ok(
                        (
                            bytes[1],
                            HostAddressView::DomainName(
                                choose|s: Seq<char>| encode_utf8(s) == name,
                                port,
                            ),
                        ),
                    )
                } else {
                    Err(Error::BadDomainName)
                }
            }
        },
    }
}

/// Reads a whole SOCKS5 reply: its code and the address the server bound.
pub fn socks5_reply(bytes: &[u8]) -> (r: Result<(u8, HostAddress), Error>)
    ensures
        match (r, socks5_reply_fields(bytes@)) {
            (Ok((c, a)), Ok((d, b))) => c == d && a@ == b,
            (Err(e), Err(f)) => e == f,
            _ => false,
        },
{
    let n = match socks5_reply_len(bytes) {
        Ok(n) => n,
        Err(e) => return Err(e),
    };
    if bytes.len() < n {
        return Err(Error::Incomplete);
    }
    let port = read_be(bytes[n - 2], bytes[n - 1]);
    let code = bytes[1];
    if bytes[3] == 1 {
        let ip = Ipv4Address(bytes[4], bytes[5], bytes[6], bytes[7]);
        Ok((code, HostAddress::Socket(SocketAddress::V4 { ip, port })))
    } else if bytes[3] == 4 {
        let ip = Ipv6Address(
            read_be(bytes[4], bytes[5]),
            read_be(bytes[6], bytes[7]),
            read_be(bytes[8], bytes[9]),
            read_be(bytes[10], bytes[11]),
            read_be(bytes[12], bytes[13]),
            read_be(bytes[14], bytes[15]),
            read_be(bytes[16], bytes[17]),
            read_be(bytes[18], bytes[19]),
        );
        Ok((code, HostAddress::Socket(SocketAddress::V6 { ip, port, flowinfo: 0, scope_id: 0 })))
    } else {
        let mut name: Vec<u8> = Vec::new();
        let mut i: usize = 5;
        while i < n - 2
            invariant
                5 <= i <= n - 2,
                n <= bytes@.len(),
                name@ == bytes@.subrange(5, i as int),
            decreases n - 2 - i,
        {
            name.push(bytes[i]);
            i = i + 1;
            assert(name@ =~= bytes@.subrange(5, i as int));
        }
        match utf8_text(name.as_slice()) {
            Some(s) => {
                proof {
                    vstd::utf8::encode_utf8_decode_utf8(s@);
                    let name_seq = bytes@.subrange(5, n - 2);
                    let c = choose|t: Seq<char>| encode_utf8(t) == name_seq;
                    assert(encode_utf8(c) == name_seq);
                    vstd::utf8::encode_utf8_decode_utf8(c);
                }
                Ok((code, HostAddress::DomainName(s, port)))
            },
            None => Err(Error::BadDomainName),
        }
    }
}

} // verus!

verus! {

/// A SOCKS5 reply read back gives the code and the address written in it
/// (an IPv6 address read back has no flow information or scope).
#[verifier::rlimit(40)]
pub proof fn law_socks5_reply_round_trip(code: u8, a: HostAddressView)
    requires
        socks5_address_bytes(a) is Ok,
        a matches HostAddressView::Socket(SocketAddress::V6 { flowinfo, scope_id, .. })
            ==> flowinfo == 0 && scope_id == 0,
    ensures
        match socks5_address_bytes(a) {
            Ok(addr) => socks5_reply_fields(seq![5u8, code, 0u8] + addr) == Ok::<
                (u8, HostAddressView),
                Error,
            >((code, a)),
            Err(_) => false,
        },
{
    let addr = socks5_address_bytes(a)->Ok_0;
    let bytes = seq![5u8, code, 0u8] + addr;
    match a {
        HostAddressView::Socket(SocketAddress::V4 { ip, port }) => {
            crate::protocol::bytes::lemma_be_round_trip(port);
            assert(bytes.len() == 10);
            assert(bytes[8] == be_bytes(port)[0] && bytes[9] == be_bytes(port)[1]);
            assert(socks5_reply_length(bytes) == Ok::<nat, Error>(10));
        },
        HostAddressView::Socket(SocketAddress::V6 { ip, port, .. }) => {
            crate::protocol::bytes::lemma_be_round_trip(port);
            crate::protocol::bytes::lemma_be_round_trip(ip.0);
            crate::protocol::bytes::lemma_be_round_trip(ip.1);
            crate::protocol::bytes::lemma_be_round_trip(ip.2);
            crate::protocol::bytes::lemma_be_round_trip(ip.3);
            crate::protocol::bytes::lemma_be_round_trip(ip.4);
            crate::protocol::bytes::lemma_be_round_trip(ip.5);
            crate::protocol::bytes::lemma_be_round_trip(ip.6);
            crate::protocol::bytes::lemma_be_round_trip(ip.7);
            assert(bytes.len() == 22);
            assert(socks5_reply_length(bytes) == Ok::<nat, Error>(22));
            assert(bytes[20] == be_bytes(port)[0] && bytes[21] == be_bytes(port)[1]);
            assert(bytes[4] == be_bytes(ip.0)[0] && bytes[5] == be_bytes(ip.0)[1]);
            assert(bytes[6] == be_bytes(ip.1)[0] && bytes[7] == be_bytes(ip.1)[1]);
            assert(bytes[8] == be_bytes(ip.2)[0] && bytes[9] == be_bytes(ip.2)[1]);
            assert(bytes[10] == be_bytes(ip.3)[0] && bytes[11] == be_bytes(ip.3)[1]);
            assert(bytes[12] == be_bytes(ip.4)[0] && bytes[13] == be_bytes(ip.4)[1]);
            assert(bytes[14] == be_bytes(ip.5)[0] && bytes[15] == be_bytes(ip.5)[1]);
            assert(bytes[16] == be_bytes(ip.6)[0] && bytes[17] == be_bytes(ip.6)[1]);
            assert(bytes[18] == be_bytes(ip.7)[0] && bytes[19] == be_bytes(ip.7)[1]);
        },
        HostAddressView::DomainName(host, port) => {
            let enc = encode_utf8(host);
            crate::protocol::bytes::lemma_be_round_trip(port);
            let n = 7 + enc.len();
            assert(bytes.len() == n);
            assert(bytes[4] == enc.len() as u8);
            assert(socks5_reply_length(bytes) == Ok::<nat, Error>(n as nat));
            assert(bytes[n - 2] == be_bytes(port)[0] && bytes[n - 1] == be_bytes(port)[1]);
            let name = bytes.subrange(5, n - 2);
            assert(name =~= enc);
            vstd::utf8::encode_utf8_valid_utf8(host);
            let c = choose|s: Seq<char>| encode_utf8(s) == name;
            assert(encode_utf8(c) == name);
            vstd::utf8::encode_utf8_decode_utf8(c);
            vstd::utf8::encode_utf8_decode_utf8(host);
            assert(c == host);
        },
    }
}

/// The command byte of a request: 1 for connect, 2 for bind, 3 for UDP
/// associate (RFC 1928, and the SOCKS4 protocol for the first two).
pub open spec fn rfc_command_byte(c: SocksCommand) -> u8 {
    if c is TcpConnect {
        1
    } else if c is TcpBind {
        2
    } else {
        3
    }
}

/// A SOCKS4a request starts with version 4, the command byte and the port
/// most significant byte first; then come the four address bytes (0.0.0.1
/// for a domain name), the given user id whatever the destination, and a
/// zero byte; a domain name then follows as its UTF-8 bytes and a zero
/// byte, while an IPv4 request ends there. Connect and bind to an IPv4
/// socket or a domain name are always written.
pub proof fn law_socks4_request_layout(command: SocksCommand, dest: HostAddressView, id: Seq<u8>)
    ensures
        !(command is UdpAssociate) && !(dest matches HostAddressView::Socket(
            SocketAddress::V6 { .. },
        )) ==> socks4_request_bytes(command, dest, id) is Ok,
        socks4_request_bytes(command, dest, id) matches Ok(b) ==> {
            &&& b.len() >= 9 + id.len()
            &&& b[0] == 4u8
            &&& b[1] == rfc_command_byte(command)
            &&& b.subrange(8, 8 + id.len() as int) == id
            &&& b[8 + id.len() as int] == 0u8
            &&& match dest {
                HostAddressView::Socket(SocketAddress::V4 { ip, port }) => {
                    &&& b.len() == 9 + id.len()
                    &&& b[2] as int * 256 + b[3] as int == port as int
                    &&& b[4] == ip.0 && b[5] == ip.1 && b[6] == ip.2 && b[7] == ip.3
                },
                HostAddressView::DomainName(host, port) => {
                    &&& b.len() == 10 + id.len() + encode_utf8(host).len()
                    &&& b[2] as int * 256 + b[3] as int == port as int
                    &&& b[4] == 0u8 && b[5] == 0u8 && b[6] == 0u8 && b[7] == 1u8
                    &&& b.subrange(9 + id.len() as int, b.len() - 1) == encode_utf8(host)
                    &&& b[b.len() - 1] == 0u8
                },
                _ => false,
            }
        },
{
    if let Ok(b) = socks4_request_bytes(command, dest, id) {
        match dest {
            HostAddressView::Socket(SocketAddress::V4 { ip, port }) => {
                assert(b.subrange(8, 8 + id.len() as int) =~= id);
                assert((port / 256) as u8 as int * 256 + (port % 256) as u8 as int == port as int);
            },
            HostAddressView::DomainName(host, port) => {
                assert(b.subrange(8, 8 + id.len() as int) =~= id);
                assert(b.subrange(9 + id.len() as int, b.len() - 1) =~= encode_utf8(host));
                assert((port / 256) as u8 as int * 256 + (port % 256) as u8 as int == port as int);
            },
            _ => {},
        }
    }
}

/// A SOCKS5 request starts with version 5, the command byte (1 connect,
/// 2 bind, 3 UDP associate) and a reserved zero; two requests for the same
/// destination with different commands differ in their command byte.
pub proof fn law_socks5_request_command(c1: SocksCommand, c2: SocksCommand, dest: HostAddressView)
    ensures
        socks5_request_bytes(c1, dest) matches Ok(b) ==> b.len() > 3 && b[0] == 5u8 && b[1]
            == rfc_command_byte(c1) && b[2] == 0u8,
        c1 != c2 ==> match (socks5_request_bytes(c1, dest), socks5_request_bytes(c2, dest)) {
            (Ok(b1), Ok(b2)) => b1[1] != b2[1],
            (Err(e1), Err(e2)) => e1 == e2,
            _ => false,
        },
{
}

} // verus!
