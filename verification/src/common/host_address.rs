//! A host to connect to: a socket address, or a domain name and a port.
use vstd::prelude::*;

use crate::net::{
    ip_text, parse_ip, parse_ip_text, parse_socket, parse_socket_text, socket_of, socket_text,
    with_port, push_socket, IpAddress, Ipv4Address, Ipv6Address, SocketAddress,
};
use crate::text::{
    chars_of, dec_text, parse_u16, parse_u16_text, push_all, push_dec, split_chars,
    split_on, string_of, IntErrorKind,
};

verus! {

/// A host to connect to.
#[derive(Debug, PartialEq, Eq, Hash)]
pub enum HostAddress {
    Socket(SocketAddress),
    DomainName(String, u16),
}

/// The value of a [`HostAddress`].
pub enum HostAddressView {
    Socket(SocketAddress),
    DomainName(Seq<char>, u16),
}

impl View for HostAddress {
    type V = HostAddressView;

    open spec fn view(&self) -> HostAddressView {
        match self {
            HostAddress::Socket(a) => HostAddressView::Socket(*a),
            HostAddress::DomainName(h, p) => HostAddressView::DomainName(h@, *p),
        }
    }
}

impl Clone for HostAddress {
    fn clone(&self) -> (r: HostAddress)
        ensures
            r@ == self@,
    {
        match self {
            HostAddress::Socket(a) => HostAddress::Socket(*a),
            HostAddress::DomainName(h, p) => HostAddress::DomainName(h.clone(), *p),
        }
    }
}

/// Why a text is not a host address.
#[derive(Debug)]
pub enum HostAddressError {
    ParseIpAddress { addr: String },
    ParsePortNumber { source: IntErrorKind },
    InvalidFormat { addr: String },
}

pub enum HostAddressErrorView {
    ParseIpAddress { addr: Seq<char> },
    ParsePortNumber { source: IntErrorKind },
    InvalidFormat { addr: Seq<char> },
}

/// The text of an error of reading a number (as `std::num::ParseIntError`
/// shows it).
pub open spec fn int_error_text(e: IntErrorKind) -> Seq<char> {
    match e {
        IntErrorKind::Empty => "cannot parse integer from empty string"@,
        IntErrorKind::InvalidDigit => "invalid digit found in string"@,
        IntErrorKind::PosOverflow => "number too large to fit in target type"@,
    }
}

/// The text of an error of reading a host address.
pub open spec fn host_address_error_text(e: HostAddressErrorView) -> Seq<char> {
    match e {
        HostAddressErrorView::ParseIpAddress { addr } => "Could not parse IP address: "@ + addr,
        HostAddressErrorView::ParsePortNumber { source } => "Could not parse port number, error "@
            + int_error_text(source),
        HostAddressErrorView::InvalidFormat { addr } => "Invalid host address format: "@ + addr,
    }
}

impl HostAddressError {
    /// The text of the error.
    pub fn to_string(&self) -> (r: String)
        ensures
            r@ == host_address_error_text(self@),
    {
        let mut out: Vec<char> = Vec::new();
        match self {
            HostAddressError::ParseIpAddress { addr } => {
                crate::text::push_str(&mut out, "Could not parse IP address: ");
                crate::text::push_str(&mut out, addr.as_str());
            },
            HostAddressError::ParsePortNumber { source } => {
                crate::text::push_str(&mut out, "Could not parse port number, error ");
                let t = match source {
                    IntErrorKind::Empty => "cannot parse integer from empty string",
                    IntErrorKind::InvalidDigit => "invalid digit found in string",
                    IntErrorKind::PosOverflow => "number too large to fit in target type",
                };
                crate::text::push_str(&mut out, t);
            },
            HostAddressError::InvalidFormat { addr } => {
                crate::text::push_str(&mut out, "Invalid host address format: ");
                crate::text::push_str(&mut out, addr.as_str());
            },
        }
        assert(out@ =~= host_address_error_text(self@));
        string_of(out.as_slice())
    }
}

impl View for HostAddressError {
    type V = HostAddressErrorView;

    open spec fn view(&self) -> HostAddressErrorView {
        match self {
            HostAddressError::ParseIpAddress { addr } => HostAddressErrorView::ParseIpAddress {
                addr: addr@,
            },
            HostAddressError::ParsePortNumber { source } => HostAddressErrorView::ParsePortNumber {
                source: *source,
            },
            HostAddressError::InvalidFormat { addr } => HostAddressErrorView::InvalidFormat {
                addr: addr@,
            },
        }
    }
}

/// The host address of `host` and `port`: a socket address where `host` is
/// the text of an IP address, else a domain name.
pub open spec fn host_address_of(host: Seq<char>, port: u16) -> HostAddressView {
    match parse_ip_text(host) {
        Some(ip) => HostAddressView::Socket(socket_of(ip, port)),
        None => HostAddressView::DomainName(host, port),
    }
}

/// A domain name that is the text of an IP address, made a socket address.
pub open spec fn fitted(a: HostAddressView) -> HostAddressView {
    match a {
        HostAddressView::DomainName(h, p) => host_address_of(h, p),
        HostAddressView::Socket(s) => HostAddressView::Socket(s),
    }
}

pub open spec fn host_text(a: HostAddressView) -> Seq<char> {
    match a {
        HostAddressView::Socket(s) => ip_text(s.ip_spec()),
        HostAddressView::DomainName(h, _) => h,
    }
}

pub open spec fn port_of(a: HostAddressView) -> u16 {
    match a {
        HostAddressView::Socket(s) => s.port_spec(),
        HostAddressView::DomainName(_, p) => p,
    }
}

pub open spec fn with_port_of(a: HostAddressView, port: u16) -> HostAddressView {
    match a {
        HostAddressView::Socket(s) => HostAddressView::Socket(with_port(s, port)),
        HostAddressView::DomainName(h, _) => HostAddressView::DomainName(h, port),
    }
}

/// The text of a host address: the socket address's text, or the domain
/// name, ':' and the port.
pub open spec fn host_address_text(a: HostAddressView) -> Seq<char> {
    match a {
        HostAddressView::Socket(s) => socket_text(s),
        HostAddressView::DomainName(h, p) => h + seq![':'] + dec_text(p as nat),
    }
}

/// The host address that a text writes: a socket address, or else a
/// host and a port separated by the only ':' of the text.
pub open spec fn host_address_from_text(s: Seq<char>) -> Result<HostAddressView, HostAddressErrorView> {
    match parse_socket_text(s) {
        Some(a) => Ok(HostAddressView::Socket(a)),
        None => {
            let parts = split_on(s, ':');
            if parts.len() != 2 {
                Err(HostAddressErrorView::InvalidFormat { addr: s })
            } else {
                match parse_u16_text(parts[1]) {
                    Ok(p) => Ok(HostAddressView::DomainName(parts[0], p)),
                    Err(k) => Err(HostAddressErrorView::ParsePortNumber { source: k }),
                }
            }
        },
    }
}

pub open spec fn result_view<T: View, E: View>(r: Result<T, E>) -> Result<T::V, E::V> {
    match r {
        Ok(t) => Ok(t@),
        Err(e) => Err(e@),
    }
}

impl HostAddress {
    /// The address of `host` and `port`; a socket address where `host` is an
    /// IP address.
    pub fn new(host: &str, port: u16) -> (r: HostAddress)
        ensures
            r@ == host_address_of(host@, port),
    {
        let cs = chars_of(host);
        match parse_ip(cs.as_slice()) {
            Some(ip) => HostAddress::Socket(SocketAddress::new(ip, port)),
            None => HostAddress::DomainName(String::from_str(host), port),
        }
    }

    /// Turns a domain name that is the text of an IP address into a socket
    /// address; leaves every other address as it is.
    pub fn fit(&mut self)
        ensures
            final(self)@ == fitted(old(self)@),
    {
        let replacement = match self {
            HostAddress::DomainName(host, port) => {
                let cs = chars_of(host.as_str());
                match parse_ip(cs.as_slice()) {
                    Some(ip) => Some(HostAddress::Socket(SocketAddress::new(ip, *port))),
                    None => None,
                }
            },
            HostAddress::Socket(_) => None,
        };
        if let Some(r) = replacement {
            *self = r;
        }
    }

    /// The host: the text of the IP address, or the domain name.
    pub fn host(&self) -> (r: String)
        ensures
            r@ == host_text(self@),
    {
        match self {
            HostAddress::Socket(socket) => socket.ip().to_text(),
            HostAddress::DomainName(host, _) => host.clone(),
        }
    }

    /// The port.
    pub fn port(&self) -> (r: u16)
        ensures
            r == port_of(self@),
    {
        match self {
            HostAddress::Socket(socket) => socket.port(),
            HostAddress::DomainName(_, port) => *port,
        }
    }

    /// Replaces the port and keeps the host.
    pub fn set_port(&mut self, port: u16)
        ensures
            final(self)@ == with_port_of(old(self)@, port),
    {
        match self {
            HostAddress::Socket(socket) => {
                socket.set_port(port);
            },
            HostAddress::DomainName(_, self_port) => {
                *self_port = port;
            },
        }
    }

    /// `0.0.0.0:0`.
    pub fn empty_ipv4() -> (r: HostAddress)
        ensures
            r@ == HostAddressView::Socket(SocketAddress::V4 { ip: Ipv4Address(0, 0, 0, 0), port: 0 }),
    {
        HostAddress::Socket(SocketAddress::V4 { ip: Ipv4Address(0, 0, 0, 0), port: 0 })
    }

    /// `[::]:0`.
    pub fn empty_ipv6() -> (r: HostAddress)
        ensures
            r@ == HostAddressView::Socket(
                SocketAddress::V6 {
                    ip: Ipv6Address(0, 0, 0, 0, 0, 0, 0, 0),
                    port: 0,
                    flowinfo: 0,
                    scope_id: 0,
                },
            ),
    {
        HostAddress::Socket(
            SocketAddress::V6 {
                ip: Ipv6Address(0, 0, 0, 0, 0, 0, 0, 0),
                port: 0,
                flowinfo: 0,
                scope_id: 0,
            },
        )
    }

    /// The empty domain name with port zero.
    pub fn empty_domain() -> (r: HostAddress)
        ensures
            r@ == HostAddressView::DomainName(Seq::empty(), 0),
    {
        HostAddress::DomainName(String::new(), 0)
    }

    /// The address of a socket.
    pub fn from_socket(addr: SocketAddress) -> (r: HostAddress)
        ensures
            r@ == HostAddressView::Socket(addr),
    {
        HostAddress::Socket(addr)
    }

    /// Whether this is the domain name `host` with port `port`.
    pub fn eq_domain(&self, host: &str, port: u16) -> (r: bool)
        ensures
            r == (self@ == HostAddressView::DomainName(host@, port)),
    {
        match self {
            HostAddress::DomainName(h, p) => {
                let a = chars_of(h.as_str());
                crate::text::str_eq_chars(host, a.as_slice()) && *p == port
            },
            _ => false,
        }
    }

    /// Whether this is the socket address `other`.
    pub fn eq_socket(&self, other: &SocketAddress) -> (r: bool)
        ensures
            r == (self@ == HostAddressView::Socket(*other)),
    {
        match self {
            HostAddress::Socket(a) => *a == *other,
            _ => false,
        }
    }

    /// Reads a host address: a socket address, or a host, ':' and a port.
    pub fn from_str(s: &str) -> (r: Result<HostAddress, HostAddressError>)
        ensures
            result_view(r) == host_address_from_text(s@),
    {
        let cs = chars_of(s);
        if let Some(a) = parse_socket(cs.as_slice()) {
            return Ok(HostAddress::Socket(a));
        }
        let parts = split_chars(cs.as_slice(), ':');
        if parts.len() != 2 {
            return Err(HostAddressError::InvalidFormat { addr: String::from_str(s) });
        }
        match parse_u16(parts[1].as_slice()) {
            Ok(port) => Ok(HostAddress::DomainName(string_of(parts[0].as_slice()), port)),
            Err(kind) => Err(HostAddressError::ParsePortNumber { source: kind }),
        }
    }

    /// The text of the address.
    pub fn to_string(&self) -> (r: String)
        ensures
            r@ == host_address_text(self@),
    {
        let mut out: Vec<char> = Vec::new();
        match self {
            HostAddress::Socket(a) => push_socket(&mut out, *a),
            HostAddress::DomainName(h, p) => {
                let hs = chars_of(h.as_str());
                push_all(&mut out, hs.as_slice());
                out.push(':');
                push_dec(&mut out, *p as u32);
            },
        }
        assert(out@ =~= host_address_text(self@));
        string_of(out.as_slice())
    }
}

}

verus! {

/// Reading back: the text of a socket address reads back as that address
/// (where it carries no IPv6 flow information, which the text leaves out).
pub proof fn law_socket_host_round_trip(a: SocketAddress)
    requires
        a matches SocketAddress::V6 { flowinfo, .. } ==> flowinfo == 0,
    ensures
        host_address_from_text(host_address_text(HostAddressView::Socket(a))) == Ok::<
            HostAddressView,
            HostAddressErrorView,
        >(HostAddressView::Socket(a)),
{
    crate::net::law_socket_text_round_trip(a);
}

/// Reading back: the text of a domain name and port reads back as the same
/// domain name and port, where the name holds no ':' and the text is not
/// also that of a socket address.
pub proof fn law_domain_host_round_trip(host: Seq<char>, port: u16)
    requires
        !host.contains(':'),
        parse_socket_text(host_address_text(HostAddressView::DomainName(host, port))) is None,
    ensures
        host_address_from_text(host_address_text(HostAddressView::DomainName(host, port))) == Ok::<
            HostAddressView,
            HostAddressErrorView,
        >(HostAddressView::DomainName(host, port)),
{
    crate::text::lemma_dec_text_no_colon(port as nat);
    crate::text::lemma_split_on_two(host, dec_text(port as nat), ':');
    crate::text::lemma_parse_u16_dec_text(port);
}

/// Fitting is idempotent: a fitted address is left as it is.
pub proof fn law_fit_idempotent(a: HostAddressView)
    ensures
        fitted(fitted(a)) == fitted(a),
{
}

/// An address made of a host and a port has that port, and a set port is
/// the port read back; setting the port keeps the host.
pub proof fn law_port_read_back(host: Seq<char>, port: u16, a: HostAddressView, q: u16)
    ensures
        port_of(host_address_of(host, port)) == port,
        port_of(with_port_of(a, q)) == q,
        host_text(with_port_of(a, q)) == host_text(a),
{
}

/// A host that is the text of an IP address gives a socket address whose
/// host text is the IP address's own text, so that making an address from
/// that text again gives the same address.
pub proof fn law_ip_host_round_trip(ip: IpAddress, port: u16)
    ensures
        host_address_of(ip_text(ip), port) == HostAddressView::Socket(socket_of(ip, port)),
        host_text(host_address_of(ip_text(ip), port)) == ip_text(ip),
{
    crate::net::law_ip_text_round_trip(ip);
}

}
