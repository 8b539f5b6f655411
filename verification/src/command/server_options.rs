//! What a SOCKS or HTTP server is started with, and the rules that make it
//! from a configuration.
use vstd::prelude::*;

use std::collections::HashSet;

use crate::common::utils::Duration;
use crate::net::{socket_of, IpAddress, SocketAddress};
use crate::protocol::socks::{SocksCommand, SocksVersion};

verus! {

/// What a SOCKS server is started with.
#[derive(Debug)]
pub struct SocksServerOptions {
    /// The versions served; none twice.
    pub supported_versions: Vec<SocksVersion>,
    /// The commands served; none twice.
    pub supported_commands: Vec<SocksCommand>,
    pub listen_address: IpAddress,
    pub listen_port: u16,
    /// The ports for UDP.
    pub udp_ports: HashSet<u16>,
    pub udp_cache_expiry_duration: Duration,
    pub connection_timeout: Duration,
    pub tcp_keepalive: Duration,
}

impl SocksServerOptions {
    /// No version and no command is served twice.
    pub open spec fn well_formed(&self) -> bool {
        self.supported_versions@.no_duplicates() && self.supported_commands@.no_duplicates()
    }

    /// The socket the server listens on.
    pub fn listen_socket(&self) -> (r: SocketAddress)
        ensures
            r == socket_of(self.listen_address, self.listen_port),
    {
        SocketAddress::new(self.listen_address, self.listen_port)
    }
}

/// What an HTTP server is started with.
#[derive(Clone, Copy, Debug, PartialEq, Eq, Structural)]
pub struct HttpServerOptions {
    pub listen_address: IpAddress,
    pub listen_port: u16,
}

impl HttpServerOptions {
    /// The socket the server listens on.
    pub fn listen_socket(&self) -> (r: SocketAddress)
        ensures
            r == socket_of(self.listen_address, self.listen_port),
    {
        SocketAddress::new(self.listen_address, self.listen_port)
    }
}

/// The versions served: SOCKS4a unless disabled, then SOCKS5 unless
/// disabled.
pub open spec fn versions_of(socks4a: bool, socks5: bool) -> Seq<SocksVersion> {
    (if socks4a {
        seq![SocksVersion::V4]
    } else {
        Seq::empty()
    }) + (if socks5 {
        seq![SocksVersion::V5]
    } else {
        Seq::empty()
    })
}

/// The commands served: TCP connect, UDP associate where it is enabled and
/// there are UDP ports, TCP bind.
pub open spec fn commands_of(tcp_connect: bool, udp_associate: bool, tcp_bind: bool) -> Seq<
    SocksCommand,
> {
    (if tcp_connect {
        seq![SocksCommand::TcpConnect]
    } else {
        Seq::empty()
    }) + (if udp_associate {
        seq![SocksCommand::UdpAssociate]
    } else {
        Seq::empty()
    }) + (if tcp_bind {
        seq![SocksCommand::TcpBind]
    } else {
        Seq::empty()
    })
}

/// The versions and the commands served are each served once, whatever is
/// enabled.
pub proof fn law_served_once(
    socks4a: bool,
    socks5: bool,
    tcp_connect: bool,
    udp_associate: bool,
    tcp_bind: bool,
)
    ensures
        versions_of(socks4a, socks5).no_duplicates(),
        commands_of(tcp_connect, udp_associate, tcp_bind).no_duplicates(),
{
    let v = versions_of(socks4a, socks5);
    assert forall|i: int, j: int| 0 <= i < j < v.len() implies v[i] != v[j] by {
        assert(socks4a && socks5 && i == 0 && j == 1);
    }
    let c = commands_of(tcp_connect, udp_associate, tcp_bind);
    assert forall|i: int, j: int| 0 <= i < j < c.len() implies c[i] != c[j] by {
        if tcp_connect {
            assert(c[0] == SocksCommand::TcpConnect);
        }
        if tcp_bind {
            assert(c[c.len() - 1] == SocksCommand::TcpBind);
        }
    }
}

pub fn versions(socks4a: bool, socks5: bool) -> (r: Vec<SocksVersion>)
    ensures
        r@ == versions_of(socks4a, socks5),
        r@.no_duplicates(),
{
    let mut v: Vec<SocksVersion> = Vec::new();
    if socks4a {
        v.push(SocksVersion::V4);
    }
    if socks5 {
        v.push(SocksVersion::V5);
    }
    assert(v@ =~= versions_of(socks4a, socks5));
    v
}

pub fn commands(tcp_connect: bool, udp_associate: bool, tcp_bind: bool) -> (r: Vec<SocksCommand>)
    ensures
        r@ == commands_of(tcp_connect, udp_associate, tcp_bind),
        r@.no_duplicates(),
{
    let mut v: Vec<SocksCommand> = Vec::new();
    if tcp_connect {
        v.push(SocksCommand::TcpConnect);
    }
    if udp_associate {
        v.push(SocksCommand::UdpAssociate);
    }
    if tcp_bind {
        v.push(SocksCommand::TcpBind);
    }
    assert(v@ =~= commands_of(tcp_connect, udp_associate, tcp_bind));
    v
}

/// The set of the ports.
pub fn port_set(ports: &[u16]) -> (r: HashSet<u16>)
    ensures
        r@ == ports@.to_set(),
{
    broadcast use vstd::std_specs::hash::group_hash_axioms;

    let mut set: HashSet<u16> = HashSet::new();
    let mut i: usize = 0;
    while i < ports.len()
        invariant
            i <= ports@.len(),
            set@ == ports@.take(i as int).to_set(),
        decreases ports@.len() - i,
    {
        let ghost before = ports@.take(i as int);
        set.insert(ports[i]);
        proof {
            assert(ports@.take(i + 1) =~= before.push(ports@[i as int]));
            assert forall|a: u16| #[trigger] before.push(ports@[i as int]).contains(a) <==> (
            before.contains(a) || a == ports@[i as int]) by {
                let t = before.push(ports@[i as int]);
                if t.contains(a) {
                    let k = choose|k: int| 0 <= k < t.len() && t[k] == a;
                    if k < before.len() {
                        assert(before[k] == a);
                    }
                }
                if before.contains(a) {
                    let k = choose|k: int| 0 <= k < before.len() && before[k] == a;
                    assert(t[k] == a);
                }
                if a == ports@[i as int] {
                    assert(t[before.len() as int] == a);
                }
            }
            assert(set@ =~= ports@.take(i + 1).to_set());
        }
        i = i + 1;
    }
    assert(ports@.take(ports@.len() as int) =~= ports@);
    set
}

/// Why the strict rule refuses a SOCKS configuration.
#[derive(Clone, Copy, Debug, PartialEq, Eq, Structural)]
pub enum SocksRefusal {
    /// Neither SOCKS4a nor SOCKS5 is served.
    NoVersion,
    /// UDP associate is served with no UDP port.
    NoUdpPort,
    /// No command is served.
    NoCommand,
}

/// The strict rule for SOCKS server options: at least one version; UDP
/// associate only with UDP ports; at least one command. UDP entries expire
/// after 30 ms, connections time out after `connection_timeout` seconds,
/// keepalive is 5 s.
pub open spec fn strict_socks_refusal(
    disable_socks4a: bool,
    disable_socks5: bool,
    enable_tcp_connect: bool,
    enable_tcp_bind: bool,
    enable_udp_associate: bool,
    has_udp_ports: bool,
) -> Option<SocksRefusal> {
    if disable_socks4a && disable_socks5 {
        Some(SocksRefusal::NoVersion)
    } else if enable_udp_associate && !has_udp_ports {
        Some(SocksRefusal::NoUdpPort)
    } else if !enable_tcp_connect && !enable_udp_associate && !enable_tcp_bind {
        Some(SocksRefusal::NoCommand)
    } else {
        None
    }
}

/// Makes SOCKS server options by the strict rule.
pub fn strict_socks_options(
    disable_socks4a: bool,
    disable_socks5: bool,
    enable_tcp_connect: bool,
    enable_tcp_bind: bool,
    enable_udp_associate: bool,
    connection_timeout: u64,
    ip: IpAddress,
    port: u16,
    udp_ports: &[u16],
) -> (r: Result<SocksServerOptions, SocksRefusal>)
    ensures
        match strict_socks_refusal(
            disable_socks4a,
            disable_socks5,
            enable_tcp_connect,
            enable_tcp_bind,
            enable_udp_associate,
            udp_ports@.len() > 0,
        ) {
            Some(e) => r == Err::<SocksServerOptions, SocksRefusal>(e),
            None => r matches Ok(o) && o.supported_versions@ == versions_of(
                !disable_socks4a,
                !disable_socks5,
            ) && o.supported_commands@ == commands_of(
                enable_tcp_connect,
                enable_udp_associate,
                enable_tcp_bind,
            ) && o.listen_address == ip && o.listen_port == port && o.udp_ports@ == udp_ports@.to_set()
                && o.udp_cache_expiry_duration@
                == 30_000_000 && o.connection_timeout@ == connection_timeout * 1_000_000_000
                && o.tcp_keepalive@ == 5_000_000_000 && o.well_formed(),
        },
{
    let supported_versions = versions(!disable_socks4a, !disable_socks5);
    if supported_versions.len() == 0 {
        return Err(SocksRefusal::NoVersion);
    }
    if enable_udp_associate && udp_ports.len() == 0 {
        return Err(SocksRefusal::NoUdpPort);
    }
    let supported_commands = commands(enable_tcp_connect, enable_udp_associate, enable_tcp_bind);
    if supported_commands.len() == 0 {
        return Err(SocksRefusal::NoCommand);
    }
    Ok(
        SocksServerOptions {
            supported_versions,
            supported_commands,
            listen_address: ip,
            listen_port: port,
            udp_ports: port_set(udp_ports),
            udp_cache_expiry_duration: Duration::from_millis(30),
            connection_timeout: Duration::from_secs(connection_timeout),
            tcp_keepalive: Duration::from_secs(5),
        },
    )
}

} // verus!
