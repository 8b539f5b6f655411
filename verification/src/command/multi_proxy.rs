//! The configuration of several proxy servers run together.
use vstd::prelude::*;

use crate::command::server_options::{
    commands, commands_of, port_set, versions, versions_of, HttpServerOptions,
    SocksServerOptions,
};
use crate::command::Error;
use crate::common::utils::Duration;
use crate::net::{socket_of, IpAddress, Ipv4Address, SocketAddress};
use crate::text::{ascii_lower, is_ascii_text, lowercase, str_eq_str, to_lowercase};

verus! {

/// A kind of proxy server.
#[derive(Clone, Copy, Debug, Eq, Hash, PartialEq, Structural)]
pub enum ProxyServer {
    Socks,
    Http,
}

/// The kind of proxy server that a name in lower case names: `socks` or
/// `http`.
pub open spec fn proxy_server_named(lower: Seq<char>) -> Option<ProxyServer> {
    if lower == "socks"@ {
        Some(ProxyServer::Socks)
    } else if lower == "http"@ {
        Some(ProxyServer::Http)
    } else {
        None
    }
}

/// The name of a kind of proxy server.
pub open spec fn proxy_server_name(p: ProxyServer) -> Seq<char> {
    match p {
        ProxyServer::Socks => "socks"@,
        ProxyServer::Http => "http"@,
    }
}

impl ProxyServer {
    /// The kind of proxy server named, in any case.
    pub fn from_str(server: &str) -> (r: Result<ProxyServer, Error>)
        ensures
            match proxy_server_named(lowercase(server@)) {
                Some(p) => r == Ok::<ProxyServer, Error>(p),
                None => r matches Err(Error::InvalidProxyServer { server: s }) && s@ == server@,
            },
            is_ascii_text(server@) ==> lowercase(server@) == server@.map_values(
                |c: char| ascii_lower(c),
            ),
    {
        let lower = to_lowercase(server);
        ProxyServer::from_lower(lower.as_str(), server)
    }

    /// The kind of proxy server that `lower`, the name `server` in lower
    /// case, names.
    pub fn from_lower(lower: &str, server: &str) -> (r: Result<ProxyServer, Error>)
        ensures
            match proxy_server_named(lower@) {
                Some(p) => r == Ok::<ProxyServer, Error>(p),
                None => r matches Err(Error::InvalidProxyServer { server: s }) && s@ == server@,
            },
    {
        if str_eq_str(lower, "socks") {
            Ok(ProxyServer::Socks)
        } else if str_eq_str(lower, "http") {
            Ok(ProxyServer::Http)
        } else {
            Err(Error::InvalidProxyServer { server: String::from_str(server) })
        }
    }

    /// The name of the kind.
    pub fn to_string(&self) -> (r: String)
        ensures
            r@ == proxy_server_name(*self),
    {
        match self {
            ProxyServer::Socks => String::from_str("socks"),
            ProxyServer::Http => String::from_str("http"),
        }
    }
}

/// The name of a kind, read back in any case, is that kind.
pub proof fn law_proxy_server_name_round_trip(p: ProxyServer)
    ensures
        is_ascii_text(proxy_server_name(p)),
        proxy_server_named(proxy_server_name(p).map_values(|c: char| ascii_lower(c))) == Some(p),
{
    reveal_strlit("socks");
    reveal_strlit("http");
    let n = proxy_server_name(p);
    assert(n.map_values(|c: char| ascii_lower(c)) =~= n);
}

/// A SOCKS server among several.
#[derive(Clone, Debug)]
pub struct SocksServer {
    pub tcp_ip: IpAddress,
    pub tcp_port: u16,
    pub udp_ip: IpAddress,
    pub udp_ports: Vec<u16>,
    pub enable_socks4a: bool,
    pub enable_socks5: bool,
    pub enable_tcp_connect: bool,
    pub enable_tcp_bind: bool,
    pub enable_udp_associate: bool,
    pub connection_timeout: u64,
    pub tcp_keepalive: u64,
    pub udp_cache_expiry_duration: u64,
}

impl Default for SocksServer {
    /// Both versions and TCP connect, on `127.0.0.1:3128` with UDP port
    /// 3129; timeouts of 20 s, keepalive of 5 s, UDP entries kept 30 s.
    fn default() -> (r: SocksServer)
        ensures
            r.tcp_ip == IpAddress::V4(Ipv4Address(127, 0, 0, 1)),
            r.tcp_port == 3128,
            r.udp_ip == IpAddress::V4(Ipv4Address(127, 0, 0, 1)),
            r.udp_ports@ == seq![3129u16],
            r.enable_socks4a && r.enable_socks5,
            r.enable_tcp_connect && !r.enable_tcp_bind && !r.enable_udp_associate,
            r.connection_timeout == 20,
            r.tcp_keepalive == 5,
            r.udp_cache_expiry_duration == 30,
    {
        let mut udp_ports: Vec<u16> = Vec::new();
        udp_ports.push(3129);
        SocksServer {
            tcp_ip: IpAddress::V4(Ipv4Address(127, 0, 0, 1)),
            tcp_port: 3128,
            udp_ip: IpAddress::V4(Ipv4Address(127, 0, 0, 1)),
            udp_ports,
            enable_socks4a: true,
            enable_socks5: true,
            enable_tcp_connect: true,
            enable_tcp_bind: false,
            enable_udp_associate: false,
            connection_timeout: 20,
            tcp_keepalive: 5,
            udp_cache_expiry_duration: 30,
        }
    }
}

/// The server options made of a SOCKS server configuration: the versions
/// enabled; TCP connect, UDP associate where enabled and UDP ports are given
/// (else left out), TCP bind; its address and port; its UDP ports; the times
/// in seconds.
pub open spec fn socks_options_of(c: SocksServer, r: SocksServerOptions) -> bool {
    &&& r.supported_versions@ == versions_of(c.enable_socks4a, c.enable_socks5)
    &&& r.supported_commands@ == commands_of(
        c.enable_tcp_connect,
        c.enable_udp_associate && c.udp_ports@.len() > 0,
        c.enable_tcp_bind,
    )
    &&& r.listen_address == c.tcp_ip
    &&& r.listen_port == c.tcp_port
    &&& r.udp_ports@ == c.udp_ports@.to_set()
    &&& r.udp_cache_expiry_duration@ == c.udp_cache_expiry_duration * 1_000_000_000
    &&& r.connection_timeout@ == c.connection_timeout * 1_000_000_000
    &&& r.tcp_keepalive@ == c.tcp_keepalive * 1_000_000_000
    &&& r.well_formed()
}

impl SocksServer {
    /// The server options, by [`socks_options_of`].
    pub fn into(self) -> (r: SocksServerOptions)
        ensures
            socks_options_of(self, r),
    {
        let udp_ports = port_set(self.udp_ports.as_slice());
        let with_udp = self.enable_udp_associate && self.udp_ports.len() > 0;
        SocksServerOptions {
            supported_versions: versions(self.enable_socks4a, self.enable_socks5),
            supported_commands: commands(self.enable_tcp_connect, with_udp, self.enable_tcp_bind),
            listen_address: self.tcp_ip,
            listen_port: self.tcp_port,
            udp_ports,
            udp_cache_expiry_duration: Duration::from_secs(self.udp_cache_expiry_duration),
            connection_timeout: Duration::from_secs(self.connection_timeout),
            tcp_keepalive: Duration::from_secs(self.tcp_keepalive),
        }
    }

    /// The socket the server listens on for TCP.
    pub fn listen_socket(&self) -> (r: SocketAddress)
        ensures
            r == socket_of(self.tcp_ip, self.tcp_port),
    {
        SocketAddress::new(self.tcp_ip, self.tcp_port)
    }
}

/// An HTTP server among several.
#[derive(Clone, Copy, Debug, Eq, PartialEq, Structural)]
pub struct HttpServer {
    pub host: IpAddress,
    pub port: u16,
}

impl Default for HttpServer {
    /// `127.0.0.1:8080`.
    fn default() -> (r: HttpServer)
        ensures
            r.host == IpAddress::V4(Ipv4Address(127, 0, 0, 1)),
            r.port == 8080,
    {
        HttpServer { host: IpAddress::V4(Ipv4Address(127, 0, 0, 1)), port: 8080 }
    }
}

impl HttpServer {
    /// The server options: listen on the host and port configured.
    pub fn into(self) -> (r: HttpServerOptions)
        ensures
            r.listen_address == self.host,
            r.listen_port == self.port,
    {
        HttpServerOptions { listen_address: self.host, listen_port: self.port }
    }

    /// The socket the server listens on.
    pub fn listen_socket(&self) -> (r: SocketAddress)
        ensures
            r == socket_of(self.host, self.port),
    {
        SocketAddress::new(self.host, self.port)
    }
}

/// The configuration of several proxy servers.
#[derive(Clone, Debug)]
pub struct Config {
    /// The kinds of servers to run.
    pub proxy_servers: Vec<ProxyServer>,
    pub socks_server: Option<SocksServer>,
    pub http_server: Option<HttpServer>,
}

impl Default for Config {
    /// Both kinds, each with its default configuration.
    fn default() -> (r: Config)
        ensures
            r.proxy_servers@ == seq![ProxyServer::Http, ProxyServer::Socks],
            r.socks_server is Some,
            r.http_server == Some(HttpServer { host: IpAddress::V4(Ipv4Address(127, 0, 0, 1)), port: 8080 }),
    {
        let mut proxy_servers: Vec<ProxyServer> = Vec::new();
        proxy_servers.push(ProxyServer::Http);
        proxy_servers.push(ProxyServer::Socks);
        Config {
            proxy_servers,
            socks_server: Some(SocksServer::default()),
            http_server: Some(HttpServer::default()),
        }
    }
}

fn contains_server(v: &Vec<ProxyServer>, p: ProxyServer) -> (r: bool)
    ensures
        r == v@.contains(p),
{
    let mut i: usize = 0;
    while i < v.len()
        invariant
            i <= v@.len(),
            forall|j: int| 0 <= j < i ==> v@[j] != p,
        decreases v@.len() - i,
    {
        if v[i] == p {
            assert(v@[i as int] == p);
            return true;
        }
        i = i + 1;
    }
    false
}

impl Config {
    /// Whether a SOCKS server runs: it is listed and configured.
    pub fn enable_socks(&self) -> (r: bool)
        ensures
            r == (self.proxy_servers@.contains(ProxyServer::Socks) && self.socks_server is Some),
    {
        contains_server(&self.proxy_servers, ProxyServer::Socks) && self.socks_server.is_some()
    }

    /// Whether an HTTP server runs: it is listed and configured.
    pub fn enable_http(&self) -> (r: bool)
        ensures
            r == (self.proxy_servers@.contains(ProxyServer::Http) && self.http_server is Some),
    {
        contains_server(&self.proxy_servers, ProxyServer::Http) && self.http_server.is_some()
    }
}

impl Config {
    /// The servers to run: the SOCKS server where it is enabled, the HTTP
    /// server where it is enabled; with neither there is nothing to serve.
    pub fn servers(self) -> (r: Result<(Option<SocksServerOptions>, Option<HttpServerOptions>), Error>)
        ensures
            ({
                let socks = self.proxy_servers@.contains(ProxyServer::Socks) && self.socks_server is Some;
                let http = self.proxy_servers@.contains(ProxyServer::Http) && self.http_server is Some;
                if !socks && !http {
                    r matches Err(Error::NoProxyServer)
                } else {
                    r matches Ok((s, h)) && (s is Some <==> socks) && (h is Some <==> http) && (
                    h matches Some(o) ==> self.http_server matches Some(c) && o.listen_address
                        == c.host && o.listen_port == c.port) && (s matches Some(o)
                        ==> self.socks_server matches Some(c) && socks_options_of(c, o))
                }
            }),
    {
        let socks = self.enable_socks();
        let http = self.enable_http();
        if !socks && !http {
            return Err(Error::NoProxyServer);
        }
        let s = if socks {
            match self.socks_server {
                Some(c) => Some(c.into()),
                None => None,
            }
        } else {
            None
        };
        let h = if http {
            match self.http_server {
                Some(c) => Some(c.into()),
                None => None,
            }
        } else {
            None
        };
        Ok((s, h))
    }
}

/// The errors among the results of the servers that ran, in order.
pub open spec fn errors_of<T, E>(results: Seq<Result<T, E>>) -> Seq<E>
    decreases results.len(),
{
    if results.len() == 0 {
        Seq::empty()
    } else {
        let rest = errors_of(results.drop_last());
        match results.last() {
            Err(e) => rest.push(e),
            Ok(_) => rest,
        }
    }
}

/// Collects the errors of the servers that ran, in order.
pub fn collect_errors<T, E>(results: Vec<Result<T, E>>) -> (r: Vec<E>)
    ensures
        r@ == errors_of(results@),
{
    let ghost all = results@;
    let mut errors: Vec<E> = Vec::new();
    for item in it: results
        invariant
            it.seq() == all,
            errors@ == errors_of(all.take(it.index() as int)),
    {
        assert(all.take(it.index() + 1).drop_last() =~= all.take(it.index() as int));
        if let Err(e) = item {
            errors.push(e);
        }
    }
    assert(all.take(all.len() as int) =~= all);
    errors
}

} // verus!
