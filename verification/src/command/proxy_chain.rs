//! The configuration of the proxy chain server: SOCKS and HTTP servers
//! whose connections go through a chain of proxies.
use vstd::prelude::*;

use std::collections::HashSet;

use crate::command::server_options::{versions, versions_of, HttpServerOptions, SocksServerOptions};

use crate::command::Error;
use crate::common::proxy::{proxies_view, ProxyHost, ProxyStrategy, ProxyStrategyView};
use crate::common::utils::Duration;
use crate::net::{IpAddress, Ipv4Address};
use crate::protocol::socks::SocksCommand;
use crate::text::str_eq_str;

verus! {

/// Options of the proxy chain given on the command line.
#[derive(Clone, Debug)]
pub struct Options {
    pub disable_socks4a: bool,
    pub disable_socks5: bool,
    pub disable_http: bool,
    pub socks_ip: Option<IpAddress>,
    pub socks_port: Option<u16>,
    pub http_ip: Option<IpAddress>,
    pub http_port: Option<u16>,
    pub proxy_chain_file: Option<String>,
    pub proxy_chain: Option<Vec<ProxyHost>>,
}

/// The configuration of the proxy chain.
#[derive(Clone, Debug)]
pub struct Config {
    pub enable_socks4a: bool,
    pub enable_socks5: bool,
    pub enable_http: bool,
    pub socks_ip: Option<IpAddress>,
    pub socks_port: Option<u16>,
    pub http_ip: Option<IpAddress>,
    pub http_port: Option<u16>,
    pub proxy_chain_file: Option<String>,
    pub proxy_chain: Option<Vec<ProxyHost>>,
}

impl Default for Config {
    /// Both SOCKS versions on `127.0.0.1:3128`, HTTP on `127.0.0.1:8118`,
    /// no chain.
    fn default() -> (r: Config)
        ensures
            r.enable_socks4a && r.enable_socks5 && r.enable_http,
            r.socks_ip == Some(IpAddress::V4(Ipv4Address(127, 0, 0, 1))),
            r.socks_port == Some(3128u16),
            r.http_ip == Some(IpAddress::V4(Ipv4Address(127, 0, 0, 1))),
            r.http_port == Some(8118u16),
            r.proxy_chain_file is None,
            r.proxy_chain is None,
    {
        Config {
            enable_socks4a: true,
            enable_socks5: true,
            enable_http: true,
            socks_ip: Some(IpAddress::V4(Ipv4Address(127, 0, 0, 1))),
            socks_port: Some(3128),
            http_ip: Some(IpAddress::V4(Ipv4Address(127, 0, 0, 1))),
            http_port: Some(8118),
            proxy_chain_file: None,
            proxy_chain: None,
        }
    }
}

/// A field with the option in its place, where given.
pub open spec fn merged_option<T>(field: Option<T>, opt: Option<T>) -> Option<T> {
    match opt {
        Some(_) => opt,
        None => field,
    }
}

impl Config {
    /// The configuration with the options given on the command line: each
    /// server is enabled unless disabled, and each address, port and chain
    /// given takes the place of the configured one.
    pub fn merge(self, opts: Options) -> (r: Config)
        ensures
            r.enable_socks4a == !opts.disable_socks4a,
            r.enable_socks5 == !opts.disable_socks5,
            r.enable_http == !opts.disable_http,
            r.socks_ip == merged_option(self.socks_ip, opts.socks_ip),
            r.socks_port == merged_option(self.socks_port, opts.socks_port),
            r.http_ip == merged_option(self.http_ip, opts.http_ip),
            r.http_port == merged_option(self.http_port, opts.http_port),
            r.proxy_chain_file == merged_option(self.proxy_chain_file, opts.proxy_chain_file),
            r.proxy_chain == merged_option(self.proxy_chain, opts.proxy_chain),
    {
        let mut c = self;
        let Options {
            disable_socks4a,
            disable_socks5,
            disable_http,
            socks_ip,
            socks_port,
            http_ip,
            http_port,
            proxy_chain_file,
            proxy_chain,
        } = opts;
        c.enable_socks4a = !disable_socks4a;
        c.enable_socks5 = !disable_socks5;
        c.enable_http = !disable_http;
        if socks_ip.is_some() {
            c.socks_ip = socks_ip;
        }
        if socks_port.is_some() {
            c.socks_port = socks_port;
        }
        if http_ip.is_some() {
            c.http_ip = http_ip;
        }
        if http_port.is_some() {
            c.http_port = http_port;
        }
        if proxy_chain_file.is_some() {
            c.proxy_chain_file = proxy_chain_file;
        }
        if proxy_chain.is_some() {
            c.proxy_chain = proxy_chain;
        }
        c
    }
}

/// Where the chain of proxies comes from.
#[derive(Debug)]
pub enum ChainSource {
    /// The chain configured.
    Chain(Vec<ProxyHost>),
    /// A file to load it from.
    File(String),
}

/// What the proxy chain server runs: the SOCKS and HTTP servers enabled,
/// and the chain.
#[derive(Debug)]
pub struct ChainServers {
    pub socks: Option<SocksServerOptions>,
    pub http: Option<HttpServerOptions>,
    pub chain: ChainSource,
}

/// Why a configuration of the proxy chain is refused, checked in this
/// order: a SOCKS server without address or port, an HTTP server without
/// address or port, no chain.
pub open spec fn chain_refusal(c: Config) -> Option<Error> {
    if (c.enable_socks4a || c.enable_socks5) && c.socks_ip is None {
        Some(Error::NoSocksListenAddress)
    } else if (c.enable_socks4a || c.enable_socks5) && c.socks_port is None {
        Some(Error::NoSocksListenPort)
    } else if c.enable_http && c.http_ip is None {
        Some(Error::NoHttpListenAddress)
    } else if c.enable_http && c.http_port is None {
        Some(Error::NoHttpListenPort)
    } else if c.proxy_chain is None && c.proxy_chain_file is None {
        Some(Error::NoProxyChain)
    } else {
        None
    }
}

/// Whether `r` is the same refusal as `e`.
pub open spec fn same_refusal(r: Error, e: Error) -> bool {
    match e {
        Error::NoSocksListenAddress => r is NoSocksListenAddress,
        Error::NoSocksListenPort => r is NoSocksListenPort,
        Error::NoHttpListenAddress => r is NoHttpListenAddress,
        Error::NoHttpListenPort => r is NoHttpListenPort,
        Error::NoProxyChain => r is NoProxyChain,
        _ => false,
    }
}

impl Config {
    /// What the proxy chain server runs: a SOCKS server where a version is
    /// enabled (TCP connect only, no UDP port, times of 10 s), an HTTP
    /// server where enabled, and the chain configured, else the file named.
    pub fn servers(self) -> (r: Result<ChainServers, Error>)
        ensures
            match chain_refusal(self) {
                Some(e) => r matches Err(x) && same_refusal(x, e),
                None => r is Ok,
            },
            r matches Ok(s) ==> {
                &&& (self.enable_socks4a || self.enable_socks5) <==> s.socks is Some
                &&& s.socks matches Some(o) ==> o.supported_versions@ == versions_of(
                    self.enable_socks4a,
                    self.enable_socks5,
                ) && o.supported_commands@ == seq![SocksCommand::TcpConnect] && Some(
                    o.listen_address,
                ) == self.socks_ip && Some(o.listen_port) == self.socks_port && o.udp_ports@
                    == Set::<u16>::empty() && o.connection_timeout@ == 10_000_000_000 && o.tcp_keepalive@
                    == 10_000_000_000 && o.udp_cache_expiry_duration@ == 10_000_000_000
                    && o.well_formed()
                &&& self.enable_http <==> s.http is Some
                &&& s.http matches Some(h) ==> Some(h.listen_address) == self.http_ip && Some(
                    h.listen_port,
                ) == self.http_port
                &&& match self.proxy_chain {
                    Some(chain) => s.chain matches ChainSource::Chain(c) && c == chain,
                    None => s.chain matches ChainSource::File(f) && Some(f) == self.proxy_chain_file,
                }
            },
    {
        let socks = if self.enable_socks4a || self.enable_socks5 {
            let supported_versions = versions(self.enable_socks4a, self.enable_socks5);
            let mut supported_commands: Vec<SocksCommand> = Vec::new();
            supported_commands.push(SocksCommand::TcpConnect);
            let listen_address = match self.socks_ip {
                Some(ip) => ip,
                None => return Err(Error::NoSocksListenAddress),
            };
            let listen_port = match self.socks_port {
                Some(p) => p,
                None => return Err(Error::NoSocksListenPort),
            };
            Some(
                SocksServerOptions {
                    supported_versions,
                    supported_commands,
                    listen_address,
                    listen_port,
                    udp_ports: HashSet::new(),
                    connection_timeout: Duration::from_secs(10),
                    tcp_keepalive: Duration::from_secs(10),
                    udp_cache_expiry_duration: Duration::from_secs(10),
                },
            )
        } else {
            None
        };
        let http = if self.enable_http {
            let listen_address = match self.http_ip {
                Some(ip) => ip,
                None => return Err(Error::NoHttpListenAddress),
            };
            let listen_port = match self.http_port {
                Some(p) => p,
                None => return Err(Error::NoHttpListenPort),
            };
            Some(HttpServerOptions { listen_address, listen_port })
        } else {
            None
        };
        let chain = match (self.proxy_chain, self.proxy_chain_file) {
            (Some(chain), _) => ChainSource::Chain(chain),
            (_, Some(file)) => ChainSource::File(file),
            (None, None) => return Err(Error::NoProxyChain),
        };
        Ok(ChainServers { socks, http, chain })
    }
}

impl ChainServers {
    /// At least one server runs; else there is nothing to serve.
    pub fn require_server(&self) -> (r: Result<(), Error>)
        ensures
            r is Ok <==> (self.socks is Some || self.http is Some),
            r matches Err(e) ==> e is NoProxyServer,
    {
        if self.socks.is_none() && self.http.is_none() {
            Err(Error::NoProxyServer)
        } else {
            Ok(())
        }
    }
}

/// A chain of proxies, as a file holds it.
#[derive(Clone, Debug)]
pub struct ProxyChain {
    pub proxy_chain: Vec<ProxyHost>,
}

impl ProxyChain {
    /// The strategy of going through the chain.
    pub fn into_strategy(self) -> (r: ProxyStrategy)
        ensures
            r@ == ProxyStrategyView::Chained(proxies_view(self.proxy_chain@)),
    {
        ProxyStrategy::Chained(self.proxy_chain)
    }
}

/// The format of a file, by its extension.
#[derive(Clone, Copy, Debug, PartialEq, Eq, Structural)]
pub enum FileFormat {
    Text,
    Json,
    Toml,
}

/// The format of a file of a proxy chain: `json` or `toml` by its
/// extension; a file without one cannot be read, one with another is not
/// supported.
pub fn chain_file_format(extension: Option<&str>, file_path: &str) -> (r: Result<
    FileFormat,
    Error,
>)
    ensures
        match extension {
            None => r matches Err(Error::DetectProxyChainFormat { file_path: p }) && p@
                == file_path@,
            Some(ext) => if ext@ == "json"@ {
                r == Ok::<FileFormat, Error>(FileFormat::Json)
            } else if ext@ == "toml"@ {
                r == Ok::<FileFormat, Error>(FileFormat::Toml)
            } else {
                r matches Err(Error::ProxyChainFormatNotSupported { format }) && format@ == ext@
            },
        },
{
    match extension {
        None => Err(Error::DetectProxyChainFormat { file_path: String::from_str(file_path) }),
        Some(ext) => {
            if str_eq_str(ext, "json") {
                Ok(FileFormat::Json)
            } else if str_eq_str(ext, "toml") {
                Ok(FileFormat::Toml)
            } else {
                Err(Error::ProxyChainFormatNotSupported { format: String::from_str(ext) })
            }
        },
    }
}

} // verus!
