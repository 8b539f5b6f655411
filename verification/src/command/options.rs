//! Options of the SOCKS and HTTP servers given on the command line.
use vstd::prelude::*;

use crate::command::server_options::{
    commands_of, strict_socks_options, strict_socks_refusal, versions_of, HttpServerOptions, SocksRefusal,
    SocksServerOptions,
};
use crate::net::IpAddress;

verus! {

/// Options of a SOCKS server.
#[derive(Debug)]
pub struct SocksOptions {
    pub disable_socks4a: bool,
    pub disable_socks5: bool,
    pub enable_tcp_connect: bool,
    pub enable_tcp_bind: bool,
    pub enable_udp_associate: bool,
    pub connection_timeout: u64,
    pub ip: IpAddress,
    pub port: u16,
    pub udp_ports: Vec<u16>,
}

/// Why SOCKS options are refused.
#[derive(Clone, Copy, Debug, PartialEq, Eq, Structural)]
pub enum Error {
    NoSocksServiceEnabled,
    NoUdpPortProvided,
    TcpBindNotSupported,
    NoSocksCommandEnabled,
}

/// The error of the options for a refusal of the strict rule.
pub open spec fn options_error(e: SocksRefusal) -> Error {
    match e {
        SocksRefusal::NoVersion => Error::NoSocksServiceEnabled,
        SocksRefusal::NoUdpPort => Error::NoUdpPortProvided,
        SocksRefusal::NoCommand => Error::NoSocksCommandEnabled,
    }
}

impl SocksOptions {
    /// The server options by the strict rule.
    pub fn try_into(self) -> (r: Result<SocksServerOptions, Error>)
        ensures
            match strict_socks_refusal(
                self.disable_socks4a,
                self.disable_socks5,
                self.enable_tcp_connect,
                self.enable_tcp_bind,
                self.enable_udp_associate,
                self.udp_ports@.len() > 0,
            ) {
                Some(e) => r == Err::<SocksServerOptions, Error>(options_error(e)),
                None => r is Ok,
            },
            r matches Ok(o) ==> o.listen_address == self.ip && o.listen_port == self.port
                && o.connection_timeout@ == self.connection_timeout * 1_000_000_000
                && o.udp_ports@ == self.udp_ports@.to_set(),
            r matches Ok(o) ==> o.supported_versions@ == versions_of(
                !self.disable_socks4a,
                !self.disable_socks5,
            ) && o.supported_commands@ == commands_of(
                self.enable_tcp_connect,
                self.enable_udp_associate,
                self.enable_tcp_bind,
            ) && o.udp_cache_expiry_duration@ == 30_000_000
                && o.tcp_keepalive@ == 5_000_000_000 && o.well_formed(),
    {
        match strict_socks_options(
            self.disable_socks4a,
            self.disable_socks5,
            self.enable_tcp_connect,
            self.enable_tcp_bind,
            self.enable_udp_associate,
            self.connection_timeout,
            self.ip,
            self.port,
            self.udp_ports.as_slice(),
        ) {
            Ok(o) => Ok(o),
            Err(SocksRefusal::NoVersion) => Err(Error::NoSocksServiceEnabled),
            Err(SocksRefusal::NoUdpPort) => Err(Error::NoUdpPortProvided),
            Err(SocksRefusal::NoCommand) => Err(Error::NoSocksCommandEnabled),
        }
    }
}

/// Options of an HTTP server.
#[derive(Clone, Copy, Debug, PartialEq, Eq, Structural)]
pub struct HttpOptions {
    pub ip: IpAddress,
    pub port: u16,
}

impl HttpOptions {
    /// The server options: listen on the address and port given.
    pub fn into(self) -> (r: HttpServerOptions)
        ensures
            r.listen_address == self.ip,
            r.listen_port == self.port,
    {
        HttpServerOptions { listen_address: self.ip, listen_port: self.port }
    }
}

/// Options of the proxy checker given on the command line.
#[derive(Clone, Copy, Debug, PartialEq, Eq, Structural)]
pub struct ProxyCheckerOptions {}

/// Options of the proxy chain given on the command line.
#[derive(Clone, Copy, Debug, PartialEq, Eq, Structural)]
pub struct ProxyChainOptions {}

} // verus!
