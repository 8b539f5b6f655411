//! The configuration of the SOCKS proxy server.
use vstd::prelude::*;

use crate::command::server_options::{
    commands_of, strict_socks_options, strict_socks_refusal, versions_of, SocksRefusal, SocksServerOptions,
};
use crate::command::Error;
use crate::net::{IpAddress, Ipv4Address};

verus! {

/// Options of the SOCKS server given on the command line; each overrides
/// the configuration where given.
#[derive(Clone, Debug)]
pub struct Options {
    pub ip: Option<IpAddress>,
    pub port: Option<u16>,
    pub disable_socks4a: Option<bool>,
    pub disable_socks5: Option<bool>,
    pub enable_tcp_connect: Option<bool>,
    pub enable_tcp_bind: Option<bool>,
    pub enable_udp_associate: Option<bool>,
    pub udp_ports: Option<Vec<u16>>,
    pub connection_timeout: Option<u64>,
}

/// The configuration of the SOCKS server.
#[derive(Clone, Debug)]
pub struct Config {
    pub disable_socks4a: bool,
    pub disable_socks5: bool,
    pub enable_tcp_connect: bool,
    pub enable_tcp_bind: bool,
    pub enable_udp_associate: bool,
    pub connection_timeout: u64,
    pub ip: IpAddress,
    pub port: u16,
    pub udp_ports: Vec<u16>,
}

impl Default for Config {
    /// Both versions, TCP connect and UDP associate on port 3129, listening
    /// on `127.0.0.1:3128`, connections timing out after 20 s.
    fn default() -> (r: Config)
        ensures
            !r.disable_socks4a && !r.disable_socks5,
            r.enable_tcp_connect && !r.enable_tcp_bind && r.enable_udp_associate,
            r.connection_timeout == 20,
            r.ip == IpAddress::V4(Ipv4Address(127, 0, 0, 1)),
            r.port == 3128,
            r.udp_ports@ == seq![3129u16],
    {
        let mut udp_ports: Vec<u16> = Vec::new();
        udp_ports.push(3129);
        Config {
            disable_socks4a: false,
            disable_socks5: false,
            enable_tcp_connect: true,
            enable_tcp_bind: false,
            enable_udp_associate: true,
            connection_timeout: 20,
            ip: IpAddress::V4(Ipv4Address(127, 0, 0, 1)),
            port: 3128,
            udp_ports,
        }
    }
}

/// A field of the configuration with the option in its place, where given.
pub open spec fn merged<T>(field: T, opt: Option<T>) -> T {
    match opt {
        Some(v) => v,
        None => field,
    }
}

/// The error of the configuration for a refusal of the strict rule.
pub open spec fn config_error_is(e: SocksRefusal, err: Error) -> bool {
    match e {
        SocksRefusal::NoVersion => err is NoSocksServiceEnabled,
        SocksRefusal::NoUdpPort => err is NoSocksUdpPort,
        SocksRefusal::NoCommand => err is NoSocksCommandEnabled,
    }
}

impl Config {
    /// The configuration with the options given on the command line in
    /// place of its fields.
    pub fn merge(self, opts: Options) -> (r: Config)
        ensures
            r.disable_socks4a == merged(self.disable_socks4a, opts.disable_socks4a),
            r.disable_socks5 == merged(self.disable_socks5, opts.disable_socks5),
            r.enable_tcp_connect == merged(self.enable_tcp_connect, opts.enable_tcp_connect),
            r.enable_tcp_bind == merged(self.enable_tcp_bind, opts.enable_tcp_bind),
            r.enable_udp_associate == merged(self.enable_udp_associate, opts.enable_udp_associate),
            r.connection_timeout == merged(self.connection_timeout, opts.connection_timeout),
            r.ip == merged(self.ip, opts.ip),
            r.port == merged(self.port, opts.port),
            r.udp_ports == merged(self.udp_ports, opts.udp_ports),
    {
        let mut c = self;
        let Options {
            ip,
            port,
            disable_socks4a,
            disable_socks5,
            enable_tcp_connect,
            enable_tcp_bind,
            enable_udp_associate,
            udp_ports,
            connection_timeout,
        } = opts;
        if let Some(v) = disable_socks4a {
            c.disable_socks4a = v;
        }
        if let Some(v) = disable_socks5 {
            c.disable_socks5 = v;
        }
        if let Some(v) = enable_tcp_connect {
            c.enable_tcp_connect = v;
        }
        if let Some(v) = enable_tcp_bind {
            c.enable_tcp_bind = v;
        }
        if let Some(v) = enable_udp_associate {
            c.enable_udp_associate = v;
        }
        if let Some(v) = connection_timeout {
            c.connection_timeout = v;
        }
        if let Some(v) = ip {
            c.ip = v;
        }
        if let Some(v) = port {
            c.port = v;
        }
        if let Some(v) = udp_ports {
            c.udp_ports = v;
        }
        c
    }

    /// The server options by the strict rule.
    pub fn try_into(self) -> (r: Result<SocksServerOptions, Error>)
        ensures
            match strict_socks_refusal(
                self.disable_socks4a,
                self.disable_socks5,
                self.enable_tcp_connect,
                self.enable_tcp_bind,
                self.enable_udp_associate,
                self.udp_ports@.len() > 0,
            ) {
                Some(e) => r matches Err(err) && config_error_is(e, err),
                None => r is Ok,
            },
            r matches Ok(o) ==> o.listen_address == self.ip && o.listen_port == self.port
                && o.connection_timeout@ == self.connection_timeout * 1_000_000_000
                && o.udp_ports@ == self.udp_ports@.to_set(),
            r matches Ok(o) ==> o.supported_versions@ == versions_of(
                !self.disable_socks4a,
                !self.disable_socks5,
            ) && o.supported_commands@ == commands_of(
                self.enable_tcp_connect,
                self.enable_udp_associate,
                self.enable_tcp_bind,
            ) && o.udp_cache_expiry_duration@ == 30_000_000
                && o.tcp_keepalive@ == 5_000_000_000 && o.well_formed(),
    {
        match strict_socks_options(
            self.disable_socks4a,
            self.disable_socks5,
            self.enable_tcp_connect,
            self.enable_tcp_bind,
            self.enable_udp_associate,
            self.connection_timeout,
            self.ip,
            self.port,
            self.udp_ports.as_slice(),
        ) {
            Ok(o) => Ok(o),
            Err(SocksRefusal::NoVersion) => Err(Error::NoSocksServiceEnabled),
            Err(SocksRefusal::NoUdpPort) => Err(Error::NoSocksUdpPort),
            Err(SocksRefusal::NoCommand) => Err(Error::NoSocksCommandEnabled),
        }
    }
}

} // verus!
