//! The configuration of the HTTP proxy server.
use vstd::prelude::*;

use crate::command::server_options::HttpServerOptions;
use crate::net::{IpAddress, Ipv4Address};

verus! {

/// Options of the HTTP server given on the command line; each overrides
/// the configuration where given.
#[derive(Clone, Copy, Debug, PartialEq, Eq, Structural)]
pub struct Options {
    pub ip: Option<IpAddress>,
    pub port: Option<u16>,
}

/// The configuration of the HTTP server.
#[derive(Clone, Copy, Debug, PartialEq, Eq, Structural)]
pub struct Config {
    pub ip: IpAddress,
    pub port: u16,
}

impl Default for Config {
    /// `127.0.0.1:8118`.
    fn default() -> (r: Config)
        ensures
            r.ip == IpAddress::V4(Ipv4Address(127, 0, 0, 1)),
            r.port == 8118,
    {
        Config { ip: IpAddress::V4(Ipv4Address(127, 0, 0, 1)), port: 8118 }
    }
}

impl Config {
    /// The configuration with the options given on the command line in
    /// place of its fields.
    pub fn merge(self, opts: Options) -> (r: Config)
        ensures
            r.ip == match opts.ip {
                Some(ip) => ip,
                None => self.ip,
            },
            r.port == match opts.port {
                Some(p) => p,
                None => self.port,
            },
    {
        let mut c = self;
        if let Some(ip) = opts.ip {
            c.ip = ip;
        }
        if let Some(port) = opts.port {
            c.port = port;
        }
        c
    }

    /// The server options: listen on the address and port configured.
    pub fn into(self) -> (r: HttpServerOptions)
        ensures
            r.listen_address == self.ip,
            r.listen_port == self.port,
    {
        HttpServerOptions { listen_address: self.ip, listen_port: self.port }
    }
}

} // verus!
