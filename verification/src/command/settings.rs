//! Settings of the SOCKS servers as a settings file holds them.
use vstd::prelude::*;

verus! {

/// A SOCKS server and the settings of each version it serves.
#[derive(Debug, Clone)]
pub struct SocksServer {
    pub tcp_ip: String,
    pub tcp_port: u16,
    pub udp_ip: u16,
    pub udp_ports: Vec<u16>,
    pub enable_socks4a: bool,
    pub enable_socks5: bool,
    pub socks4_server_config: Option<Socks4Server>,
    pub socks5_server_config: Option<Socks5Server>,
}

/// The commands a SOCKS4a server serves.
#[derive(Debug, Clone, Copy, PartialEq, Eq, Structural)]
pub struct Socks4Server {
    pub enable_tcp_connect: bool,
    pub enable_tcp_bind: bool,
}

/// The commands a SOCKS5 server serves, and how its users authenticate.
#[derive(Debug, Clone)]
pub struct Socks5Server {
    pub enable_tcp_connect: bool,
    pub enable_tcp_bind: bool,
    pub enable_udp_associate: bool,
    pub authentication_method: String,
    pub authentication_list_file_path: Option<String>,
}

} // verus!
