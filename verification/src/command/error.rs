//! Why a command refuses its configuration.
use vstd::prelude::*;

use crate::common::host_address::HostAddressError;

verus! {

/// Why a command could not start from its configuration and options.
#[derive(Debug)]
pub enum Error {
    NoProxyServer,
    NoSocksServiceEnabled,
    NoSocksCommandEnabled,
    NoSocksUdpPort,
    TcpBindNotSupported,
    NoProxyChain,
    NoSocksListenAddress,
    NoSocksListenPort,
    NoHttpListenAddress,
    NoHttpListenPort,
    ProxyChainFormatNotSupported { format: String },
    DetectProxyChainFormat { file_path: String },
    InvalidProxyServer { server: String },
    NoProxyHostProvided,
    NoProxyProberProvided,
    InvalidProxyProber { prober: String },
    ParseUrl { url: String, source: url::ParseError },
    ParseHostAddress { source: HostAddressError },
}

} // verus!
