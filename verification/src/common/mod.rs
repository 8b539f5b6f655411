//! Addresses of hosts and of proxy servers.
pub mod host_address;
pub mod proxy;
pub mod utils;

pub use self::host_address::{HostAddress, HostAddressError};

pub use self::proxy::{ProxyHost, ProxyHostError, ProxyStrategy};
