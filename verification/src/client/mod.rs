//! The client side: reaching hosts through proxy servers.
pub mod connector;
pub mod error;
pub mod handshake;
pub mod listener;
pub mod stream;

pub use self::connector::ProxyConnector;
pub use self::error::Error;
pub use self::handshake::ClientHandshake;
pub use self::listener::{ProxyListener, Socks5Listener};
pub use self::stream::ProxyStream;
