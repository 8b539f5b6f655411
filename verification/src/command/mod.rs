//! The commands of the program: the rules that turn configurations and
//! options into what servers and checkers are started with.
pub mod error;
pub mod http_server;
pub mod multi_proxy;
pub mod options;
pub mod proxy_chain;
pub mod proxy_checker;
pub mod server_options;
pub mod settings;
pub mod socks_server;

pub use self::error::Error;
