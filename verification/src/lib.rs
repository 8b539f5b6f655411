//! Proxies for TCP: reaching hosts through SOCKS and HTTP proxy servers,
//! checking proxy servers, and the configurations of the servers.
pub mod authentication;
pub mod checker;
pub mod client;
pub mod command;
pub mod common;
pub mod filter;
pub mod message;
pub mod net;
pub mod outside;
pub mod protocol;
pub mod text;
pub mod url_parts;
