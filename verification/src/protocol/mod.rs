//! Wire formats that the library speaks.
pub mod bytes;
pub mod http;
pub mod socks;
