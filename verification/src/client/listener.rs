//! Listeners for connections that arrive through a proxy.
use vstd::prelude::*;

use crate::client::Error;

verus! {

/// A listener for connections that a proxy forwards.
#[derive(Debug)]
pub struct ProxyListener {}

impl ProxyListener {
    /// A new listener.
    pub fn new() -> (r: ProxyListener) {
        ProxyListener {  }
    }
}

impl Default for ProxyListener {
    fn default() -> (r: ProxyListener) {
        ProxyListener {  }
    }
}

/// A listener for connections that a SOCKS5 proxy binds for us.
#[derive(Debug)]
pub struct Socks5Listener {}

impl Socks5Listener {
    /// A new listener; it is always made.
    pub fn new() -> (r: Result<Socks5Listener, Error>)
        ensures
            r is Ok,
    {
        Ok(Socks5Listener {  })
    }
}

} // verus!
