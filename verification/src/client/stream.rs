//! A connection made through proxies, with the strategy it was made by.
use std::sync::Arc;
use vstd::prelude::*;

use crate::common::proxy::{ProxyStrategy, ProxyStrategyView};

verus! {

/// A socket connected to a host through the proxies of a strategy.
#[derive(Debug)]
pub struct ProxyStream<Socket> {
    socket: Socket,
    strategy: Arc<ProxyStrategy>,
}

impl<Socket> ProxyStream<Socket> {
    pub closed spec fn socket_spec(&self) -> Socket {
        self.socket
    }

    pub closed spec fn strategy_spec(&self) -> ProxyStrategyView {
        (*self.strategy)@
    }

    /// The stream of a socket connected by `strategy`.
    pub fn from_raw(socket: Socket, strategy: Arc<ProxyStrategy>) -> (r: Self)
        ensures
            r.socket_spec() == socket,
            r.strategy_spec() == (*strategy)@,
    {
        ProxyStream { socket, strategy }
    }

    /// The socket, handed back.
    pub fn into_inner(self) -> (r: Socket)
        ensures
            r == self.socket_spec(),
    {
        self.socket
    }

    /// The strategy the connection was made by.
    pub fn proxy_strategy(&self) -> (r: &ProxyStrategy)
        ensures
            r@ == self.strategy_spec(),
    {
        &*self.strategy
    }

    /// The socket, borrowed.
    pub fn as_ref(&self) -> (r: &Socket)
        ensures
            *r == self.socket_spec(),
    {
        &self.socket
    }

    /// The socket, borrowed to be used.
    pub fn as_mut(&mut self) -> (r: &mut Socket)
        ensures
            *r == old(self).socket_spec(),
            final(self).socket_spec() == *final(r),
            final(self).strategy_spec() == old(self).strategy_spec(),
    {
        &mut self.socket
    }
}

} // verus!
