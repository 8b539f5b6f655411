//! Asking a proxy server to open a connection to a host.
use vstd::prelude::*;

pub mod error;
pub mod http;
pub mod socks_v4;
pub mod socks_v5;

pub use self::error::Error;

verus! {

/// A stream on which a handshake with a proxy is made.
pub struct ClientHandshake<Stream> {
    stream: Stream,
}

impl<Stream> ClientHandshake<Stream> {
    /// The stream the handshake runs on.
    pub closed spec fn stream_spec(&self) -> Stream {
        self.stream
    }

    /// A handshake on `stream`.
    pub fn new(stream: Stream) -> (r: Self)
        ensures
            r.stream_spec() == stream,
    {
        ClientHandshake { stream }
    }

    /// The stream, handed back.
    pub fn into_inner(self) -> (r: Stream)
        ensures
            r == self.stream_spec(),
    {
        self.stream
    }

    /// The stream, borrowed.
    pub fn as_ref(&self) -> (r: &Stream)
        ensures
            *r == self.stream_spec(),
    {
        &self.stream
    }
}

} // verus!
