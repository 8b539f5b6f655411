//! The HTTP tunnel handshake: a `CONNECT` request, then the head of the
//! proxy's response.
use vstd::prelude::*;

use crate::client::handshake::Error;
use crate::common::host_address::{host_address_text, HostAddress, HostAddressView};
use crate::protocol::http::{parse_response_head, parsed_response_head, HttpHead, HttpParseError};
use crate::text::{push_str, string_of};

verus! {

/// The room the response head is first read into.
pub const INITIAL_BUF_SIZE: usize = 128;

/// The room added each time the head has not been read whole.
pub const BUF_ADDITIONAL_SIZE: usize = 128;

/// The most room the response head may take.
pub const MAX_BUF_SIZE: usize = 512;

/// The request that asks the proxy for a tunnel to `target`:
/// `CONNECT host HTTP/1.1`, a `Host` header, a `User-Agent` header where one
/// is given, and an empty line, each line ended by CR LF.
pub open spec fn tunnel_request_text(target: HostAddressView, user_agent: Option<Seq<char>>) -> Seq<
    char,
> {
    let host = host_address_text(target);
    "CONNECT "@ + host + " HTTP/1.1\r\n"@ + "Host: "@ + host + "\r\n"@ + match user_agent {
        Some(ua) => "User-Agent: "@ + ua + "\r\n"@,
        None => Seq::empty(),
    } + "\r\n"@
}

/// Writes the request that asks the proxy for a tunnel to `target`.
pub fn tunnel_request(target: &HostAddress, user_agent: Option<&str>) -> (r: String)
    ensures
        r@ == tunnel_request_text(
            target@,
            match user_agent {
                Some(ua) => Some(ua@),
                None => None,
            },
        ),
{
    let host = target.to_string();
    let mut out: Vec<char> = Vec::new();
    push_str(&mut out, "CONNECT ");
    push_str(&mut out, host.as_str());
    push_str(&mut out, " HTTP/1.1\r\n");
    push_str(&mut out, "Host: ");
    push_str(&mut out, host.as_str());
    push_str(&mut out, "\r\n");
    let ghost before_ua = out@;
    if let Some(ua) = user_agent {
        push_str(&mut out, "User-Agent: ");
        push_str(&mut out, ua);
        push_str(&mut out, "\r\n");
    }
    push_str(&mut out, "\r\n");
    let ghost ua_view = match user_agent {
        Some(ua) => Some(ua@),
        None => None,
    };
    assert(out@ =~= tunnel_request_text(target@, ua_view));
    string_of(out.as_slice())
}

/// The status of the response's head as `httparse` read it: refused, it is
/// an error; not whole, none; whole, its status code (a head without one is
/// an error).
pub fn head_status(head: Result<HttpHead, HttpParseError>) -> (r: Result<Option<u16>, Error>)
    ensures
        match head {
            Err(e) => r matches Err(Error::ParseHttpResponse { source }) && source == e,
            Ok(HttpHead::Partial) => r matches Ok(None),
            Ok(HttpHead::Complete { code: Some(c), .. }) => r matches Ok(Some(x)) && x == c,
            Ok(HttpHead::Complete { code: None, .. }) => r matches Err(Error::NoHttpResponseCode),
        },
{
    match head {
        Err(source) => Err(Error::ParseHttpResponse { source }),
        Ok(HttpHead::Partial) => Ok(None),
        Ok(HttpHead::Complete { code, .. }) => match code {
            Some(c) => Ok(Some(c)),
            None => Err(Error::NoHttpResponseCode),
        },
    }
}

/// Reads the head of the proxy's response from the start of `buf`; where it
/// is whole, its bytes are taken out of `buf` and its status code is given.
/// None where more bytes are needed.
pub fn parse_header(buf: &mut Vec<u8>) -> (r: Result<Option<u16>, Error>)
    ensures
        match parsed_response_head(old(buf)@) {
            Err(e) => r matches Err(Error::ParseHttpResponse { source }) && source == e
                && final(buf)@ == old(buf)@,
            Ok(HttpHead::Partial) => r matches Ok(None) && final(buf)@ == old(buf)@,
            Ok(HttpHead::Complete { len, code }) => code is Some && r == Ok::<
                Option<u16>,
                Error,
            >(code) && final(buf)@ == old(buf)@.skip(len as int),
        },
{
    let head = parse_response_head(buf.as_slice());
    if let Ok(HttpHead::Complete { len, .. }) = head {
        let mut rest: Vec<u8> = Vec::new();
        let mut i: usize = len;
        while i < buf.len()
            invariant
                len <= i <= buf@.len(),
                rest@ == buf@.subrange(len as int, i as int),
            decreases buf@.len() - i,
        {
            rest.push(buf[i]);
            i = i + 1;
            assert(rest@ =~= buf@.subrange(len as int, i as int));
        }
        assert(rest@ =~= buf@.skip(len as int));
        *buf = rest;
    }
    head_status(head)
}

/// The end of the tunnel handshake once the head is read: status 200 opens
/// the tunnel, any other status means the host cannot be reached.
pub open spec fn tunnel_opened(status_code: u16) -> bool {
    status_code == 200
}

/// What to do after a read of the proxy's response.
#[derive(Debug)]
pub enum TunnelProgress {
    /// The head is not whole yet: make `reserve` more bytes of room and read
    /// again.
    ReadMore { reserve: usize },
    /// The handshake is over.
    Finished { result: Result<(), Error> },
}

/// The room to add when the head is not whole and the buffer has room for
/// `capacity` bytes: 128 more, but never past 512; none once 512 is reached.
pub open spec fn room_to_add(capacity: nat) -> Option<nat> {
    if capacity < MAX_BUF_SIZE {
        Some(
            if BUF_ADDITIONAL_SIZE <= MAX_BUF_SIZE - capacity {
                BUF_ADDITIONAL_SIZE as nat
            } else {
                (MAX_BUF_SIZE - capacity) as nat
            },
        )
    } else {
        None
    }
}

/// How the tunnel handshake goes on from what the head said, when the
/// buffer has room for `capacity` bytes: an error ends it; a head that is
/// not whole asks for more room until 512 bytes, then fails as too large;
/// a status ends it by [`tunnel_opened`].
pub fn tunnel_progress(status: Result<Option<u16>, Error>, capacity: usize) -> (r: TunnelProgress)
    ensures
        match status {
            Err(e) => r == (TunnelProgress::Finished { result: Err(e) }),
            Ok(None) => match room_to_add(capacity as nat) {
                Some(n) => r == (TunnelProgress::ReadMore { reserve: n as usize }),
                None => r matches TunnelProgress::Finished {
                    result: Err(Error::HttpResponseTooLarge),
                },
            },
            Ok(Some(c)) => if tunnel_opened(c) {
                r matches TunnelProgress::Finished { result: Ok(()) }
            } else {
                r matches TunnelProgress::Finished { result: Err(Error::HostUnreachable) }
            },
        },
{
    match status {
        Err(e) => TunnelProgress::Finished { result: Err(e) },
        Ok(None) => {
            if capacity < MAX_BUF_SIZE {
                let room = MAX_BUF_SIZE - capacity;
                let reserve = if BUF_ADDITIONAL_SIZE <= room {
                    BUF_ADDITIONAL_SIZE
                } else {
                    room
                };
                TunnelProgress::ReadMore { reserve }
            } else {
                TunnelProgress::Finished { result: Err(Error::HttpResponseTooLarge) }
            }
        },
        Ok(Some(status_code)) => {
            if status_code == 200 {
                TunnelProgress::Finished { result: Ok(()) }
            } else {
                TunnelProgress::Finished { result: Err(Error::HostUnreachable) }
            }
        },
    }
}

/// How the tunnel handshake goes on from the head `httparse` read, when the
/// buffer has room for `capacity` bytes: a head that cannot be parsed
/// fails; one that is not whole asks for more room until 512 bytes, then
/// fails as too large; a whole one ends the handshake by its status.
pub open spec fn progress_of(head: Result<HttpHead, HttpParseError>, capacity: nat, r: TunnelProgress) -> bool {
    match head {
        Err(e) => r matches TunnelProgress::Finished {
            result: Err(Error::ParseHttpResponse { source }),
        } && source == e,
        Ok(HttpHead::Partial) => match room_to_add(capacity) {
            Some(n) => r == (TunnelProgress::ReadMore { reserve: n as usize }),
            None => r matches TunnelProgress::Finished { result: Err(Error::HttpResponseTooLarge) },
        },
        Ok(HttpHead::Complete { code, .. }) => code matches Some(c) && if tunnel_opened(c) {
            r matches TunnelProgress::Finished { result: Ok(()) }
        } else {
            r matches TunnelProgress::Finished { result: Err(Error::HostUnreachable) }
        },
    }
}

/// Decides, after a read into `buf` (whose room is `capacity` bytes), how
/// the tunnel handshake goes on, by [`progress_of`].
/// A head that is not whole leaves `buf` as it was.
pub fn tunnel_response(buf: &mut Vec<u8>, capacity: usize) -> (r: TunnelProgress)
    ensures
        progress_of(parsed_response_head(old(buf)@), capacity as nat, r),
        parsed_response_head(old(buf)@) matches Ok(HttpHead::Partial) ==> final(buf)@ == old(buf)@,
{
    let status = parse_header(buf);
    tunnel_progress(status, capacity)
}

/// The reading of the proxy's response head: the room the buffer has, of
/// which the bytes read take the first part.
#[derive(Debug)]
pub struct TunnelReader {
    pub room: usize,
}

/// The room after `reserve` more bytes are asked for with `len` bytes read,
/// as `reserve` on a buffer does it at the least: unchanged where the room
/// left already holds them, else just enough.
pub open spec fn room_after(room: nat, len: nat, reserve: nat) -> nat {
    if len + reserve <= room {
        room
    } else {
        len + reserve
    }
}

impl TunnelReader {
    /// A reading that starts with room for 128 bytes.
    pub fn new() -> (r: TunnelReader)
        ensures
            r.room == INITIAL_BUF_SIZE,
    {
        TunnelReader { room: INITIAL_BUF_SIZE }
    }

    /// Decides, after a read into `buf`, how the tunnel handshake goes on,
    /// by [`progress_of`] with the room the buffer has; more room asked for
    /// is made by [`room_after`], and the bytes read so far are kept.
    pub fn step(&mut self, buf: &mut Vec<u8>) -> (r: TunnelProgress)
        requires
            old(buf)@.len() <= old(self).room,
        ensures
            progress_of(parsed_response_head(old(buf)@), old(self).room as nat, r),
            match r {
                TunnelProgress::ReadMore { reserve } => final(self).room == room_after(
                    old(self).room as nat,
                    old(buf)@.len(),
                    reserve as nat,
                ) && final(buf)@ == old(buf)@,
                TunnelProgress::Finished { .. } => final(self).room == old(self).room,
            },
    {
        let len = buf.len();
        let r = tunnel_response(buf, self.room);
        if let TunnelProgress::ReadMore { reserve } = r {
            if self.room - len < reserve {
                self.room = len + reserve;
            }
        }
        r
    }
}

/// A read that asks for more room never shrinks the room, keeps it within
/// 512 bytes, and always leaves room for more bytes; at 512 bytes a head
/// that is not whole ends the handshake. So a stream that keeps sending
/// bytes ends the handshake after finitely many reads.
pub proof fn law_tunnel_reader_grows(
    head: Result<HttpHead, HttpParseError>,
    room: nat,
    len: nat,
    r: TunnelProgress,
)
    requires
        progress_of(head, room, r),
        len <= room,
    ensures
        r matches TunnelProgress::ReadMore { reserve } ==> reserve > 0 && room <= room_after(
            room,
            len,
            reserve as nat,
        ) <= MAX_BUF_SIZE && len < room_after(room, len, reserve as nat),
        room >= MAX_BUF_SIZE ==> r is Finished,
{
}

/// The room asked for keeps the buffer within 512 bytes and always grows
/// it, so a head that never completes is given up after finitely many reads.
pub proof fn law_tunnel_room_bounded(capacity: nat)
    ensures
        room_to_add(capacity) matches Some(n) ==> n > 0 && capacity + n <= MAX_BUF_SIZE,
        room_to_add(capacity) is None <==> capacity >= MAX_BUF_SIZE,
{
}

/// Starting from the initial room, the buffer grows by 128 bytes three
/// times and then the head is given up as too large.
pub proof fn law_tunnel_room_steps()
    ensures
        room_to_add(INITIAL_BUF_SIZE as nat) == Some(128nat),
        room_to_add(256) == Some(128nat),
        room_to_add(384) == Some(128nat),
        room_to_add(512) is None,
{
}

} // verus!
