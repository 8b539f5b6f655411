//! IP addresses and socket addresses: their values, their text forms, and
//! the reading of those text forms.
use vstd::prelude::*;

use crate::text::{dec_run, dec_text, dec_value, hex_run, hex_text, hex_value, push_dec, push_hex, read_dec_bounded, read_hex4, string_of, lemma_dec_text, lemma_hex_text, lemma_dec_text_value, lemma_hex_text_value, lemma_dec_run_exact, lemma_hex_run_exact, lemma_dec_run_le, is_dec_digit, is_hex_digit};

verus! {

/// An IPv4 address, as its four octets.
#[derive(Clone, Copy, Debug, PartialEq, Eq, Hash, Structural)]
pub struct Ipv4Address(pub u8, pub u8, pub u8, pub u8);

/// An IPv6 address, as its eight 16-bit segments.
#[derive(Clone, Copy, Debug, PartialEq, Eq, Hash, Structural)]
pub struct Ipv6Address(pub u16, pub u16, pub u16, pub u16, pub u16, pub u16, pub u16, pub u16);

/// An IP address of either version.
#[derive(Clone, Copy, Debug, PartialEq, Eq, Hash, Structural)]
pub enum IpAddress {
    V4(Ipv4Address),
    V6(Ipv6Address),
}

/// A socket address: an IP address and a port, and for IPv6 the flow
/// information and scope identifier.
#[derive(Clone, Copy, Debug, PartialEq, Eq, Hash, Structural)]
pub enum SocketAddress {
    V4 { ip: Ipv4Address, port: u16 },
    V6 { ip: Ipv6Address, port: u16, flowinfo: u32, scope_id: u32 },
}

impl Ipv6Address {
    pub open spec fn segments(self) -> Seq<u16> {
        seq![self.0, self.1, self.2, self.3, self.4, self.5, self.6, self.7]
    }
}

/// The address whose segments are the eight values of `s`.
pub open spec fn ipv6_from_segments(s: Seq<u16>) -> Ipv6Address {
    Ipv6Address(s[0], s[1], s[2], s[3], s[4], s[5], s[6], s[7])
}

pub open spec fn seq_zeros(n: nat) -> Seq<u16> {
    Seq::new(n, |i: int| 0u16)
}

// ---------------------------------------------------------------------------
// Reading text. Each reader starts at position `i` of `s` and gives the value
// read and the position after it; a whole text is accepted where a reader
// ends at the end of the text.
// ---------------------------------------------------------------------------

/// A decimal octet: one to three digits, no leading zero, at most 255; the
/// whole run of digits at `i` is taken.
pub open spec fn read_octet(s: Seq<char>, i: int) -> Option<(u8, int)> {
    let n = dec_run(s, i);
    if n == 0 || n > 3 || (n > 1 && s[i] == '0') || dec_value(s, i, n) > 255 {
        None
    } else {
        Some((dec_value(s, i, n) as u8, i + n))
    }
}

/// A '.' followed by an octet.
pub open spec fn read_dot_octet(s: Seq<char>, i: int) -> Option<(u8, int)> {
    if 0 <= i < s.len() && s[i] == '.' {
        read_octet(s, i + 1)
    } else {
        None
    }
}

/// An IPv4 address in dotted-decimal form.
pub open spec fn read_ipv4(s: Seq<char>, i: int) -> Option<(Ipv4Address, int)> {
    match read_octet(s, i) {
        None => None,
        Some((a, i1)) => match read_dot_octet(s, i1) {
            None => None,
            Some((b, i2)) => match read_dot_octet(s, i2) {
                None => None,
                Some((c, i3)) => match read_dot_octet(s, i3) {
                    None => None,
                    Some((d, i4)) => Some((Ipv4Address(a, b, c, d), i4)),
                },
            },
        },
    }
}

/// A group of one to four hexadecimal digits; the whole run of digits is taken.
pub open spec fn read_hex_group(s: Seq<char>, i: int) -> Option<(u16, int)> {
    let n = hex_run(s, i);
    if n == 0 || n > 4 {
        None
    } else {
        Some((hex_value(s, i, n) as u16, i + n))
    }
}

/// The two segments that an embedded IPv4 address stands for.
pub open spec fn ipv4_segments(a: Ipv4Address) -> Seq<u16> {
    seq![(a.0 as int * 256 + a.1 as int) as u16, (a.2 as int * 256 + a.3 as int) as u16]
}

/// Reads groups for the slots `k .. limit` of a colon-separated list, from
/// position `i`: every group but the first is preceded by ':'; where at least
/// two slots are left, an embedded IPv4 address may stand for two groups and
/// ends the list. The list ends at the first slot that cannot be read, with
/// the position before that slot's separator. Gives the groups, the end
/// position, and whether an IPv4 address ended the list.
pub open spec fn read_groups(s: Seq<char>, i: int, k: nat, limit: nat) -> (Seq<u16>, int, bool)
    decreases limit - k,
{
    if k >= limit {
        (seq![], i, false)
    } else {
        let j = if k == 0 {
            i
        } else if 0 <= i < s.len() && s[i] == ':' {
            i + 1
        } else {
            -1
        };
        if j < 0 {
            (seq![], i, false)
        } else if k + 1 < limit && read_ipv4(s, j) is Some {
            let (a, e) = read_ipv4(s, j).unwrap();
            (ipv4_segments(a), e, true)
        } else {
            match read_hex_group(s, j) {
                None => (seq![], i, false),
                Some((g, e)) => {
                    let rest = read_groups(s, e, k + 1, limit);
                    (seq![g] + rest.0, rest.1, rest.2)
                },
            }
        }
    }
}

/// An IPv6 address: either eight groups, or a head of groups, "::" standing
/// for at least one zero group, and a tail of groups. An embedded IPv4 address
/// may end the whole address but not the head before "::".
#[verifier::opaque]
pub open spec fn read_ipv6(s: Seq<char>, i: int) -> Option<(Ipv6Address, int)> {
    let (head, h_end, h_v4) = read_groups(s, i, 0, 8);
    if head.len() == 8 {
        Some((ipv6_from_segments(head), h_end))
    } else if h_v4 {
        None
    } else if 0 <= h_end && h_end + 1 < s.len() && s[h_end] == ':' && s[h_end + 1] == ':' {
        let limit = (8 - (head.len() + 1)) as nat;
        let (tail, t_end, t_v4) = read_groups(s, h_end + 2, 0, limit);
        Some(
            (
                ipv6_from_segments(head + seq_zeros((8 - head.len() - tail.len()) as nat) + tail),
                t_end,
            ),
        )
    } else {
        None
    }
}

/// A decimal number of any number of digits that fits in `max`.
pub open spec fn read_dec_upto(s: Seq<char>, i: int, max: nat) -> Option<(nat, int)> {
    let n = dec_run(s, i);
    if n == 0 || dec_value(s, i, n) > max {
        None
    } else {
        Some((dec_value(s, i, n), i + n))
    }
}

/// A ':' followed by a port number.
pub open spec fn read_port(s: Seq<char>, i: int) -> Option<(u16, int)> {
    if 0 <= i < s.len() && s[i] == ':' {
        match read_dec_upto(s, i + 1, 65535) {
            Some((v, e)) => Some((v as u16, e)),
            None => None,
        }
    } else {
        None
    }
}

/// An optional '%' followed by a scope identifier; zero where there is none.
pub open spec fn read_scope(s: Seq<char>, i: int) -> (u32, int) {
    if 0 <= i < s.len() && s[i] == '%' && read_dec_upto(s, i + 1, 0xffff_ffff) is Some {
        let (v, e) = read_dec_upto(s, i + 1, 0xffff_ffff).unwrap();
        (v as u32, e)
    } else {
        (0, i)
    }
}

pub open spec fn read_socket_v4(s: Seq<char>, i: int) -> Option<(SocketAddress, int)> {
    match read_ipv4(s, i) {
        None => None,
        Some((ip, e)) => match read_port(s, e) {
            None => None,
            Some((port, e2)) => Some((SocketAddress::V4 { ip, port }, e2)),
        },
    }
}

pub open spec fn read_socket_v6(s: Seq<char>, i: int) -> Option<(SocketAddress, int)> {
    if 0 <= i < s.len() && s[i] == '[' {
        match read_ipv6(s, i + 1) {
            None => None,
            Some((ip, e)) => {
                let (scope_id, e1) = read_scope(s, e);
                if 0 <= e1 < s.len() && s[e1] == ']' {
                    match read_port(s, e1 + 1) {
                        None => None,
                        Some((port, e2)) => Some(
                            (SocketAddress::V6 { ip, port, flowinfo: 0, scope_id }, e2),
                        ),
                    }
                } else {
                    None
                }
            },
        }
    } else {
        None
    }
}

/// The IPv4 address that the whole of `s` writes, if any.
pub open spec fn parse_ipv4_text(s: Seq<char>) -> Option<Ipv4Address> {
    match read_ipv4(s, 0) {
        Some((a, e)) => if e == s.len() {
            Some(a)
        } else {
            None
        },
        None => None,
    }
}

/// The IPv6 address that the whole of `s` writes, if any.
pub open spec fn parse_ipv6_text(s: Seq<char>) -> Option<Ipv6Address> {
    match read_ipv6(s, 0) {
        Some((a, e)) => if e == s.len() {
            Some(a)
        } else {
            None
        },
        None => None,
    }
}

/// The IP address that the whole of `s` writes, if any: IPv4 is tried first,
/// and where an IPv4 address is read from the start of `s` but does not end
/// it, `s` is no address.
pub open spec fn parse_ip_text(s: Seq<char>) -> Option<IpAddress> {
    match read_ipv4(s, 0) {
        Some((a, e)) => if e == s.len() {
            Some(IpAddress::V4(a))
        } else {
            None
        },
        None => match read_ipv6(s, 0) {
            Some((a, e)) => if e == s.len() {
                Some(IpAddress::V6(a))
            } else {
                None
            },
            None => None,
        },
    }
}

/// The socket address that the whole of `s` writes, if any: "a.b.c.d:port"
/// or "[v6%scope]:port", IPv4 tried first.
pub open spec fn parse_socket_text(s: Seq<char>) -> Option<SocketAddress> {
    match read_socket_v4(s, 0) {
        Some((a, e)) => if e == s.len() {
            Some(a)
        } else {
            None
        },
        None => match read_socket_v6(s, 0) {
            Some((a, e)) => if e == s.len() {
                Some(a)
            } else {
                None
            },
            None => None,
        },
    }
}

pub open spec fn pos_of<T>(r: Option<(T, usize)>) -> Option<(T, int)> {
    match r {
        Some((v, e)) => Some((v, e as int)),
        None => None,
    }
}

fn read_octet_exec(s: &[char], i: usize) -> (r: Option<(u8, usize)>)
    requires
        i <= s@.len(),
    ensures
        r matches Some((_, e)) ==> e <= s@.len(),
        pos_of(r) == read_octet(s@, i as int),
{
    match read_dec_bounded(s, i, 3, 256) {
        None => None,
        Some((v, e)) => {
            if e - i > 1 && s[i] == '0' {
                None
            } else {
                Some((v as u8, e))
            }
        },
    }
}

fn read_dot_octet_exec(s: &[char], i: usize) -> (r: Option<(u8, usize)>)
    requires
        i <= s@.len(),
    ensures
        r matches Some((_, e)) ==> e <= s@.len(),
        pos_of(r) == read_dot_octet(s@, i as int),
{
    if i < s.len() && s[i] == '.' {
        read_octet_exec(s, i + 1)
    } else {
        None
    }
}

fn read_ipv4_exec(s: &[char], i: usize) -> (r: Option<(Ipv4Address, usize)>)
    requires
        i <= s@.len(),
    ensures
        pos_of(r) == read_ipv4(s@, i as int),
        r matches Some((_, e)) ==> e <= s@.len(),
{
    let (a, i1) = match read_octet_exec(s, i) {
        None => return None,
        Some(x) => x,
    };
    let (b, i2) = match read_dot_octet_exec(s, i1) {
        None => return None,
        Some(x) => x,
    };
    let (c, i3) = match read_dot_octet_exec(s, i2) {
        None => return None,
        Some(x) => x,
    };
    let (d, i4) = match read_dot_octet_exec(s, i3) {
        None => return None,
        Some(x) => x,
    };
    Some((Ipv4Address(a, b, c, d), i4))
}

fn read_hex_group_exec(s: &[char], i: usize) -> (r: Option<(u16, usize)>)
    requires
        i <= s@.len(),
    ensures
        pos_of(r) == read_hex_group(s@, i as int),
        r matches Some((_, e)) ==> e <= s@.len(),
{
    read_hex4(s, i)
}

fn ipv4_segments_exec(a: Ipv4Address) -> (r: (u16, u16))
    ensures
        seq![r.0, r.1] == ipv4_segments(a),
{
    ((a.0 as u16) * 256 + (a.1 as u16), (a.2 as u16) * 256 + (a.3 as u16))
}

pub proof fn lemma_read_groups_len(s: Seq<char>, i: int, k: nat, limit: nat)
    ensures
        read_groups(s, i, k, limit).0.len() <= if k <= limit { limit - k } else { 0 },
        read_groups(s, i, k, limit).2 ==> read_groups(s, i, k, limit).0.len() >= 2,
    decreases limit - k,
{
    if k < limit {
        let j = if k == 0 {
            i
        } else if 0 <= i < s.len() && s[i] == ':' {
            i + 1
        } else {
            -1
        };
        if j >= 0 && !(k + 1 < limit && read_ipv4(s, j) is Some) {
            if let Some((g, e)) = read_hex_group(s, j) {
                lemma_read_groups_len(s, e, k + 1, limit);
            }
        }
    }
}

/// Reads the groups of slots `0 .. limit` from `i`.
fn read_groups_exec(s: &[char], i: usize, limit: usize) -> (r: (Vec<u16>, usize, bool))
    requires
        i <= s@.len(),
        limit <= 8,
    ensures
        (r.0@, r.1 as int, r.2) == read_groups(s@, i as int, 0, limit as nat),
        r.1 <= s@.len(),
{
    let mut acc: Vec<u16> = Vec::new();
    let mut pos = i;
    let mut k: usize = 0;
    while k < limit
        invariant
            k <= limit <= 8,
            pos <= s@.len(),
            ({
                let g = read_groups(s@, pos as int, k as nat, limit as nat);
                read_groups(s@, i as int, 0, limit as nat) == (acc@ + g.0, g.1, g.2)
            }),
        decreases limit - k,
    {
        let j: usize;
        if k == 0 {
            j = pos;
        } else if pos < s.len() && s[pos] == ':' {
            j = pos + 1;
        } else {
            assert(acc@ + seq![] =~= acc@);
            return (acc, pos, false);
        }
        if k + 1 < limit {
            if let Some((a, e)) = read_ipv4_exec(s, j) {
                let (hi, lo) = ipv4_segments_exec(a);
                let ghost before = acc@;
                acc.push(hi);
                acc.push(lo);
                assert(acc@ =~= before + seq![hi, lo]);
                return (acc, e, true);
            }
        }
        match read_hex_group_exec(s, j) {
            None => {
                assert(acc@ + seq![] =~= acc@);
                return (acc, pos, false);
            },
            Some((g, e)) => {
                let ghost before = acc@;
                acc.push(g);
                proof {
                    let rest = read_groups(s@, e as int, (k + 1) as nat, limit as nat);
                    assert(before + (seq![g] + rest.0) =~= acc@ + rest.0);
                }
                pos = e;
                k = k + 1;
            },
        }
    }
    assert(acc@ + seq![] =~= acc@);
    (acc, pos, false)
}

}

verus! {

fn ipv6_from_vec(v: &Vec<u16>) -> (r: Ipv6Address)
    requires
        v@.len() == 8,
    ensures
        r == ipv6_from_segments(v@),
{
    Ipv6Address(v[0], v[1], v[2], v[3], v[4], v[5], v[6], v[7])
}

fn read_ipv6_exec(s: &[char], i: usize) -> (r: Option<(Ipv6Address, usize)>)
    requires
        i <= s@.len(),
    ensures
        pos_of(r) == read_ipv6(s@, i as int),
        r matches Some((_, e)) ==> e <= s@.len(),
{
    proof { reveal(read_ipv6); }
    let (head, h_end, h_v4) = read_groups_exec(s, i, 8);
    proof {
        lemma_read_groups_len(s@, i as int, 0, 8);
    }
    if head.len() == 8 {
        return Some((ipv6_from_vec(&head), h_end));
    }
    if h_v4 {
        return None;
    }
    if !(h_end < s.len() && h_end + 1 < s.len() && s[h_end] == ':' && s[h_end + 1] == ':') {
        return None;
    }
    let limit = 8 - (head.len() + 1);
    let (tail, t_end, _t_v4) = read_groups_exec(s, h_end + 2, limit);
    proof {
        lemma_read_groups_len(s@, h_end + 2, 0, limit as nat);
    }
    let mut segs: Vec<u16> = Vec::new();
    let mut k: usize = 0;
    while k < head.len()
        invariant
            k <= head@.len(),
            segs@ == head@.take(k as int),
        decreases head@.len() - k,
    {
        segs.push(head[k]);
        k = k + 1;
        assert(segs@ =~= head@.take(k as int));
    }
    let zeros = 8 - head.len() - tail.len();
    let mut z: usize = 0;
    while z < zeros
        invariant
            z <= zeros,
            zeros == 8 - head@.len() - tail@.len(),
            segs@ == head@ + seq_zeros(z as nat),
        decreases zeros - z,
    {
        segs.push(0);
        z = z + 1;
        assert(segs@ =~= head@ + seq_zeros(z as nat));
    }
    let mut t: usize = 0;
    while t < tail.len()
        invariant
            t <= tail@.len(),
            segs@ == head@ + seq_zeros(zeros as nat) + tail@.take(t as int),
        decreases tail@.len() - t,
    {
        segs.push(tail[t]);
        t = t + 1;
        assert(segs@ =~= head@ + seq_zeros(zeros as nat) + tail@.take(t as int));
    }
    assert(tail@.take(tail@.len() as int) =~= tail@);
    assert(head@.take(head@.len() as int) =~= head@);
    Some((ipv6_from_vec(&segs), t_end))
}

/// Reads the decimal number at `i` if it is at most `max`.
fn read_dec_upto_exec(s: &[char], i: usize, max: u32) -> (r: Option<(u32, usize)>)
    requires
        i <= s@.len(),
    ensures
        match r {
            Some((v, e)) => read_dec_upto(s@, i as int, max as nat) == Some((v as nat, e as int)),
            None => read_dec_upto(s@, i as int, max as nat) is None,
        },
        r matches Some((_, e)) ==> e <= s@.len(),
{
    let n = crate::text::dec_run_exec(s, i);
    if n == 0 {
        return None;
    }
    let mut v: u64 = 0;
    let mut k: usize = 0;
    while k < n
        invariant
            k <= n,
            i + n <= s.len(),
            n == dec_run(s@, i as int),
            v == dec_value(s@, i as int, k as nat),
            v <= max,
        decreases n - k,
    {
        proof {
            crate::text::lemma_dec_run_digits(s@, i as int, k as int);
        }
        let d = crate::text::dec_digit_value_exec(s[i + k]);
        if v * 10 + (d as u64) > (max as u64) {
            proof {
                crate::text::lemma_dec_value_monotone(s@, i as int, (k + 1) as nat, n as nat);
            }
            return None;
        }
        v = v * 10 + (d as u64);
        k = k + 1;
    }
    Some((v as u32, i + n))
}

fn read_port_exec(s: &[char], i: usize) -> (r: Option<(u16, usize)>)
    requires
        i <= s@.len(),
    ensures
        pos_of(r) == read_port(s@, i as int),
        r matches Some((_, e)) ==> e <= s@.len(),
{
    if i < s.len() && s[i] == ':' {
        match read_dec_upto_exec(s, i + 1, 65535) {
            Some((v, e)) => Some((v as u16, e)),
            None => None,
        }
    } else {
        None
    }
}

fn read_scope_exec(s: &[char], i: usize) -> (r: (u32, usize))
    requires
        i <= s@.len(),
    ensures
        (r.0, r.1 as int) == read_scope(s@, i as int),
        r.1 <= s@.len(),
{
    if i < s.len() && s[i] == '%' {
        if let Some((v, e)) = read_dec_upto_exec(s, i + 1, 0xffff_ffff) {
            return (v, e);
        }
    }
    (0, i)
}

fn read_socket_v4_exec(s: &[char], i: usize) -> (r: Option<(SocketAddress, usize)>)
    requires
        i <= s@.len(),
    ensures
        pos_of(r) == read_socket_v4(s@, i as int),
{
    match read_ipv4_exec(s, i) {
        None => None,
        Some((ip, e)) => match read_port_exec(s, e) {
            None => None,
            Some((port, e2)) => Some((SocketAddress::V4 { ip, port }, e2)),
        },
    }
}

fn read_socket_v6_exec(s: &[char], i: usize) -> (r: Option<(SocketAddress, usize)>)
    requires
        i <= s@.len(),
    ensures
        pos_of(r) == read_socket_v6(s@, i as int),
{
    if i < s.len() && s[i] == '[' {
        match read_ipv6_exec(s, i + 1) {
            None => None,
            Some((ip, e)) => {
                let (scope_id, e1) = read_scope_exec(s, e);
                if e1 < s.len() && s[e1] == ']' {
                    match read_port_exec(s, e1 + 1) {
                        None => None,
                        Some((port, e2)) => Some(
                            (SocketAddress::V6 { ip, port, flowinfo: 0, scope_id }, e2),
                        ),
                    }
                } else {
                    None
                }
            },
        }
    } else {
        None
    }
}

/// The IPv4 address that the whole of `s` writes, if any.
pub fn parse_ipv4(s: &[char]) -> (r: Option<Ipv4Address>)
    ensures
        r == parse_ipv4_text(s@),
{
    match read_ipv4_exec(s, 0) {
        Some((a, e)) => if e == s.len() {
            Some(a)
        } else {
            None
        },
        None => None,
    }
}

/// The IPv6 address that the whole of `s` writes, if any.
pub fn parse_ipv6(s: &[char]) -> (r: Option<Ipv6Address>)
    ensures
        r == parse_ipv6_text(s@),
{
    match read_ipv6_exec(s, 0) {
        Some((a, e)) => if e == s.len() {
            Some(a)
        } else {
            None
        },
        None => None,
    }
}

/// The IP address that the whole of `s` writes, if any.
pub fn parse_ip(s: &[char]) -> (r: Option<IpAddress>)
    ensures
        r == parse_ip_text(s@),
{
    match read_ipv4_exec(s, 0) {
        Some((a, e)) => if e == s.len() {
            Some(IpAddress::V4(a))
        } else {
            None
        },
        None => match read_ipv6_exec(s, 0) {
            Some((a, e)) => if e == s.len() {
                Some(IpAddress::V6(a))
            } else {
                None
            },
            None => None,
        },
    }
}

/// The socket address that the whole of `s` writes, if any.
pub fn parse_socket(s: &[char]) -> (r: Option<SocketAddress>)
    ensures
        r == parse_socket_text(s@),
{
    match read_socket_v4_exec(s, 0) {
        Some((a, e)) => if e == s.len() {
            Some(a)
        } else {
            None
        },
        None => match read_socket_v6_exec(s, 0) {
            Some((a, e)) => if e == s.len() {
                Some(a)
            } else {
                None
            },
            None => None,
        },
    }
}

}

verus! {

// ---------------------------------------------------------------------------
// Writing text.
// ---------------------------------------------------------------------------

/// Dotted-decimal text of an IPv4 address.
pub open spec fn ipv4_text(a: Ipv4Address) -> Seq<char> {
    dec_text(a.0 as nat) + seq!['.'] + dec_text(a.1 as nat) + seq!['.'] + dec_text(a.2 as nat)
        + seq!['.'] + dec_text(a.3 as nat)
}

/// Number of consecutive zero segments of `s` from `i`.
pub open spec fn zero_run(s: Seq<u16>, i: int) -> nat
    decreases s.len() - i,
{
    if 0 <= i < s.len() && s[i] == 0 {
        1 + zero_run(s, i + 1)
    } else {
        0
    }
}

/// Start and length of the longest run of zero segments of `s` that starts at
/// or after `i`; among runs of the greatest length, the first. Length zero
/// where there is no zero.
pub open spec fn longest_zero_span(s: Seq<u16>, i: nat) -> (int, nat)
    decreases s.len() - i,
{
    if i >= s.len() {
        (s.len() as int, 0)
    } else {
        let b = longest_zero_span(s, i + 1);
        let z = zero_run(s, i as int);
        if z > 0 && z >= b.1 {
            (i as int, z)
        } else {
            b
        }
    }
}

/// Lower-case hexadecimal segments separated by ':'.
pub open spec fn join_hex(s: Seq<u16>) -> Seq<char>
    decreases s.len(),
{
    if s.len() == 0 {
        seq![]
    } else if s.len() == 1 {
        hex_text(s[0] as nat)
    } else {
        join_hex(s.drop_last()) + seq![':'] + hex_text(s.last() as nat)
    }
}

/// An IPv4-mapped IPv6 address: `::ffff:a.b.c.d`.
pub open spec fn is_ipv4_mapped(a: Ipv6Address) -> bool {
    a.0 == 0 && a.1 == 0 && a.2 == 0 && a.3 == 0 && a.4 == 0 && a.5 == 0xffff
}

pub open spec fn mapped_ipv4(a: Ipv6Address) -> Ipv4Address {
    Ipv4Address((a.6 / 256) as u8, (a.6 % 256) as u8, (a.7 / 256) as u8, (a.7 % 256) as u8)
}

/// Text of an IPv6 address: IPv4-mapped addresses as `::ffff:` and the IPv4
/// text; otherwise lower-case hexadecimal segments, the first longest run of
/// two or more zero segments written as "::".
#[verifier::opaque]
pub open spec fn ipv6_text(a: Ipv6Address) -> Seq<char> {
    if is_ipv4_mapped(a) {
        seq![':', ':', 'f', 'f', 'f', 'f', ':'] + ipv4_text(mapped_ipv4(a))
    } else {
        let segs = a.segments();
        let span = longest_zero_span(segs, 0);
        if span.1 > 1 {
            join_hex(segs.subrange(0, span.0)) + seq![':', ':'] + join_hex(
                segs.subrange(span.0 + span.1, 8),
            )
        } else {
            join_hex(segs)
        }
    }
}

pub open spec fn ip_text(a: IpAddress) -> Seq<char> {
    match a {
        IpAddress::V4(a) => ipv4_text(a),
        IpAddress::V6(a) => ipv6_text(a),
    }
}

/// Text of a socket address: `a.b.c.d:port`, or `[v6]:port`, or
/// `[v6%scope]:port` where the scope identifier is not zero.
pub open spec fn socket_text(a: SocketAddress) -> Seq<char> {
    match a {
        SocketAddress::V4 { ip, port } => ipv4_text(ip) + seq![':'] + dec_text(port as nat),
        SocketAddress::V6 { ip, port, flowinfo, scope_id } => seq!['['] + ipv6_text(ip) + (if scope_id
            == 0 {
            seq![]
        } else {
            seq!['%'] + dec_text(scope_id as nat)
        }) + seq![']', ':'] + dec_text(port as nat),
    }
}

pub fn push_ipv4(out: &mut Vec<char>, a: Ipv4Address)
    ensures
        final(out)@ == old(out)@ + ipv4_text(a),
{
    push_dec(out, a.0 as u32);
    out.push('.');
    push_dec(out, a.1 as u32);
    out.push('.');
    push_dec(out, a.2 as u32);
    out.push('.');
    push_dec(out, a.3 as u32);
    assert(final(out)@ =~= old(out)@ + ipv4_text(a));
}

fn push_join_hex(out: &mut Vec<char>, s: &Vec<u16>, from: usize, to: usize)
    requires
        from <= to <= s@.len(),
    ensures
        final(out)@ == old(out)@ + join_hex(s@.subrange(from as int, to as int)),
{
    if from == to {
        assert(s@.subrange(from as int, to as int) =~= Seq::<u16>::empty());
        assert(final(out)@ =~= old(out)@ + join_hex(s@.subrange(from as int, to as int)));
        return;
    }
    push_hex(out, s[from] as u32);
    let mut k = from + 1;
    assert(s@.subrange(from as int, k as int) =~= seq![s@[from as int]]);
    while k < to
        invariant
            from < k <= to <= s@.len(),
            out@ == old(out)@ + join_hex(s@.subrange(from as int, k as int)),
        decreases to - k,
    {
        out.push(':');
        push_hex(out, s[k] as u32);
        k = k + 1;
        proof {
            let t = s@.subrange(from as int, k as int);
            assert(t.drop_last() =~= s@.subrange(from as int, k - 1));
            assert(t.last() == s@[k - 1]);
        }
        assert(out@ =~= old(out)@ + join_hex(s@.subrange(from as int, k as int)));
    }
}

fn longest_zero_span_exec(s: &Vec<u16>) -> (r: (usize, usize))
    requires
        s@.len() == 8,
    ensures
        (r.0 as int, r.1 as nat) == longest_zero_span(s@, 0),
        r.0 + r.1 <= 8,
{
    let mut best_start: usize = 8;
    let mut best_len: usize = 0;
    let mut cur: usize = 0;
    let mut i: usize = 8;
    proof {
        assert(longest_zero_span(s@, 8) == (8int, 0nat));
        assert(zero_run(s@, 8) == 0);
    }
    while i > 0
        invariant
            i <= 8,
            s@.len() == 8,
            (best_start as int, best_len as nat) == longest_zero_span(s@, i as nat),
            cur == zero_run(s@, i as int),
            i + cur <= 8,
            best_start + best_len <= 8,
        decreases i,
    {
        i = i - 1;
        if s[i] == 0 {
            cur = cur + 1;
        } else {
            cur = 0;
        }
        if cur > 0 && cur >= best_len {
            best_start = i;
            best_len = cur;
        }
    }
    (best_start, best_len)
}

fn segments_vec(a: Ipv6Address) -> (r: Vec<u16>)
    ensures
        r@ == a.segments(),
{
    let r = vec![a.0, a.1, a.2, a.3, a.4, a.5, a.6, a.7];
    assert(r@ =~= a.segments());
    r
}

pub fn push_ipv6(out: &mut Vec<char>, a: Ipv6Address)
    ensures
        final(out)@ == old(out)@ + ipv6_text(a),
{
    proof { reveal(ipv6_text); }
    if a.0 == 0 && a.1 == 0 && a.2 == 0 && a.3 == 0 && a.4 == 0 && a.5 == 0xffff {
        out.push(':');
        out.push(':');
        out.push('f');
        out.push('f');
        out.push('f');
        out.push('f');
        out.push(':');
        let v4 = Ipv4Address((a.6 / 256) as u8, (a.6 % 256) as u8, (a.7 / 256) as u8, (a.7 % 256) as u8);
        push_ipv4(out, v4);
        assert(final(out)@ =~= old(out)@ + ipv6_text(a));
        return;
    }
    let segs = segments_vec(a);
    let (start, len) = longest_zero_span_exec(&segs);
    if len > 1 {
        push_join_hex(out, &segs, 0, start);
        out.push(':');
        out.push(':');
        push_join_hex(out, &segs, start + len, 8);
        assert(final(out)@ =~= old(out)@ + ipv6_text(a));
    } else {
        push_join_hex(out, &segs, 0, 8);
        assert(segs@.subrange(0, 8) =~= segs@);
    }
}

pub fn push_ip(out: &mut Vec<char>, a: IpAddress)
    ensures
        final(out)@ == old(out)@ + ip_text(a),
{
    match a {
        IpAddress::V4(a) => push_ipv4(out, a),
        IpAddress::V6(a) => push_ipv6(out, a),
    }
}

pub fn push_socket(out: &mut Vec<char>, a: SocketAddress)
    ensures
        final(out)@ == old(out)@ + socket_text(a),
{
    match a {
        SocketAddress::V4 { ip, port } => {
            push_ipv4(out, ip);
            out.push(':');
            push_dec(out, port as u32);
        },
        SocketAddress::V6 { ip, port, flowinfo, scope_id } => {
            out.push('[');
            push_ipv6(out, ip);
            if scope_id != 0 {
                out.push('%');
                push_dec(out, scope_id);
            }
            out.push(']');
            out.push(':');
            push_dec(out, port as u32);
        },
    }
    assert(final(out)@ =~= old(out)@ + socket_text(a));
}

impl IpAddress {
    /// The text of the address.
    pub fn to_text(&self) -> (r: String)
        ensures
            r@ == ip_text(*self),
    {
        let mut out: Vec<char> = Vec::new();
        push_ip(&mut out, *self);
        assert(out@ =~= ip_text(*self));
        string_of(out.as_slice())
    }
}

impl SocketAddress {
    /// The text of the socket address.
    pub fn to_text(&self) -> (r: String)
        ensures
            r@ == socket_text(*self),
    {
        let mut out: Vec<char> = Vec::new();
        push_socket(&mut out, *self);
        assert(out@ =~= socket_text(*self));
        string_of(out.as_slice())
    }

    pub open spec fn ip_spec(self) -> IpAddress {
        match self {
            SocketAddress::V4 { ip, .. } => IpAddress::V4(ip),
            SocketAddress::V6 { ip, .. } => IpAddress::V6(ip),
        }
    }

    pub open spec fn port_spec(self) -> u16 {
        match self {
            SocketAddress::V4 { port, .. } => port,
            SocketAddress::V6 { port, .. } => port,
        }
    }

    /// A socket address of `ip` and `port`; for IPv6 with no flow
    /// information and no scope.
    pub fn new(ip: IpAddress, port: u16) -> (r: SocketAddress)
        ensures
            r == socket_of(ip, port),
    {
        match ip {
            IpAddress::V4(ip) => SocketAddress::V4 { ip, port },
            IpAddress::V6(ip) => SocketAddress::V6 { ip, port, flowinfo: 0, scope_id: 0 },
        }
    }

    /// The IP address.
    pub fn ip(&self) -> (r: IpAddress)
        ensures
            r == self.ip_spec(),
    {
        match *self {
            SocketAddress::V4 { ip, .. } => IpAddress::V4(ip),
            SocketAddress::V6 { ip, .. } => IpAddress::V6(ip),
        }
    }

    /// The port number.
    pub fn port(&self) -> (r: u16)
        ensures
            r == self.port_spec(),
    {
        match *self {
            SocketAddress::V4 { port, .. } => port,
            SocketAddress::V6 { port, .. } => port,
        }
    }

    /// Replaces the port number and keeps everything else.
    pub fn set_port(&mut self, port: u16)
        ensures
            *final(self) == with_port(*old(self), port),
    {
        match *self {
            SocketAddress::V4 { ip, .. } => {
                *self = SocketAddress::V4 { ip, port };
            },
            SocketAddress::V6 { ip, flowinfo, scope_id, .. } => {
                *self = SocketAddress::V6 { ip, port, flowinfo, scope_id };
            },
        }
    }
}

pub open spec fn socket_of(ip: IpAddress, port: u16) -> SocketAddress {
    match ip {
        IpAddress::V4(ip) => SocketAddress::V4 { ip, port },
        IpAddress::V6(ip) => SocketAddress::V6 { ip, port, flowinfo: 0, scope_id: 0 },
    }
}

pub open spec fn with_port(a: SocketAddress, port: u16) -> SocketAddress {
    match a {
        SocketAddress::V4 { ip, .. } => SocketAddress::V4 { ip, port },
        SocketAddress::V6 { ip, flowinfo, scope_id, .. } => SocketAddress::V6 {
            ip,
            port,
            flowinfo,
            scope_id,
        },
    }
}

}

verus! {

// ---------------------------------------------------------------------------
// Text written is text read back.
// ---------------------------------------------------------------------------

/// A piece of `t` stands at the same place in `s` as `t` does.
pub proof fn lemma_sub(s: Seq<char>, p: int, t: Seq<char>, a: int, b: int)
    requires
        0 <= p,
        p + t.len() <= s.len(),
        s.subrange(p, p + t.len()) == t,
        0 <= a <= b <= t.len(),
    ensures
        s.subrange(p + a, p + b) == t.subrange(a, b),
        forall|k: int| a <= k < b ==> s[p + k] == t[k],
{
    assert(s.subrange(p + a, p + b) =~= s.subrange(p, p + t.len()).subrange(a, b));
    assert forall|k: int| a <= k < b implies s[p + k] == t[k] by {
        assert(s[p + k] == s.subrange(p, p + t.len())[k]);
    }
}

pub proof fn lemma_read_octet_text(s: Seq<char>, p: int, v: u8)
    requires
        0 <= p,
        p + dec_text(v as nat).len() <= s.len(),
        s.subrange(p, p + dec_text(v as nat).len()) == dec_text(v as nat),
        p + dec_text(v as nat).len() == s.len() || !is_dec_digit(s[p + dec_text(v as nat).len()]),
    ensures
        read_octet(s, p) == Some((v, p + dec_text(v as nat).len())),
{
    let t = dec_text(v as nat);
    lemma_dec_text(v as nat);
    lemma_sub(s, p, t, 0, t.len() as int);
    assert forall|k: int| 0 <= k < t.len() implies is_dec_digit(#[trigger] s[p + k]) by {
        assert(is_dec_digit(t[k]));
    }
    lemma_dec_run_exact(s, p, t.len());
    lemma_dec_text_value(s, p, v as nat);
    if t.len() > 1 {
        assert(s[p + 0] == t[0]);
    }
}

pub proof fn lemma_read_ipv4_text(s: Seq<char>, p: int, a: Ipv4Address)
    requires
        0 <= p,
        p + ipv4_text(a).len() <= s.len(),
        s.subrange(p, p + ipv4_text(a).len()) == ipv4_text(a),
        p + ipv4_text(a).len() == s.len() || !is_dec_digit(s[p + ipv4_text(a).len()]),
    ensures
        read_ipv4(s, p) == Some((a, p + ipv4_text(a).len())),
{
    let t = ipv4_text(a);
    let d0 = dec_text(a.0 as nat);
    let d1 = dec_text(a.1 as nat);
    let d2 = dec_text(a.2 as nat);
    let d3 = dec_text(a.3 as nat);
    let l0 = d0.len() as int;
    let l1 = d1.len() as int;
    let l2 = d2.len() as int;
    let l3 = d3.len() as int;
    let p1 = l0;
    let p2 = l0 + 1 + l1;
    let p3 = l0 + 1 + l1 + 1 + l2;
    assert(t.len() == p3 + 1 + l3);
    assert(t.subrange(0, p1) =~= d0);
    assert(t[p1] == '.');
    assert(t.subrange(p1 + 1, p2) =~= d1);
    assert(t[p2] == '.');
    assert(t.subrange(p2 + 1, p3) =~= d2);
    assert(t[p3] == '.');
    assert(t.subrange(p3 + 1, t.len() as int) =~= d3);
    lemma_sub(s, p, t, 0, p1);
    lemma_sub(s, p, t, p1, p1 + 1);
    lemma_sub(s, p, t, p1 + 1, p2);
    lemma_sub(s, p, t, p2, p2 + 1);
    lemma_sub(s, p, t, p2 + 1, p3);
    lemma_sub(s, p, t, p3, p3 + 1);
    lemma_sub(s, p, t, p3 + 1, t.len() as int);
    lemma_read_octet_text(s, p, a.0);
    lemma_read_octet_text(s, p + p1 + 1, a.1);
    lemma_read_octet_text(s, p + p2 + 1, a.2);
    lemma_read_octet_text(s, p + p3 + 1, a.3);
}

/// Round trip: the text of an IPv4 address reads back as that address.
pub proof fn law_ipv4_text_round_trip(a: Ipv4Address)
    ensures
        parse_ipv4_text(ipv4_text(a)) == Some(a),
{
    let t = ipv4_text(a);
    assert(t.subrange(0, t.len() as int) =~= t);
    lemma_read_ipv4_text(t, 0, a);
}

}

verus! {

/// An IPv4 address cannot be read where hexadecimal digits stand that are
/// followed by neither '.' nor a decimal digit.
pub proof fn lemma_ipv4_fails_at_token(s: Seq<char>, j: int, m: nat)
    requires
        0 <= j,
        j + m <= s.len(),
        forall|k: int| 0 <= k < m ==> is_hex_digit(#[trigger] s[j + k]) && s[j + k] != '.',
        j + m == s.len() || (s[j + m] != '.' && !is_dec_digit(s[j + m])),
    ensures
        read_ipv4(s, j) is None,
{
    lemma_dec_run_le(s, j, m);
    let n = dec_run(s, j);
    if read_octet(s, j) is Some {
        let i1 = j + n;
        if i1 < j + m {
            assert(s[j + n] != '.');
        }
    }
}

pub proof fn lemma_read_hex_token(s: Seq<char>, j: int, g: u16)
    requires
        0 <= j,
        j + hex_text(g as nat).len() <= s.len(),
        s.subrange(j, j + hex_text(g as nat).len()) == hex_text(g as nat),
        j + hex_text(g as nat).len() == s.len() || !is_hex_digit(s[j + hex_text(g as nat).len()]),
    ensures
        read_hex_group(s, j) == Some((g, j + hex_text(g as nat).len())),
        read_ipv4(s, j) is None || (j + hex_text(g as nat).len() < s.len() && (s[j
            + hex_text(g as nat).len()] == '.' || is_dec_digit(s[j + hex_text(g as nat).len()]))),
{
    let t = hex_text(g as nat);
    lemma_hex_text(g as nat);
    lemma_sub(s, j, t, 0, t.len() as int);
    assert forall|k: int| 0 <= k < t.len() implies is_hex_digit(#[trigger] s[j + k]) && s[j + k]
        != '.' by {
        assert(is_hex_digit(t[k]));
    }
    lemma_hex_run_exact(s, j, t.len());
    lemma_hex_text_value(s, j, g as nat);
    if j + t.len() == s.len() || (s[j + t.len()] != '.' && !is_dec_digit(s[j + t.len()])) {
        lemma_ipv4_fails_at_token(s, j, t.len());
    }
}

/// `join_hex` read from its front: the first group, then for each further
/// group a ':' and the group.
pub proof fn lemma_join_hex_front(l: Seq<u16>)
    requires
        l.len() >= 1,
    ensures
        join_hex(l) == hex_text(l[0] as nat) + (if l.len() == 1 {
            Seq::<char>::empty()
        } else {
            seq![':'] + join_hex(l.drop_first())
        }),
    decreases l.len(),
{
    if l.len() == 1 {
        assert(join_hex(l) =~= hex_text(l[0] as nat) + Seq::<char>::empty());
    } else if l.len() == 2 {
        assert(l.drop_last() =~= seq![l[0]]);
        assert(l.drop_first() =~= seq![l[1]]);
        assert(join_hex(l.drop_last()) == hex_text(l[0] as nat));
        assert(join_hex(l.drop_first()) == hex_text(l[1] as nat));
        assert(join_hex(l) =~= hex_text(l[0] as nat) + (seq![':'] + join_hex(l.drop_first())));
    } else {
        lemma_join_hex_front(l.drop_last());
        assert(l.drop_last().drop_first() =~= l.drop_first().drop_last());
        assert(l.drop_last()[0] == l[0]);
        assert(l.drop_first().last() == l.last());
        assert(join_hex(l.drop_first()) == join_hex(l.drop_first().drop_last()) + seq![':']
            + hex_text(l.drop_first().last() as nat));
        assert(join_hex(l) =~= hex_text(l[0] as nat) + (seq![':'] + join_hex(l.drop_first())));
    }
}

/// The text of the groups `l` filling slots from `k`: a ':' before the first
/// of them unless it fills the first slot.
pub open spec fn sep_join(l: Seq<u16>, k: nat) -> Seq<char> {
    if l.len() == 0 {
        seq![]
    } else if k == 0 {
        join_hex(l)
    } else {
        seq![':'] + join_hex(l)
    }
}

/// Where the reading of groups stops for want of a further group.
pub open spec fn groups_stop(s: Seq<char>, q: int) -> bool {
    ||| q == s.len()
    ||| (0 <= q < s.len() && !is_hex_digit(s[q]) && s[q] != ':' && s[q] != '.')
    ||| (0 <= q < s.len() && s[q] == ':' && (q + 1 == s.len() || (q + 1 < s.len() && !is_hex_digit(
        s[q + 1]))))
}

pub proof fn lemma_read_groups_join(s: Seq<char>, p: int, l: Seq<u16>, k: nat, limit: nat)
    requires
        0 <= p,
        p + sep_join(l, k).len() <= s.len(),
        s.subrange(p, p + sep_join(l, k).len()) == sep_join(l, k),
        k + l.len() <= limit,
        groups_stop(s, p + sep_join(l, k).len()),
    ensures
        read_groups(s, p, k, limit) == (l, p + sep_join(l, k).len(), false),
    decreases l.len(),
{
    if l.len() == 0 {
        if k < limit {
            let j = if k == 0 {
                p
            } else if 0 <= p < s.len() && s[p] == ':' {
                p + 1
            } else {
                -1
            };
            if j >= 0 {
                if j < s.len() {
                    assert(!is_dec_digit(s[j]));
                    assert(!is_hex_digit(s[j]));
                }
                assert(dec_run(s, j) == 0);
                assert(hex_run(s, j) == 0);
            }
        }
    } else {
        let t = sep_join(l, k);
        let off: int = if k == 0 { 0 } else { 1 };
        let j = p + off;
        let g = l[0];
        let ht = hex_text(g as nat);
        let rest = l.drop_first();
        lemma_join_hex_front(l);
        let tail_text = if l.len() == 1 { Seq::<char>::empty() } else { seq![':'] + join_hex(rest) };
        assert(t =~= (if k == 0 { Seq::<char>::empty() } else { seq![':'] }) + ht + tail_text);
        assert(sep_join(rest, k + 1) =~= tail_text);
        let e = j + ht.len();
        lemma_sub(s, p, t, off, off + ht.len());
        assert(t.subrange(off, off + ht.len()) =~= ht);
        lemma_sub(s, p, t, off + ht.len(), t.len() as int);
        assert(t.subrange(off + ht.len(), t.len() as int) =~= tail_text);
        if k > 0 {
            lemma_sub(s, p, t, 0, 1);
            assert(s[p + 0] == t[0]);
        }
        if rest.len() > 0 {
            assert(s[e] == tail_text[0]);
        }
        lemma_read_hex_token(s, j, g);
        lemma_read_groups_join(s, e, rest, k + 1, limit);
        assert(seq![g] + rest =~= l);
    }
}

pub proof fn lemma_zero_run(s: Seq<u16>, i: int)
    requires
        0 <= i,
    ensures
        i + zero_run(s, i) <= s.len() || zero_run(s, i) == 0,
        forall|k: int| 0 <= k < zero_run(s, i) ==> #[trigger] s[i + k] == 0,
    decreases s.len() - i,
{
    if 0 <= i < s.len() && s[i] == 0 {
        lemma_zero_run(s, i + 1);
        assert forall|k: int| 0 <= k < zero_run(s, i) implies #[trigger] s[i + k] == 0 by {
            if k > 0 {
                assert(s[(i + 1) + (k - 1)] == 0);
            }
        }
    }
}

pub proof fn lemma_longest_zero_span(s: Seq<u16>, i: nat)
    requires
        i <= s.len(),
    ensures
        ({
            let (st, ln) = longest_zero_span(s, i);
            &&& ln > 0 ==> i <= st && st + ln <= s.len()
            &&& forall|k: int| 0 <= k < ln ==> #[trigger] s[st + k] == 0
        }),
    decreases s.len() - i,
{
    if i < s.len() {
        lemma_longest_zero_span(s, i + 1);
        lemma_zero_run(s, i as int);
    }
}

}

verus! {

/// What may follow the text of an IPv6 address for it to be read back.
pub open spec fn ipv6_follower(s: Seq<char>, q: int) -> bool {
    q == s.len() || (0 <= q < s.len() && !is_hex_digit(s[q]) && s[q] != ':' && s[q] != '.')
}

proof fn lemma_hex_ffff()
    ensures
        hex_text(0xffff) == seq!['f', 'f', 'f', 'f'],
{
    reveal_with_fuel(hex_text, 5);
    assert(hex_text(0xffff) =~= seq!['f', 'f', 'f', 'f']);
}

#[verifier::spinoff_prover]
#[verifier::rlimit(40)]
pub proof fn lemma_read_ipv6_text(s: Seq<char>, p: int, a: Ipv6Address)
    requires
        0 <= p,
        p + ipv6_text(a).len() <= s.len(),
        s.subrange(p, p + ipv6_text(a).len()) == ipv6_text(a),
        ipv6_follower(s, p + ipv6_text(a).len()),
    ensures
        read_ipv6(s, p) == Some((a, p + ipv6_text(a).len())),
{
    reveal(read_ipv6);
    reveal(ipv6_text);
    let t = ipv6_text(a);
    let q = p + t.len();
    let segs = a.segments();
    if is_ipv4_mapped(a) {
        let v4 = mapped_ipv4(a);
        let vt = ipv4_text(v4);
        lemma_hex_ffff();
        let pre = seq![':', ':', 'f', 'f', 'f', 'f', ':'];
        assert(t == pre + vt);
        lemma_sub(s, p, t, 0, 7);
        assert(t.subrange(0, 7) =~= pre);
        lemma_sub(s, p, t, 7, t.len() as int);
        assert(t.subrange(7, t.len() as int) =~= vt);
        // the head is empty
        assert(sep_join(Seq::<u16>::empty(), 0) =~= Seq::<char>::empty());
        assert(s.subrange(p, p) =~= Seq::<char>::empty());
        lemma_read_groups_join(s, p, Seq::<u16>::empty(), 0, 8);
        // the tail: "ffff" and the IPv4 address
        assert(s.subrange(p + 2, p + 6) =~= t.subrange(2, 6));
        assert(t.subrange(2, 6) =~= hex_text(0xffff));
        lemma_read_hex_token(s, p + 2, 0xffff);
        assert(!is_dec_digit(s[p + 2]));
        assert(dec_run(s, p + 2) == 0);
        lemma_read_ipv4_text(s, p + 7, v4);
        assert(read_groups(s, p + 6, 1, 7) == (ipv4_segments(v4), q, true));
        let tail = seq![0xffffu16] + ipv4_segments(v4);
        assert(read_groups(s, p + 2, 0, 7) == (tail, q, true));
        let segs2 = Seq::<u16>::empty() + seq_zeros(5) + tail;
        assert(segs2 =~= segs);
        assert(ipv6_from_segments(segs) == a);
    } else {
        let span = longest_zero_span(segs, 0);
        let st = span.0;
        let ln = span.1;
        lemma_longest_zero_span(segs, 0);
        if ln > 1 {
            let head = segs.subrange(0, st);
            let tail = segs.subrange(st + ln, 8);
            let ht = join_hex(head);
            let tt = join_hex(tail);
            assert(t == ht + seq![':', ':'] + tt);
            let q1 = p + ht.len();
            lemma_sub(s, p, t, 0, ht.len() as int);
            assert(t.subrange(0, ht.len() as int) =~= ht);
            lemma_sub(s, p, t, ht.len() as int, ht.len() as int + 2);
            lemma_sub(s, p, t, ht.len() as int + 2, t.len() as int);
            assert(t.subrange(ht.len() as int + 2, t.len() as int) =~= tt);
            assert(t[ht.len() as int] == ':');
            assert(t[ht.len() as int + 1] == ':');
            assert(s[p + ht.len() as int] == t[ht.len() as int]);
            assert(s[p + (ht.len() as int + 1)] == t[ht.len() as int + 1]);
            assert(s[q1] == ':');
            assert(s[q1 + 1] == ':');
            assert(sep_join(head, 0) =~= ht);
            assert(sep_join(tail, 0) =~= tt);
            lemma_read_groups_join(s, p, head, 0, 8);
            lemma_read_groups_join(s, q1 + 2, tail, 0, (8 - (head.len() + 1)) as nat);
            let segs2 = head + seq_zeros((8 - head.len() - tail.len()) as nat) + tail;
            assert(head.len() == st);
            assert(tail.len() == 8 - st - ln);
            assert(segs2.len() == 8);
            assert forall|k: int| 0 <= k < 8 implies segs2[k] == segs[k] by {
                if k < st {
                } else if k < st + ln {
                    assert(segs[st + (k - st)] == 0);
                } else {
                }
            }
            assert(segs2 =~= segs);
            assert(ipv6_from_segments(segs) == a);
        } else {
            assert(sep_join(segs, 0) =~= t);
            lemma_read_groups_join(s, p, segs, 0, 8);
            assert(ipv6_from_segments(segs) == a);
        }
    }
}

/// Round trip: the text of an IPv6 address reads back as that address.
pub proof fn law_ipv6_text_round_trip(a: Ipv6Address)
    ensures
        parse_ipv6_text(ipv6_text(a)) == Some(a),
{
    let t = ipv6_text(a);
    assert(t.subrange(0, t.len() as int) =~= t);
    lemma_read_ipv6_text(t, 0, a);
}

}

verus! {

proof fn lemma_first_token_then_colon(t: Seq<char>, g: u16)
    requires
        hex_text(g as nat).len() < t.len(),
        t.subrange(0, hex_text(g as nat).len() as int) == hex_text(g as nat),
        t[hex_text(g as nat).len() as int] == ':',
    ensures
        read_ipv4(t, 0) is None,
{
    lemma_read_hex_token(t, 0, g);
}

/// The text of an IPv6 address does not start with an IPv4 address.
#[verifier::rlimit(40)]
pub proof fn lemma_ipv6_text_not_ipv4(a: Ipv6Address)
    ensures
        read_ipv4(ipv6_text(a), 0) is None,
{
    reveal(ipv6_text);
    let t = ipv6_text(a);
    let segs = a.segments();
    if is_ipv4_mapped(a) {
        assert(t[0] == ':');
        assert(dec_run(t, 0) == 0);
    } else {
        let span = longest_zero_span(segs, 0);
        let st = span.0;
        let ln = span.1;
        lemma_longest_zero_span(segs, 0);
        if ln > 1 {
            let head = segs.subrange(0, st);
            let tail = segs.subrange(st + ln, 8);
            let ht = join_hex(head);
            assert(t == ht + seq![':', ':'] + join_hex(tail));
            if st == 0 {
                assert(head.len() == 0);
                assert(t[0] == ':');
                assert(dec_run(t, 0) == 0);
            } else {
                lemma_join_hex_front(head);
                let h0 = hex_text(head[0] as nat);
                let rest = if head.len() == 1 {
                    Seq::<char>::empty()
                } else {
                    seq![':'] + join_hex(head.drop_first())
                };
                assert(t =~= h0 + (rest + seq![':', ':'] + join_hex(tail)));
                assert(t.subrange(0, h0.len() as int) =~= h0);
                assert(t[h0.len() as int] == ':');
                lemma_first_token_then_colon(t, head[0]);
            }
        } else {
            lemma_join_hex_front(segs);
            let h0 = hex_text(segs[0] as nat);
            assert(t =~= h0 + (seq![':'] + join_hex(segs.drop_first())));
            assert(t.subrange(0, h0.len() as int) =~= h0);
            assert(t[h0.len() as int] == ':');
            lemma_first_token_then_colon(t, segs[0]);
        }
    }
}

/// Round trip: the text of an IP address reads back as that address.
pub proof fn law_ip_text_round_trip(a: IpAddress)
    ensures
        parse_ip_text(ip_text(a)) == Some(a),
{
    let t = ip_text(a);
    assert(t.subrange(0, t.len() as int) =~= t);
    match a {
        IpAddress::V4(b) => {
            lemma_read_ipv4_text(t, 0, b);
        },
        IpAddress::V6(b) => {
            lemma_ipv6_text_not_ipv4(b);
            lemma_read_ipv6_text(t, 0, b);
        },
    }
}

pub proof fn lemma_read_dec_text(s: Seq<char>, p: int, n: nat, max: nat)
    requires
        0 <= p,
        n <= max,
        p + dec_text(n).len() <= s.len(),
        s.subrange(p, p + dec_text(n).len()) == dec_text(n),
        p + dec_text(n).len() == s.len() || !is_dec_digit(s[p + dec_text(n).len()]),
    ensures
        read_dec_upto(s, p, max) == Some((n, p + dec_text(n).len())),
{
    let t = dec_text(n);
    lemma_dec_text(n);
    lemma_sub(s, p, t, 0, t.len() as int);
    assert forall|k: int| 0 <= k < t.len() implies is_dec_digit(#[trigger] s[p + k]) by {
        assert(is_dec_digit(t[k]));
    }
    lemma_dec_run_exact(s, p, t.len());
    lemma_dec_text_value(s, p, n);
}

proof fn lemma_socket_v4_round_trip(ip: Ipv4Address, port: u16)
    ensures
        parse_socket_text(socket_text(SocketAddress::V4 { ip, port })) == Some(
            SocketAddress::V4 { ip, port },
        ),
{
    let t = socket_text(SocketAddress::V4 { ip, port });
    let it = ipv4_text(ip);
    let pt = dec_text(port as nat);
    assert(t == it + seq![':'] + pt);
    assert(t.subrange(0, it.len() as int) =~= it);
    assert(t[it.len() as int] == ':');
    lemma_read_ipv4_text(t, 0, ip);
    assert(t.subrange(it.len() as int + 1, t.len() as int) =~= pt);
    lemma_read_dec_text(t, it.len() as int + 1, port as nat, 65535);
}

proof fn lemma_socket_v6_round_trip(ip: Ipv6Address, port: u16, scope_id: u32)
    ensures
        parse_socket_text(socket_text(SocketAddress::V6 { ip, port, flowinfo: 0, scope_id }))
            == Some(SocketAddress::V6 { ip, port, flowinfo: 0, scope_id }),
{
    let a = SocketAddress::V6 { ip, port, flowinfo: 0, scope_id };
    let t = socket_text(a);
    let it = ipv6_text(ip);
    let sc = if scope_id == 0 {
        Seq::<char>::empty()
    } else {
        seq!['%'] + dec_text(scope_id as nat)
    };
    let pt = dec_text(port as nat);
    assert(t == seq!['['] + it + sc + seq![']', ':'] + pt);
    assert(t[0] == '[');
    assert(dec_run(t, 0) == 0);
    assert(read_socket_v4(t, 0) is None);
    let q: int = 1 + it.len() as int;
    assert(t.subrange(1, q) =~= it);
    assert(t[q] == (if scope_id == 0 { ']' } else { '%' }));
    lemma_read_ipv6_text(t, 1, ip);
    let e1: int = q + sc.len();
    if scope_id != 0 {
        let st = dec_text(scope_id as nat);
        assert(t.subrange(q + 1, e1) =~= st);
        assert(t[e1] == ']');
        lemma_read_dec_text(t, q + 1, scope_id as nat, 0xffff_ffff);
    }
    assert(read_scope(t, q) == (scope_id, e1));
    assert(t[e1] == ']');
    assert(t[e1 + 1] == ':');
    assert(t.subrange(e1 + 2, t.len() as int) =~= pt);
    lemma_read_dec_text(t, e1 + 2, port as nat, 65535);
    assert(read_port(t, e1 + 1) == Some((port, t.len() as int)));
    assert(read_socket_v6(t, 0) == Some((a, t.len() as int)));
}

/// Round trip: the text of a socket address reads back as that address,
/// where it has no IPv6 flow information (the text does not carry it).
pub proof fn law_socket_text_round_trip(a: SocketAddress)
    requires
        a matches SocketAddress::V6 { flowinfo, .. } ==> flowinfo == 0,
    ensures
        parse_socket_text(socket_text(a)) == Some(a),
{
    match a {
        SocketAddress::V4 { ip, port } => lemma_socket_v4_round_trip(ip, port),
        SocketAddress::V6 { ip, port, flowinfo, scope_id } => lemma_socket_v6_round_trip(ip, port, scope_id),
    }
}

}
