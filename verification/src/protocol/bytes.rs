//! Building byte strings.
use vstd::prelude::*;

verus! {

/// The two bytes of a 16-bit number, most significant first.
pub open spec fn be_bytes(n: u16) -> Seq<u8> {
    seq![(n / 256) as u8, (n % 256) as u8]
}

/// The number that two bytes give, most significant first.
pub open spec fn be_value(hi: u8, lo: u8) -> u16 {
    (hi * 256 + lo) as u16
}

/// Appends a byte.
pub fn push_byte(out: &mut Vec<u8>, b: u8)
    ensures
        final(out)@ == old(out)@.push(b),
{
    out.push(b);
}

/// Appends the bytes of a slice.
pub fn push_bytes(out: &mut Vec<u8>, b: &[u8])
    ensures
        final(out)@ == old(out)@ + b@,
{
    let ghost start = out@;
    let mut i: usize = 0;
    while i < b.len()
        invariant
            i <= b@.len(),
            out@ == start + b@.take(i as int),
        decreases b@.len() - i,
    {
        out.push(b[i]);
        i = i + 1;
        assert(out@ =~= start + b@.take(i as int));
    }
    assert(b@.take(b@.len() as int) =~= b@);
}

/// Appends a 16-bit number, most significant byte first.
pub fn push_be(out: &mut Vec<u8>, n: u16)
    ensures
        final(out)@ == old(out)@ + be_bytes(n),
{
    out.push((n / 256) as u8);
    out.push((n % 256) as u8);
    assert(out@ =~= old(out)@ + be_bytes(n));
}

/// The number that two bytes give, most significant first.
pub fn read_be(hi: u8, lo: u8) -> (r: u16)
    ensures
        r == be_value(hi, lo),
        be_bytes(r) == seq![hi, lo],
{
    let r = (hi as u16) * 256 + (lo as u16);
    assert(be_bytes(r) =~= seq![hi, lo]);
    r
}

/// The bytes of a number, read back, are the number.
pub proof fn lemma_be_round_trip(n: u16)
    ensures
        be_value(be_bytes(n)[0], be_bytes(n)[1]) == n,
{
}

} // verus!
