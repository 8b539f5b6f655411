//! Spans of time, and the rule that a zero span means "no limit".
use vstd::prelude::*;

verus! {

/// Nanoseconds in a second.
pub const NANOS_PER_SEC: u32 = 1_000_000_000;

/// A span of time: whole seconds and the nanoseconds beyond them.
#[derive(Clone, Copy, Debug, PartialEq, Eq, Structural, Hash)]
pub struct Duration {
    secs: u64,
    nanos: u32,
}

impl View for Duration {
    /// The span in nanoseconds.
    type V = nat;

    closed spec fn view(&self) -> nat {
        (self.secs * 1_000_000_000 + self.nanos) as nat
    }
}

impl Duration {
    /// The seconds and the nanoseconds beyond them are what the span says:
    /// a number of nanoseconds has one such pair.
    #[verifier::type_invariant]
    closed spec fn well_formed(self) -> bool {
        self.nanos < NANOS_PER_SEC
    }

    pub closed spec fn secs_spec(self) -> u64 {
        self.secs
    }

    pub closed spec fn nanos_spec(self) -> u32 {
        self.nanos
    }

    /// A span of `secs` seconds and `nanos` nanoseconds, the nanoseconds that
    /// make whole seconds carried into the seconds.
    pub fn new(secs: u64, nanos: u32) -> (r: Duration)
        requires
            secs + nanos / 1_000_000_000 <= u64::MAX,
        ensures
            r@ == secs * 1_000_000_000 + nanos,
            r.secs_spec() == secs + nanos / 1_000_000_000,
            r.nanos_spec() == nanos % 1_000_000_000,
    {
        let extra = (nanos / NANOS_PER_SEC) as u64;
        let r = Duration { secs: secs + extra, nanos: nanos % NANOS_PER_SEC };
        assert(r@ == secs * 1_000_000_000 + nanos) by (nonlinear_arith)
            requires
                r.secs == secs + nanos / 1_000_000_000,
                r.nanos == nanos % 1_000_000_000,
                r@ == r.secs * 1_000_000_000 + r.nanos,
        ;
        r
    }

    /// A span of whole seconds.
    pub fn from_secs(secs: u64) -> (r: Duration)
        ensures
            r@ == secs * 1_000_000_000,
            r.secs_spec() == secs,
            r.nanos_spec() == 0,
    {
        Duration { secs, nanos: 0 }
    }

    /// A span of milliseconds.
    pub fn from_millis(millis: u64) -> (r: Duration)
        ensures
            r@ == millis * 1_000_000,
            r.secs_spec() == millis / 1000,
            r.nanos_spec() == (millis % 1000) * 1_000_000,
    {
        let secs = millis / 1000;
        let rest = millis % 1000;
        let nanos = (rest as u32) * 1_000_000;
        let r = Duration { secs, nanos };
        assert(r@ == millis * 1_000_000) by (nonlinear_arith)
            requires
                secs == millis / 1000,
                rest == millis % 1000,
                nanos == rest * 1_000_000,
                r@ == secs * 1_000_000_000 + nanos,
        ;
        r
    }

    /// The empty span.
    pub fn zero() -> (r: Duration)
        ensures
            r@ == 0,
    {
        Duration { secs: 0, nanos: 0 }
    }

    /// The whole seconds of the span.
    pub fn as_secs(&self) -> (r: u64)
        ensures
            r == self@ / 1_000_000_000,
            r == self.secs_spec(),
    {
        proof {
            use_type_invariant(self);
            let s = self.secs;
            let n = self.nanos;
            assert((s * 1_000_000_000 + n) / 1_000_000_000 == s) by (nonlinear_arith)
                requires
                    n < 1_000_000_000,
            ;
        }
        self.secs
    }

    /// The nanoseconds beyond the whole seconds.
    pub fn subsec_nanos(&self) -> (r: u32)
        ensures
            r == self@ % 1_000_000_000,
            r == self.nanos_spec(),
    {
        proof {
            use_type_invariant(self);
            let s = self.secs;
            let n = self.nanos;
            assert((s * 1_000_000_000 + n) % 1_000_000_000 == n) by (nonlinear_arith)
                requires
                    n < 1_000_000_000,
            ;
        }
        self.nanos
    }

    /// Whether the span is empty.
    pub fn is_zero(&self) -> (r: bool)
        ensures
            r == (self@ == 0),
    {
        self.secs == 0 && self.nanos == 0
    }
}

/// A limit of time where `d` is one: a zero span sets none.
pub open spec fn limit_of(d: Duration) -> Option<Duration> {
    if d@ == 0 {
        None
    } else {
        Some(d)
    }
}

/// The span as a time limit: none for a zero span, else the span itself.
pub fn safe_duration(d: Duration) -> (r: Option<Duration>)
    ensures
        r == limit_of(d),
        r is None <==> d@ == 0,
        r matches Some(x) ==> x == d,
{
    if d.is_zero() {
        None
    } else {
        Some(d)
    }
}

} // verus!
