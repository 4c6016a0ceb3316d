//! Spans of time.
//!
//! Points in time are counted in nanoseconds from a fixed moment of the process, as `u64`.

use vstd::prelude::*;

verus! {

pub const NANOS_PER_SEC: u64 = 1_000_000_000;

/// A span of time: whole seconds and the nanoseconds beyond them.
#[derive(Clone, Copy, Debug, PartialEq, Eq, Structural)]
pub struct Duration {
    pub secs: u64,
    pub nanos: u32,
}

impl Duration {
    /// The length in nanoseconds.
    pub open spec fn total(self) -> int {
        self.secs * NANOS_PER_SEC + self.nanos
    }

    /// The nanoseconds stay below one second.
    pub open spec fn wf(self) -> bool {
        self.nanos < NANOS_PER_SEC
    }

    pub fn from_nanos(nanos: u64) -> (res: Duration)
        ensures
            res.total() == nanos,
            res.wf(),
            res.secs == nanos / 1_000_000_000,
            res.nanos == nanos % 1_000_000_000,
    {
        Duration { secs: nanos / NANOS_PER_SEC, nanos: (nanos % NANOS_PER_SEC) as u32 }
    }

    pub fn as_nanos(self) -> (res: u128)
        ensures
            res == self.total(),
            res == self.secs * 1_000_000_000 + self.nanos,
    {
        self.secs as u128 * 1_000_000_000 + self.nanos as u128
    }

    /// The length in whole microseconds.
    pub fn as_micros(self) -> (res: u128)
        ensures
            res == self.total() / 1000,
            res == (self.secs * 1_000_000_000 + self.nanos) / 1000,
    {
        self.as_nanos() / 1000
    }
}

/// A span is as long as its seconds and its nanoseconds together, and spans of one length that hold
/// less than a second of nanoseconds are the same.
pub proof fn law_spans_are_told_apart_by_their_length(a: Duration, b: Duration)
    ensures
        a.nanos == b.nanos ==> a.total() - b.total() == 1_000_000_000 * (a.secs - b.secs),
        a.secs == b.secs ==> a.total() - b.total() == a.nanos - b.nanos,
        a.wf() && b.wf() && a.total() == b.total() ==> a == b,
        a.wf() <==> a.nanos < 1_000_000_000,
{
}

/// A number of nanoseconds makes a span with that many nanoseconds, and the span gives it back.
pub proof fn law_spans_give_back_their_nanoseconds(
    nanos: u64,
    span: Duration,
    length: u128,
    micros: u128,
)
    requires
        call_ensures(Duration::from_nanos, (nanos,), span),
        call_ensures(Duration::as_nanos, (span,), length),
        call_ensures(Duration::as_micros, (span,), micros),
    ensures
        length == nanos,
        span.secs * 1_000_000_000 + span.nanos == nanos,
        span.nanos < 1_000_000_000,
        1000 * micros <= nanos < 1000 * micros + 1000,
{
}

} // verus!
