//! Spans of time, and moments counted from the epoch of the system.
use vstd::prelude::*;

verus! {

/// The nanoseconds in a second.
pub const NANOS_PER_SEC: u32 = 1_000_000_000;

/// A span of time, to the nanosecond. A moment is the span since the epoch of the
/// system.
#[derive(Clone, Copy, Debug, PartialEq, Eq, Structural)]
pub struct Duration {
    secs: u64,
    nanos: u32,
}

/// The longest span, in nanoseconds.
pub open spec fn max_nanos() -> int {
    u64::MAX * NANOS_PER_SEC + (NANOS_PER_SEC - 1)
}

impl View for Duration {
    type V = int;

    /// The span in nanoseconds.
    closed spec fn view(&self) -> int {
        self.secs * NANOS_PER_SEC + self.nanos
    }
}

impl Duration {
    #[verifier::type_invariant]
    spec fn well_formed(self) -> bool {
        self.nanos < NANOS_PER_SEC
    }

    /// A span of whole seconds and nanoseconds. Nanoseconds that make up seconds are
    /// carried over.
    pub fn new(secs: u64, nanos: u32) -> (span: Option<Self>)
        ensures
            span is Some <==> secs + nanos / NANOS_PER_SEC <= u64::MAX,
            span matches Some(span) ==> span@ == secs * NANOS_PER_SEC + nanos,
    {
        match secs.checked_add((nanos / NANOS_PER_SEC) as u64) {
            Some(secs) => Some(Duration { secs, nanos: nanos % NANOS_PER_SEC }),
            None => None,
        }
    }

    /// A span of milliseconds.
    pub fn from_millis(millis: u64) -> (span: Self)
        ensures
            span@ == millis * 1_000_000,
    {
        Duration { secs: millis / 1000, nanos: (millis % 1000) as u32 * 1_000_000 }
    }

    /// The whole seconds of the span.
    pub fn as_secs(&self) -> (secs: u64)
        ensures
            secs == self@ / (NANOS_PER_SEC as int),
    {
        proof {
            use_type_invariant(self);
        }
        self.secs
    }

    /// The nanoseconds beyond the whole seconds.
    pub fn subsec_nanos(&self) -> (nanos: u32)
        ensures
            nanos == self@ % (NANOS_PER_SEC as int),
    {
        proof {
            use_type_invariant(self);
        }
        self.nanos
    }

    /// The sum of two spans, unless it is longer than a span can be.
    pub fn checked_add(self, other: Self) -> (sum: Option<Self>)
        ensures
            sum is Some <==> self@ + other@ <= max_nanos(),
            sum matches Some(sum) ==> sum@ == self@ + other@,
    {
        proof {
            use_type_invariant(&self);
            use_type_invariant(&other);
        }
        let nanos: u32 = self.nanos + other.nanos;
        match self.secs.checked_add(other.secs) {
            Some(secs) => Self::new(secs, nanos),
            None => None,
        }
    }
}

} // verus!
