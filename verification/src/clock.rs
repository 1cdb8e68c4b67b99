//! Moments and spans of time, to the nanosecond.
use vstd::prelude::*;

verus! {

/// A span of time.
#[derive(Clone, Copy, Debug, PartialEq, Eq, Structural)]
pub struct Duration {
    pub nanos: u128,
}

/// A moment, counted from when the clock was started.
#[derive(Clone, Copy, Debug, PartialEq, Eq, Structural)]
pub struct Instant {
    pub nanos: u128,
}

impl Duration {
    /// A span of whole seconds.
    pub fn from_secs(secs: u64) -> (r: Self)
        ensures
            r.nanos == secs * 1_000_000_000,
    {
        Duration { nanos: secs as u128 * 1_000_000_000 }
    }
}

/// How many nanoseconds after `earlier` the moment `later` is; none where it is
/// before it.
pub open spec fn elapsed(earlier: Instant, later: Instant) -> int {
    if later.nanos >= earlier.nanos {
        later.nanos - earlier.nanos
    } else {
        0
    }
}

impl Instant {
    /// The moment `since_start` after the clock was started.
    pub fn at(since_start: Duration) -> (r: Self)
        ensures
            r.nanos == since_start.nanos,
    {
        Instant { nanos: since_start.nanos }
    }

    /// How long after `earlier` this is; no time where it is before it.
    pub fn duration_since(self, earlier: Instant) -> (r: Duration)
        ensures
            r.nanos == elapsed(earlier, self),
    {
        if self.nanos >= earlier.nanos {
            Duration { nanos: self.nanos - earlier.nanos }
        } else {
            Duration { nanos: 0 }
        }
    }
}

/// Time only runs forward: from one moment to a later one as many nanoseconds pass
/// as lie between them, and from a moment to itself or an earlier one none do.
pub proof fn law_time_runs_forward(start: Instant, passed: Duration, later: Instant)
    ensures
        later.nanos == start.nanos + passed.nanos ==> elapsed(start, later) == passed.nanos,
        later.nanos <= start.nanos ==> elapsed(start, later) == 0,
        elapsed(start, later) >= 0,
{
}

} // verus!
