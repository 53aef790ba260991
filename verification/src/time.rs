//! Points in time, in nanoseconds since the epoch.

use vstd::prelude::*;

verus! {

/// Nanoseconds in one second.
pub const NANOS_PER_SECOND: u64 = 1_000_000_000;

/// A point in time with nanosecond precision.
#[derive(Clone, Copy, Debug, PartialEq, Eq, Structural)]
pub struct Timestamp {
    /// Nanoseconds since the epoch.
    pub nanos: u64,
}

impl Timestamp {
    /// The point in time `nanos` nanoseconds after the epoch.
    pub fn from_nanos(nanos: u64) -> (t: Timestamp)
        ensures
            t.nanos == nanos,
    {
        Timestamp { nanos }
    }

    /// The point in time `seconds` whole seconds after the epoch.
    pub fn from_seconds(seconds: u64) -> (t: Timestamp)
        requires
            seconds * NANOS_PER_SECOND <= u64::MAX,
        ensures
            t.nanos == seconds * NANOS_PER_SECOND,
    {
        Timestamp { nanos: seconds * NANOS_PER_SECOND }
    }

    /// Whether `self` plus `delay_seconds` lies strictly before `now`. The sum
    /// is taken over the unbounded integers: a deadline past the last
    /// representable instant is never reached.
    pub open spec fn elapsed_before(self, delay_seconds: u64, now: Timestamp) -> bool {
        self.nanos + delay_seconds * NANOS_PER_SECOND < now.nanos
    }

    /// Decides `elapsed_before`.
    pub fn has_elapsed_before(&self, delay_seconds: u64, now: Timestamp) -> (b: bool)
        ensures
            b == self.elapsed_before(delay_seconds, now),
    {
        let delay: u128 = delay_seconds as u128;
        let scale: u128 = NANOS_PER_SECOND as u128;
        assert(delay * scale <= 0xffff_ffff_ffff_ffff * 1_000_000_000) by (nonlinear_arith)
            requires
                delay <= 0xffff_ffff_ffff_ffff,
                scale == 1_000_000_000,
        ;
        let deadline: u128 = self.nanos as u128 + delay * scale;
        deadline < now.nanos as u128
    }
}

} // verus!
