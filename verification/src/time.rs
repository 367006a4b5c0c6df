//! Points in time as whole seconds and nanoseconds since the Unix epoch.

use vstd::prelude::*;

verus! {

/// Nanoseconds in one second.
pub const NANOS_PER_SECOND: u32 = 1_000_000_000;

/// The whole seconds in a span of `nanos` nanoseconds, rounded toward zero.
pub open spec fn whole_seconds(nanos: int) -> int {
    if nanos >= 0 {
        nanos / 1_000_000_000
    } else {
        -((-nanos) / 1_000_000_000)
    }
}

/// `value` limited to the range of `i64`.
pub open spec fn clamp_to_i64(value: int) -> int {
    if value < i64::MIN {
        i64::MIN as int
    } else if value > i64::MAX {
        i64::MAX as int
    } else {
        value
    }
}

/// A point in time: whole seconds since the Unix epoch and the nanoseconds
/// past that second. Its view is the number of nanoseconds since the epoch.
#[derive(Clone, Copy, Debug)]
pub struct Timestamp {
    secs: i64,
    nanos: u32,
}

impl View for Timestamp {
    type V = int;

    closed spec fn view(&self) -> int {
        self.secs * 1_000_000_000 + self.nanos
    }
}

impl Timestamp {
    #[verifier::type_invariant]
    spec fn well_formed(self) -> bool {
        self.nanos < NANOS_PER_SECOND
    }

    /// The timestamp `secs` seconds and `nanos` nanoseconds after the epoch,
    /// or `None` when `nanos` is a second or more.
    pub fn new(secs: i64, nanos: u32) -> (result: Option<Timestamp>)
        ensures
            nanos < NANOS_PER_SECOND <==> result is Some,
            result matches Some(t) ==> t@ == secs * 1_000_000_000 + nanos,
    {
        if nanos < NANOS_PER_SECOND {
            Some(Timestamp { secs, nanos })
        } else {
            None
        }
    }

    /// The whole seconds since the epoch, rounded toward negative infinity.
    pub fn secs(&self) -> (result: i64)
        ensures
            result == self@ / 1_000_000_000,
    {
        proof {
            use_type_invariant(self);
        }
        self.secs
    }

    /// The nanoseconds past the whole second.
    pub fn nanos(&self) -> (result: u32)
        ensures
            result == self@ % 1_000_000_000,
            result < NANOS_PER_SECOND,
    {
        proof {
            use_type_invariant(self);
        }
        self.nanos
    }

    /// The whole seconds that have passed from `earlier` to `self`, rounded
    /// toward zero and limited to the range of `i64`. The result is negative
    /// when `self` lies more than a second before `earlier`.
    pub fn whole_seconds_since(&self, earlier: &Timestamp) -> (result: i64)
        ensures
            result == clamp_to_i64(whole_seconds(self@ - earlier@)),
    {
        proof {
            use_type_invariant(self);
            use_type_invariant(earlier);
        }
        let seconds_apart: i128 = self.secs as i128 - earlier.secs as i128;
        let whole: i128 = if seconds_apart > 0 && self.nanos < earlier.nanos {
            seconds_apart - 1
        } else if seconds_apart < 0 && self.nanos > earlier.nanos {
            seconds_apart + 1
        } else {
            seconds_apart
        };
        if whole < i64::MIN as i128 {
            i64::MIN
        } else if whole > i64::MAX as i128 {
            i64::MAX
        } else {
            whole as i64
        }
    }

    /// The timestamp `seconds` whole seconds after `self`, or `None` when
    /// its seconds since the epoch no longer fit in an `i64`.
    pub fn plus_seconds(&self, seconds: u64) -> (result: Option<Timestamp>)
        ensures
            self@ / 1_000_000_000 + seconds <= i64::MAX <==> result is Some,
            result matches Some(t) ==> t@ == self@ + seconds * 1_000_000_000,
    {
        proof {
            use_type_invariant(self);
        }
        let secs: i128 = self.secs as i128 + seconds as i128;
        if secs <= i64::MAX as i128 {
            Some(Timestamp { secs: secs as i64, nanos: self.nanos })
        } else {
            None
        }
    }
}

} // verus!
