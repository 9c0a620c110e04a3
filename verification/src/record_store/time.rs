//! Points in time as plain numbers, and the one place where the system clock
//! is read.

use vstd::prelude::*;

verus! {

/// Nanoseconds in a second.
pub const NANOS_PER_SEC: u128 = 1_000_000_000;

/// A point in time: nanoseconds since the Unix epoch.
#[derive(Debug, Clone, Copy, PartialEq, Eq, Structural)]
pub struct Timestamp {
    pub nanos: u128,
}

/// Nanoseconds that pass from `from` to `to`: zero when `to` is not later.
pub open spec fn nanos_between(from: Timestamp, to: Timestamp) -> int {
    if to.nanos <= from.nanos {
        0
    } else {
        to.nanos - from.nanos
    }
}

/// Whole seconds that pass from `from` to `to`: zero when `to` is not later,
/// and never more than a `u64` holds.
pub open spec fn whole_secs_between(from: Timestamp, to: Timestamp) -> int {
    if to.nanos <= from.nanos {
        0
    } else {
        let secs = (to.nanos - from.nanos) / (NANOS_PER_SEC as int);
        if secs > u64::MAX {
            u64::MAX as int
        } else {
            secs
        }
    }
}

/// The point in time that a reading of the clock stands for. A reading of
/// `None` comes from a clock that stands before the epoch and counts as the
/// epoch itself.
pub open spec fn reading_as_timestamp(reading: Option<u128>) -> Timestamp {
    match reading {
        Some(nanos) => Timestamp { nanos },
        None => Timestamp { nanos: 0 },
    }
}

/// Reads the system clock by `std::time::SystemTime::elapsed` on
/// `UNIX_EPOCH` and gives the nanoseconds that passed since the epoch, or
/// `None` where the clock stands before it. The reading differs from call to
/// call, so the contract claims nothing of it.
#[verifier::external_body]
fn nanos_since_epoch() -> Option<u128> {
    match std::time::UNIX_EPOCH.elapsed() {
        Ok(elapsed) => Some(elapsed.as_nanos()),
        Err(_) => None,
    }
}

impl Timestamp {
    /// The point in time `secs` whole seconds after the epoch.
    pub fn from_secs(secs: u64) -> (t: Timestamp)
        ensures
            t.nanos == secs * NANOS_PER_SEC,
    {
        let wide: u128 = secs as u128;
        Timestamp { nanos: wide * NANOS_PER_SEC }
    }

    /// The point in time that a reading of the clock stands for: the
    /// nanoseconds that it gives, or the epoch where it gives none.
    pub fn from_reading(reading: Option<u128>) -> (t: Timestamp)
        ensures
            t == reading_as_timestamp(reading),
    {
        match reading {
            Some(nanos) => Timestamp { nanos },
            None => Timestamp { nanos: 0 },
        }
    }

    /// The current reading of the system clock. Whatever the clock gives,
    /// the result is what [`Timestamp::from_reading`] makes of it.
    pub fn now() -> (t: Timestamp)
        ensures
            exists|reading: Option<u128>| t == #[trigger] reading_as_timestamp(reading),
    {
        Self::from_reading(nanos_since_epoch())
    }

    /// The later of two points in time.
    pub fn later_of(self, other: Timestamp) -> (t: Timestamp)
        ensures
            t == if self.nanos >= other.nanos { self } else { other },
    {
        if self.nanos >= other.nanos {
            self
        } else {
            other
        }
    }

    /// Nanoseconds from `earlier` to `self`, zero if `self` is not later.
    pub fn nanos_since(&self, earlier: &Timestamp) -> (nanos: u128)
        ensures
            nanos == nanos_between(*earlier, *self),
    {
        if self.nanos <= earlier.nanos {
            0
        } else {
            self.nanos - earlier.nanos
        }
    }

    /// Whole seconds from `earlier` to `self`, zero if `self` is not later.
    pub fn whole_secs_since(&self, earlier: &Timestamp) -> (secs: u64)
        ensures
            secs == whole_secs_between(*earlier, *self),
    {
        if self.nanos <= earlier.nanos {
            0
        } else {
            let secs: u128 = (self.nanos - earlier.nanos) / NANOS_PER_SEC;
            if secs > u64::MAX as u128 {
                u64::MAX
            } else {
                secs as u64
            }
        }
    }
}

} // verus!
