//! Monotonic time values with microsecond resolution and 32-bit magnitude.
//!
//! These values are made for the BLE stack and are not general-purpose: an
//! [`Instant`] wraps around after about 71 minutes, and all arithmetic is done
//! in whole microseconds, so nothing below microsecond resolution is ever
//! silently truncated.

use vstd::prelude::*;

verus! {

/// The BLE Inter-Frame Space in microseconds: the mandated gap between a
/// received packet and the transmitted response.
pub const T_IFS_MICROS: u32 = 150;

/// A span of time, counted in whole microseconds.
#[derive(Clone, Copy, PartialEq, Eq, Structural, Debug)]
pub struct Duration {
    micros: u32,
}

impl Duration {
    /// The number of microseconds this duration stands for.
    pub closed spec fn spec_micros(self) -> u32 {
        self.micros
    }

    /// Creates a duration of `us` microseconds.
    pub fn micros(us: u32) -> (d: Duration)
        ensures
            d.spec_micros() == us,
    {
        Duration { micros: us }
    }

    /// Returns the number of whole microseconds, exactly.
    pub fn to_micros(self) -> (us: u32)
        ensures
            us == self.spec_micros(),
    {
        self.micros
    }

    /// Adds two durations. Returns `None` on 32-bit overflow instead of
    /// truncating; a `Some` result is always exact to the microsecond.
    pub fn checked_add(self, other: Duration) -> (r: Option<Duration>)
        ensures
            self.spec_micros() + other.spec_micros() <= u32::MAX ==> (r matches Some(d)
                && d.spec_micros() == self.spec_micros() + other.spec_micros()),
            self.spec_micros() + other.spec_micros() > u32::MAX ==> r is None,
    {
        match self.micros.checked_add(other.micros) {
            Some(us) => Some(Duration { micros: us }),
            None => None,
        }
    }

    /// Subtracts `other` from `self`. Returns `None` if `other` is longer
    /// than `self`; a `Some` result is always exact to the microsecond.
    pub fn checked_sub(self, other: Duration) -> (r: Option<Duration>)
        ensures
            other.spec_micros() <= self.spec_micros() ==> (r matches Some(d)
                && d.spec_micros() == self.spec_micros() - other.spec_micros()),
            other.spec_micros() > self.spec_micros() ==> r is None,
    {
        match self.micros.checked_sub(other.micros) {
            Some(us) => Some(Duration { micros: us }),
            None => None,
        }
    }
}

/// The Inter-Frame Space as a [`Duration`]: exactly 150 microseconds.
pub fn t_ifs() -> (d: Duration)
    ensures
        d.spec_micros() == T_IFS_MICROS,
{
    Duration::micros(T_IFS_MICROS)
}

/// A point on a monotonic clock, counted in microseconds since an arbitrary
/// epoch. The 32-bit count wraps around after about 71 minutes, so
/// differences must be taken with wraparound-aware arithmetic.
#[derive(Clone, Copy, PartialEq, Eq, Structural, Debug)]
pub struct Instant {
    micros: u32,
}

impl Instant {
    /// The microsecond count of this instant.
    pub closed spec fn spec_micros(self) -> u32 {
        self.micros
    }

    /// Creates an instant from a raw microsecond count.
    pub fn from_micros(us: u32) -> (t: Instant)
        ensures
            t.spec_micros() == us,
    {
        Instant { micros: us }
    }

    /// Returns the raw microsecond count.
    pub fn to_micros(self) -> (us: u32)
        ensures
            us == self.spec_micros(),
    {
        self.micros
    }

    /// The instant `d` after `self`, wrapping around at the 32-bit boundary.
    pub fn wrapping_add(self, d: Duration) -> (t: Instant)
        ensures
            self.spec_micros() + d.spec_micros() <= u32::MAX ==> t.spec_micros()
                == self.spec_micros() + d.spec_micros(),
            self.spec_micros() + d.spec_micros() > u32::MAX ==> t.spec_micros()
                == self.spec_micros() + d.spec_micros() - 0x1_0000_0000,
    {
        Instant { micros: self.micros.wrapping_add(d.to_micros()) }
    }

    /// The duration from `earlier` to `self`, wraparound-aware: correct
    /// whenever `self` is at most one wraparound period after `earlier`.
    pub fn duration_since(self, earlier: Instant) -> (d: Duration)
        ensures
            earlier.spec_micros() <= self.spec_micros() ==> d.spec_micros()
                == self.spec_micros() - earlier.spec_micros(),
            earlier.spec_micros() > self.spec_micros() ==> d.spec_micros()
                == self.spec_micros() - earlier.spec_micros() + 0x1_0000_0000,
    {
        Duration { micros: self.micros.wrapping_sub(earlier.micros) }
    }
}

/// A monotonic clock capability: hardware (or test code) implements this to
/// supply the current time to the stack with microsecond accuracy.
pub trait Timer {
    /// Obtains the current time as an [`Instant`].
    ///
    /// The instants returned must never move backwards in time, except when
    /// the underlying 32-bit value wraps around.
    fn now(&self) -> Instant;
}

} // verus!
