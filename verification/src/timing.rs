//! Elapsed time and the rotation angle derived from it.

use vstd::prelude::*;

verus! {

/// Nanoseconds in one second.
pub const NANOS_PER_SEC: u32 = 1_000_000_000;

/// Time elapsed since the engine was started, as whole seconds and the
/// nanoseconds of the second in progress.
#[derive(Clone, Copy, Debug, PartialEq, Eq, Structural)]
pub struct Elapsed {
    pub secs: u64,
    pub subsec_nanos: u32,
}

/// The rotation angle about the vertical axis, in billionths of a radian:
/// one radian per elapsed second.
pub open spec fn rotation_angle(elapsed: Elapsed) -> int {
    elapsed.secs as int * 1_000_000_000 + elapsed.subsec_nanos as int
}

impl Elapsed {
    /// The nanosecond part stays below one second.
    pub open spec fn normalized(self) -> bool {
        self.subsec_nanos < NANOS_PER_SEC
    }

    /// `self` is no later than `other`, for normalized values.
    pub open spec fn no_later_than(self, other: Elapsed) -> bool {
        self.secs < other.secs || (self.secs == other.secs && self.subsec_nanos
            <= other.subsec_nanos)
    }

    /// Builds a value from a second count and a nanosecond part; the
    /// nanosecond part must stay below one second.
    pub fn new(secs: u64, subsec_nanos: u32) -> (r: Option<Elapsed>)
        ensures
            subsec_nanos < NANOS_PER_SEC ==> r == Some(Elapsed { secs, subsec_nanos }),
            subsec_nanos >= NANOS_PER_SEC ==> r.is_none(),
    {
        if subsec_nanos < NANOS_PER_SEC {
            Some(Elapsed { secs, subsec_nanos })
        } else {
            None
        }
    }

    /// The rotation angle for this elapsed time, in billionths of a radian.
    pub fn rotation_nanos(&self) -> (r: u128)
        ensures
            r == rotation_angle(*self),
    {
        let secs: u128 = self.secs as u128;
        let nanos: u128 = self.subsec_nanos as u128;
        secs * 1_000_000_000u128 + nanos
    }
}

/// The rotation angle never decreases as time passes, and equal elapsed
/// times give equal angles.
pub proof fn rotation_is_monotonic(earlier: Elapsed, later: Elapsed)
    requires
        earlier.normalized(),
        later.normalized(),
        earlier.no_later_than(later),
    ensures
        rotation_angle(earlier) <= rotation_angle(later),
        earlier == later ==> rotation_angle(earlier) == rotation_angle(later),
{
}

} // verus!
