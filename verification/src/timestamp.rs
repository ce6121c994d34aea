//! Modification times and their order.

use vstd::prelude::*;

verus! {

/// A point in time as a file records it: whole seconds and the nanoseconds
/// within the second. Two timestamps are ordered by their seconds, and by
/// their nanoseconds where the seconds are the same.
#[derive(Debug, Clone, Copy, PartialEq, Eq, Hash, Structural)]
pub struct Timestamp {
    pub seconds: i64,
    pub nanos: u32,
}

impl Timestamp {
    /// Whether `self` lies strictly before `other`.
    pub open spec fn before(self, other: Timestamp) -> bool {
        self.seconds < other.seconds || (self.seconds == other.seconds && self.nanos
            < other.nanos)
    }

    pub fn new(seconds: i64, nanos: u32) -> (stamp: Timestamp)
        ensures
            stamp.seconds == seconds,
            stamp.nanos == nanos,
    {
        Timestamp { seconds, nanos }
    }

    /// Whether `self` lies strictly before `other`.
    pub fn is_before(&self, other: &Timestamp) -> (earlier: bool)
        ensures
            earlier == self.before(*other),
    {
        self.seconds < other.seconds || (self.seconds == other.seconds && self.nanos
            < other.nanos)
    }

    /// Whether both name the same instant.
    pub fn same_instant(&self, other: &Timestamp) -> (same: bool)
        ensures
            same == (*self == *other),
    {
        self.seconds == other.seconds && self.nanos == other.nanos
    }
}

/// Of two timestamps exactly one holds: the first is before the second, they
/// are equal, or the second is before the first.
pub proof fn timestamps_are_totally_ordered(s: Timestamp, t: Timestamp)
    ensures
        s.before(t) || s == t || t.before(s),
        !(s.before(t) && s == t),
        !(s.before(t) && t.before(s)),
        !(s == t && t.before(s)),
{
}

/// What is before an earlier timestamp is before every later one.
pub proof fn before_is_transitive(r: Timestamp, s: Timestamp, t: Timestamp)
    requires
        r.before(s),
        s.before(t),
    ensures
        r.before(t),
{
}

} // verus!
