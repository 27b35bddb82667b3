//! The values the timers produce: non-negative delays with nanosecond
//! resolution, absolute points in time, and the `Stamp` that pairs the delay
//! since the previous reading with the delay since the stream's epoch.

use vstd::prelude::*;

verus! {

/// Nanoseconds in one second, the carry unit for all duration arithmetic here.
pub const NANOS_PER_SEC: u32 = 1_000_000_000;

/// A non-negative span of time: whole seconds plus a sub-second remainder in
/// nanoseconds. Well-formed values keep the remainder below one second.
#[derive(Clone, Copy, Debug, PartialEq, Eq, Structural)]
pub struct Delay {
    pub secs: u64,
    pub nanos: u32,
}

/// An absolute point in time: whole seconds relative to an epoch (negative
/// for points before it) plus a non-negative sub-second remainder in
/// nanoseconds.
#[derive(Clone, Copy, Debug, PartialEq, Eq, Structural)]
pub struct TimePoint {
    pub secs: i64,
    pub nanos: u32,
}

impl Delay {
    /// The span as a single mathematical count of nanoseconds.
    pub open spec fn ns(&self) -> int {
        self.secs * 1_000_000_000 + self.nanos
    }

    pub open spec fn wf(&self) -> bool {
        self.nanos < 1_000_000_000
    }

    /// The zero-length span.
    pub fn zero() -> (r: Delay)
        ensures
            r.ns() == 0,
            r.wf(),
    {
        Delay { secs: 0, nanos: 0 }
    }

    /// The span as executable nanoseconds; every representable value fits.
    pub fn as_nanos(&self) -> (r: u128)
        ensures
            r == self.ns(),
    {
        (self.secs as u128) * 1_000_000_000 + (self.nanos as u128)
    }

    /// `self - other`, clamped at zero instead of underflowing.
    pub fn saturating_sub(&self, other: &Delay) -> (r: Delay)
        requires
            self.wf(),
            other.wf(),
        ensures
            r.wf(),
            r.ns() == if self.ns() >= other.ns() {
                self.ns() - other.ns()
            } else {
                0
            },
    {
        if self.secs > other.secs || (self.secs == other.secs && self.nanos >= other.nanos) {
            if self.nanos >= other.nanos {
                Delay { secs: self.secs - other.secs, nanos: self.nanos - other.nanos }
            } else {
                Delay {
                    secs: self.secs - other.secs - 1,
                    nanos: self.nanos + NANOS_PER_SEC - other.nanos,
                }
            }
        } else {
            Delay { secs: 0, nanos: 0 }
        }
    }
}

impl TimePoint {
    /// The point as a mathematical count of nanoseconds from the epoch.
    pub open spec fn ns(&self) -> int {
        self.secs * 1_000_000_000 + self.nanos
    }

    /// Points coming out of the timestamp parser: the sub-second remainder
    /// stays below two seconds (the parser's representation of a leap second
    /// spills into a second billion), and the seconds stay within the
    /// parser's representable range of dates.
    pub open spec fn wf(&self) -> bool {
        &&& self.nanos < 2_000_000_000
        &&& -10_000_000_000_000 <= self.secs <= 10_000_000_000_000
    }

    /// The point as executable nanoseconds; every representable value fits.
    pub fn as_nanos(&self) -> (r: i128)
        ensures
            r == self.ns(),
    {
        (self.secs as i128) * 1_000_000_000 + (self.nanos as i128)
    }
}

/// Ordering on optional absolute times: an absent time sorts below every
/// present one, and present times compare by their position on the time line.
pub open spec fn opt_time_le(a: Option<TimePoint>, b: Option<TimePoint>) -> bool {
    match (a, b) {
        (None, _) => true,
        (Some(_), None) => false,
        (Some(x), Some(y)) => x.ns() <= y.ns(),
    }
}

/// One timestamp reading: the delay since the previous reading, the delay
/// since the stream's epoch (the first reading), and the absolute time of
/// this reading where the strategy has one.
#[derive(Clone, Copy, Debug, PartialEq, Eq, Structural)]
pub struct Stamp {
    pub last: Delay,
    pub total: Delay,
    pub utc: Option<TimePoint>,
}

impl Stamp {
    pub open spec fn wf(&self) -> bool {
        &&& self.last.wf()
        &&& self.total.wf()
        &&& match self.utc {
            Some(t) => t.nanos < 2_000_000_000,
            None => true,
        }
    }
}

/// The order stamps are ranked by: primarily the delay since the previous
/// reading, ties broken by the delay since the epoch, then by the absolute
/// time. A total preorder: reflexive, transitive, and total.
pub open spec fn stamp_le(a: Stamp, b: Stamp) -> bool {
    if a.last.ns() != b.last.ns() {
        a.last.ns() < b.last.ns()
    } else if a.total.ns() != b.total.ns() {
        a.total.ns() < b.total.ns()
    } else {
        opt_time_le(a.utc, b.utc)
    }
}

impl Stamp {
    /// Strict comparison under the stamp order, usable on any values.
    pub fn rank_gt(&self, other: &Stamp) -> (r: bool)
        ensures
            r == !stamp_le(*self, *other),
    {
        let a_last = self.last.as_nanos();
        let b_last = other.last.as_nanos();
        if a_last != b_last {
            return a_last > b_last;
        }
        let a_total = self.total.as_nanos();
        let b_total = other.total.as_nanos();
        if a_total != b_total {
            return a_total > b_total;
        }
        match (&self.utc, &other.utc) {
            (None, _) => false,
            (Some(_), None) => true,
            (Some(x), Some(y)) => x.as_nanos() > y.as_nanos(),
        }
    }
}

} // verus!
