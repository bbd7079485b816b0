//! Points on the UTC time line, held as plain integers.

use vstd::prelude::*;

verus! {

/// Seconds from the Unix epoch to the earliest instant: midnight on
/// 1 January of the year -262143 of the proleptic Gregorian calendar, which
/// is 96 465 292 days before 1 January 1970.
pub const MIN_SECS: i64 = -8_334_601_228_800;

/// Seconds from the Unix epoch to the last second of 31 December 262142,
/// which is 95 026 236 days after 1 January 1970.
pub const MAX_SECS: i64 = 8_210_266_876_799;

/// Nanoseconds in one second.
pub const NANOS_PER_SEC: u32 = 1_000_000_000;

/// Whether `secs` and `nanos` name an instant: the second lies between
/// [`MIN_SECS`] and [`MAX_SECS`], and the nanoseconds stay under one second,
/// or under two inside a leap second, which can only follow second 59 of a
/// minute.
pub open spec fn representable(secs: int, nanos: int) -> bool {
    &&& MIN_SECS <= secs <= MAX_SECS
    &&& 0 <= nanos < 2 * NANOS_PER_SEC
    &&& (nanos >= NANOS_PER_SEC ==> secs % 60 == 59)
}

/// An instant in UTC: whole seconds since the Unix epoch and the nanoseconds
/// into that second. Every value is [`representable`].
#[derive(Clone, Copy, Debug, PartialEq, Eq, Structural)]
pub struct Instant {
    pub(crate) secs: i64,
    pub(crate) nanos: u32,
}

impl Instant {
    /// Whole seconds since the Unix epoch.
    pub closed spec fn seconds(self) -> int {
        self.secs as int
    }

    /// Nanoseconds since the last whole second.
    pub closed spec fn nanos(self) -> int {
        self.nanos as int
    }

    /// What holds of every instant that a program can hold.
    #[verifier::type_invariant]
    pub open spec fn well_formed(self) -> bool {
        representable(self.seconds(), self.nanos())
    }

    /// `self` is no later than `other`.
    pub open spec fn le(self, other: Instant) -> bool {
        self.seconds() < other.seconds() || (self.seconds() == other.seconds() && self.nanos()
            <= other.nanos())
    }

    /// The instant `nanos` nanoseconds into second `secs`, where there is one.
    pub fn new(secs: i64, nanos: u32) -> (r: Option<Instant>)
        ensures
            r is Some <==> representable(secs as int, nanos as int),
            r matches Some(t) ==> t.seconds() == secs && t.nanos() == nanos,
    {
        if secs < MIN_SECS || secs > MAX_SECS || nanos >= 2 * NANOS_PER_SEC {
            return None;
        }
        if nanos >= NANOS_PER_SEC {
            match secs.checked_rem_euclid(60) {
                Some(r) => {
                    if r != 59 {
                        return None;
                    }
                },
                None => {
                    return None;
                },
            }
        }
        Some(Instant { secs, nanos })
    }

    /// Whole seconds since the Unix epoch.
    pub fn timestamp(&self) -> (r: i64)
        ensures
            r == self.seconds(),
    {
        self.secs
    }

    /// Nanoseconds since the last whole second.
    pub fn subsec_nanos(&self) -> (r: u32)
        ensures
            r == self.nanos(),
    {
        self.nanos
    }

    /// Tells whether `self` is no later than `other`.
    pub fn no_later_than(&self, other: &Instant) -> (r: bool)
        ensures
            r == self.le(*other),
    {
        self.secs < other.secs || (self.secs == other.secs && self.nanos <= other.nanos)
    }

    /// Two instants with the same seconds and nanoseconds are the same instant.
    pub proof fn lemma_same(a: Instant, b: Instant)
        requires
            a.seconds() == b.seconds(),
            a.nanos() == b.nanos(),
        ensures
            a == b,
    {
    }

    /// `le` is a total order on instants.
    pub proof fn lemma_le_total_order(a: Instant, b: Instant, c: Instant)
        ensures
            a.le(a),
            a.le(b) || b.le(a),
            a.le(b) && b.le(a) ==> a == b,
            a.le(b) && b.le(c) ==> a.le(c),
    {
    }
}

/// Order of optional instants in which an absent one comes before every
/// present one, and present ones go by [`Instant::le`].
pub open spec fn opt_le(a: Option<Instant>, b: Option<Instant>) -> bool {
    match (a, b) {
        (None, _) => true,
        (Some(_), None) => false,
        (Some(x), Some(y)) => x.le(y),
    }
}

/// Tells whether `a` comes no later than `b` in the order [`opt_le`].
pub fn opt_no_later_than(a: &Option<Instant>, b: &Option<Instant>) -> (r: bool)
    ensures
        r == opt_le(*a, *b),
{
    match (a, b) {
        (None, _) => true,
        (Some(_), None) => false,
        (Some(x), Some(y)) => x.no_later_than(y),
    }
}

} // verus!
