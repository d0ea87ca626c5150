//! Instants as epoch seconds plus a sub-second part, and the clock.

use vstd::prelude::*;

verus! {

/// Nanoseconds in one second.
pub const NANOS_PER_SEC: u32 = 1_000_000_000;

/// Largest distance from the epoch, in seconds, of a well-formed instant
/// (about 253,000 years), well inside every calendar date chrono represents.
pub const SPAN_SECS: i64 = 8_000_000_000_000;

/// A bound on the epoch seconds that chrono's clock can report: it builds
/// no date past the end of the year 262,142.
pub const CLOCK_MAX_SECS: i64 = 8_300_000_000_000;

/// An instant: whole seconds since the Unix epoch and the nanoseconds past
/// that second.  Instants are ordered by seconds first, then nanoseconds.
#[derive(Clone, Copy, Debug, PartialEq, Eq, Structural)]
pub struct Timestamp {
    pub secs: i64,
    pub nanos: u32,
}

impl Timestamp {
    /// An instant this library can represent and decode again.
    pub open spec fn wf(self) -> bool {
        &&& self.nanos < NANOS_PER_SEC
        &&& -SPAN_SECS <= self.secs <= SPAN_SECS
    }

    /// What a reading of the clock satisfies.
    pub open spec fn is_clock_reading(self) -> bool {
        &&& self.nanos < NANOS_PER_SEC
        &&& 0 <= self.secs <= CLOCK_MAX_SECS
    }

    /// `self` lies strictly after the instant `(secs, nanos)`.
    pub open spec fn after(self, secs: int, nanos: int) -> bool {
        self.secs > secs || (self.secs == secs && self.nanos > nanos)
    }

    /// `self` lies strictly before the instant `(secs, nanos)`.
    pub open spec fn before(self, secs: int, nanos: int) -> bool {
        self.secs < secs || (self.secs == secs && self.nanos < nanos)
    }

    /// The same instant with its sub-second part dropped.
    pub open spec fn whole_seconds(self) -> Timestamp {
        Timestamp { secs: self.secs, nanos: 0 }
    }

    /// The instant `delta` seconds later, with the same sub-second part.
    pub fn plus_seconds(self, delta: i64) -> (r: Timestamp)
        requires
            0 <= delta,
            self.secs + delta <= i64::MAX,
        ensures
            r.secs == self.secs + delta,
            r.nanos == self.nanos,
    {
        Timestamp { secs: self.secs + delta, nanos: self.nanos }
    }

    /// Whether `self` lies strictly after `other`.
    pub fn is_after(&self, other: &Timestamp) -> (r: bool)
        ensures
            r == self.after(other.secs as int, other.nanos as int),
    {
        self.secs > other.secs || (self.secs == other.secs && self.nanos > other.nanos)
    }

    /// Whether `self` lies strictly before `other`.
    pub fn is_before(&self, other: &Timestamp) -> (r: bool)
        ensures
            r == self.before(other.secs as int, other.nanos as int),
    {
        self.secs < other.secs || (self.secs == other.secs && self.nanos < other.nanos)
    }
}

/// Whether chrono has a calendar date for this many seconds after the epoch.
pub uninterp spec fn epoch_seconds_in_calendar(secs: int) -> bool;

/// Whether an epoch second can be read back as a date: always within
/// `SPAN_SECS` of the epoch, and beyond that as far as chrono's calendar
/// reaches.
pub open spec fn has_calendar_date(secs: int) -> bool {
    (-SPAN_SECS <= secs <= SPAN_SECS) || epoch_seconds_in_calendar(secs)
}

/// Relies on chrono's `Utc::now`: it reads the system clock, panics before
/// the epoch, and builds the date with `DateTime::from_timestamp(..).unwrap()`,
/// so a reading it returns has non-negative seconds inside chrono's range and
/// a sub-second part below one second.
#[verifier::external_body]
pub(crate) fn now() -> (r: Timestamp)
    ensures
        r.is_clock_reading(),
{
    let t = chrono::Utc::now();
    Timestamp { secs: t.timestamp(), nanos: t.timestamp_subsec_nanos() }
}

/// Relies on chrono's `DateTime::from_timestamp(secs, 0)`: `None` when the
/// seconds fall outside its calendar, else the instant whose `timestamp()`
/// is `secs`, with no sub-second part.  That calendar runs from the year
/// -262143 to the year 262142, beyond `SPAN_SECS` on both sides.
#[verifier::external_body]
pub(crate) fn decode_epoch_seconds(secs: i64) -> (r: Option<Timestamp>)
    ensures
        r is Some == (-SPAN_SECS <= secs <= SPAN_SECS || epoch_seconds_in_calendar(secs as int)),
        r is Some ==> r->0 == (Timestamp { secs, nanos: 0 }),
{
    chrono::DateTime::from_timestamp(secs, 0).map(|d| Timestamp { secs: d.timestamp(), nanos: d.timestamp_subsec_nanos() })
}

} // verus!
