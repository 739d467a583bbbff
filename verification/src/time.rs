//! Instants and lengths of time.
//!
//! An instant is a count of nanoseconds since the Unix epoch, and the distance
//! between two instants is a signed count of nanoseconds. Distances are plain
//! `i128` values: no two instants are so far apart that one would overflow.

use vstd::prelude::*;

use crate::num;

verus! {

/// Nanoseconds in a second.
pub const NANOS_PER_SEC: i128 = 1_000_000_000;

/// Nanoseconds in a millisecond.
pub const NANOS_PER_MILLI: i128 = 1_000_000;

/// The longest length a window can be measured by: `i64::MAX` milliseconds,
/// in nanoseconds.
pub const MAX_LENGTH: i128 = 9_223_372_036_854_775_807_000_000;

/// The first instant there is, in nanoseconds since the epoch: the start of the
/// year -262143.
pub const FIRST: i128 = -8_334_601_228_800_000_000_000;

/// The last instant there is, in nanoseconds since the epoch: the end of the
/// year 262142.
pub const LAST: i128 = 8_210_266_876_799_999_999_999;

/// An instant in UTC.
#[derive(Debug, Clone, Copy, PartialEq, Eq, Structural)]
pub struct Timestamp {
    /// Whole seconds since the epoch, rounded down.
    secs: i64,
    /// Nanoseconds past that second.
    nanos: u32,
}

/// A non-negative length of time.
#[derive(Debug, Clone, Copy, PartialEq, Eq, Structural)]
pub struct Duration {
    /// Whole seconds.
    pub secs: u64,
    /// Nanoseconds past those.
    pub nanos: u32,
}

/// Whether there is an instant so many nanoseconds from the epoch.
pub open spec fn representable(at: int) -> bool {
    FIRST <= at <= LAST
}

impl Timestamp {
    #[verifier::type_invariant]
    closed spec fn valid(self) -> bool {
        &&& self.nanos < NANOS_PER_SEC
        &&& FIRST <= self.secs * NANOS_PER_SEC + self.nanos <= LAST
    }

    /// Nanoseconds since the epoch.
    pub closed spec fn at(self) -> int {
        self.secs * NANOS_PER_SEC + self.nanos
    }

    /// The instant so many nanoseconds from the epoch.
    pub closed spec fn instant(at: int) -> Timestamp {
        Timestamp {
            secs: (at / NANOS_PER_SEC as int) as i64,
            nanos: (at % NANOS_PER_SEC as int) as u32,
        }
    }

    /// Nanoseconds since the epoch.
    pub fn nanos_since_epoch(self) -> (r: i128)
        ensures
            r == self.at(),
            representable(r as int),
    {
        proof {
            use_type_invariant(self);
        }
        self.secs as i128 * NANOS_PER_SEC + self.nanos as i128
    }

    /// The instant `at` nanoseconds from the epoch.
    pub fn from_nanos(at: i128) -> (r: Timestamp)
        requires
            representable(at as int),
        ensures
            r.at() == at,
            r == Timestamp::instant(at as int),
    {
        let secs: i128 = num::floor_div(at, NANOS_PER_SEC);
        let nanos: i128 = at - secs * NANOS_PER_SEC;
        Timestamp { secs: secs as i64, nanos: nanos as u32 }
    }

    /// The instant `at` nanoseconds from the epoch, if there is one.
    pub fn checked_from_nanos(at: i128) -> (r: Option<Timestamp>)
        ensures
            r is Some <==> representable(at as int),
            r is Some ==> (r->0).at() == at,
    {
        if FIRST <= at && at <= LAST {
            Some(Timestamp::from_nanos(at))
        } else {
            None
        }
    }

    /// How far `self` lies after `earlier`, in nanoseconds; negative when it
    /// lies before.
    pub fn since(self, earlier: Timestamp) -> (r: i128)
        ensures
            r == self.at() - earlier.at(),
            FIRST - LAST <= r <= LAST - FIRST,
    {
        self.nanos_since_epoch() - earlier.nanos_since_epoch()
    }

    /// Whether `self` is strictly before `other`.
    pub fn before(self, other: Timestamp) -> (r: bool)
        ensures
            r == (self.at() < other.at()),
    {
        self.nanos_since_epoch() < other.nanos_since_epoch()
    }

    /// Whether the two are the same instant.
    pub fn same(self, other: Timestamp) -> (r: bool)
        ensures
            r == (self.at() == other.at()),
    {
        self.nanos_since_epoch() == other.nanos_since_epoch()
    }
}

impl Duration {
    /// The length in nanoseconds.
    pub open spec fn len(self) -> int {
        self.secs * NANOS_PER_SEC + self.nanos
    }

    /// The length in nanoseconds.
    pub fn as_nanos(self) -> (r: i128)
        ensures
            r == self.len(),
    {
        self.secs as i128 * NANOS_PER_SEC + self.nanos as i128
    }
}

/// The instant so many nanoseconds from the epoch is so many nanoseconds from
/// the epoch.
pub proof fn instants_are_where_they_say(at: int)
    requires
        representable(at),
    ensures
        Timestamp::instant(at).at() == at,
{
    let secs = at / NANOS_PER_SEC as int;
    assert(i64::MIN <= secs <= i64::MAX);
}

/// The whole seconds of a signed length, rounded towards zero.
pub fn whole_secs(length: i128) -> (r: i128)
    requires
        length > i128::MIN,
    ensures
        r == num::truncated(length as int, NANOS_PER_SEC as int),
{
    num::truncated_div(length, NANOS_PER_SEC)
}

/// The calendar holds every instant from the year -262143 to the year 262142,
/// and lengths count a thousand million nanoseconds to the second.
pub proof fn the_calendar_spans_its_years(at: int, length: Duration)
    ensures
        representable(at) <==> -8_334_601_228_800_000_000_000 <= at
            <= 8_210_266_876_799_999_999_999,
        length.len() == length.secs * 1_000_000_000 + length.nanos,
{
}

/// No two instants are the same number of nanoseconds from the epoch, so far as
/// there are instants.
pub proof fn the_instant_at_an_instant_is_that_instant(a: int, b: int)
    requires
        representable(a),
        representable(b),
        Timestamp::instant(a) == Timestamp::instant(b),
    ensures
        a == b,
{
    instants_are_where_they_say(a);
    instants_are_where_they_say(b);
}

} // verus!
