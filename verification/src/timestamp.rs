//! Instants, as nanoseconds since the Unix epoch.

use vstd::prelude::*;

use crate::outside;

verus! {

/// Nanoseconds in a second.
pub const NANOS_PER_SECOND: i128 = 1_000_000_000;

/// The first second that a timestamp can fall in: midnight of 1 January in the year -9999 (UTC).
pub const MIN_SECONDS: i128 = -377_705_116_800;

/// The last second that a timestamp can fall in: the one before midnight that ends the year 9999
/// (UTC).
pub const MAX_SECONDS: i128 = 253_402_300_799;

/// The whole seconds in a number of nanoseconds, rounded towards the past.
pub open spec fn floor_seconds(nanos: int) -> int {
    nanos / (NANOS_PER_SECOND as int)
}

/// Whether an instant, in nanoseconds since the Unix epoch, falls in the years -9999 to 9999.
pub open spec fn in_calendar(nanos: int) -> bool {
    MIN_SECONDS <= floor_seconds(nanos) <= MAX_SECONDS
}

/// An instant in the years -9999 to 9999. Its view is the number of nanoseconds from the Unix
/// epoch to it.
#[derive(Clone, Copy, PartialEq, Eq, Structural, Debug)]
pub struct Timestamp {
    nanos: i128,
}

impl View for Timestamp {
    type V = int;

    closed spec fn view(&self) -> int {
        self.nanos as int
    }
}

impl Timestamp {
    #[verifier::type_invariant]
    spec fn valid(self) -> bool {
        in_calendar(self.nanos as int)
    }

    /// The instant `nanos` nanoseconds after the Unix epoch (before it, where negative), if it
    /// falls in the years -9999 to 9999.
    pub fn from_unix_timestamp_nanos(nanos: i128) -> (timestamp: Option<Timestamp>)
        ensures
            match timestamp {
                Some(t) => in_calendar(nanos as int) && t@ == nanos,
                None => !in_calendar(nanos as int),
            },
    {
        match offset_date_time(nanos) {
            Some(nanos) => Some(Timestamp { nanos }),
            None => None,
        }
    }

    /// The nanoseconds from the Unix epoch to this instant.
    pub fn unix_timestamp_nanos(&self) -> (nanos: i128)
        ensures
            nanos == self@,
            in_calendar(nanos as int),
    {
        proof {
            use_type_invariant(self);
        }
        self.nanos
    }

    /// The whole seconds from the Unix epoch to this instant, rounded towards the past.
    pub fn unix_timestamp(&self) -> (seconds: i64)
        ensures
            seconds == floor_seconds(self@),
    {
        proof {
            use_type_invariant(self);
        }
        unix_seconds(self.nanos)
    }

    /// The current instant, as the system clock tells it.
    pub fn now_utc() -> (timestamp: Timestamp)
        ensures
            in_calendar(timestamp@),
            outside::is_clock_reading(timestamp@),
    {
        Timestamp { nanos: current_nanos() }
    }

    /// The instant `seconds` later (earlier, where negative), if it still falls in the years that a
    /// timestamp can hold.
    pub fn checked_add_seconds(&self, seconds: i64) -> (timestamp: Option<Timestamp>)
        ensures
            match timestamp {
                Some(t) => t@ == self@ + seconds * NANOS_PER_SECOND && in_calendar(t@),
                None => !in_calendar(self@ + seconds * NANOS_PER_SECOND),
            },
    {
        proof {
            use_type_invariant(self);
        }
        match add_seconds(self.nanos, seconds) {
            Some(nanos) => Some(Timestamp { nanos }),
            None => None,
        }
    }

    /// Whether this instant is `other` or comes after it.
    pub fn is_at_or_after(&self, other: &Timestamp) -> (later: bool)
        ensures
            later == (self@ >= other@),
    {
        self.nanos >= other.nanos
    }
}

/// `time::OffsetDateTime::from_unix_timestamp_nanos`, whose result is taken back to nanoseconds:
/// it succeeds exactly on the instants in the years -9999 to 9999, and keeps the instant.
#[verifier::external_body]
fn offset_date_time(nanos: i128) -> (r: Option<i128>)
    ensures
        match r {
            Some(n) => in_calendar(nanos as int) && n == nanos,
            None => !in_calendar(nanos as int),
        },
{
    let instant = time::OffsetDateTime::from_unix_timestamp_nanos(nanos).ok()?;
    Some(instant.unix_timestamp_nanos())
}

/// `time::OffsetDateTime::unix_timestamp`: the seconds from the Unix epoch, the fraction of a
/// second dropped towards the past.
#[verifier::external_body]
fn unix_seconds(nanos: i128) -> (seconds: i64)
    requires
        in_calendar(nanos as int),
    ensures
        seconds == floor_seconds(nanos as int),
{
    time::OffsetDateTime::from_unix_timestamp_nanos(nanos).unwrap().unix_timestamp()
}

/// `time::OffsetDateTime::now_utc`: a reading of the system clock, which is some instant that an
/// `OffsetDateTime` can hold. Which one, the system clock decides.
#[verifier::external_body]
fn current_nanos() -> (nanos: i128)
    ensures
        in_calendar(nanos as int),
        outside::is_clock_reading(nanos as int),
{
    time::OffsetDateTime::now_utc().unix_timestamp_nanos()
}

/// `time::OffsetDateTime::checked_add` with a `time::Duration` of whole seconds: the instant that
/// much later or, where negative, earlier, or nothing where an `OffsetDateTime` cannot hold it.
#[verifier::external_body]
fn add_seconds(nanos: i128, seconds: i64) -> (r: Option<i128>)
    requires
        in_calendar(nanos as int),
    ensures
        match r {
            Some(n) => n == nanos + seconds * NANOS_PER_SECOND && in_calendar(n as int),
            None => !in_calendar(nanos + seconds * NANOS_PER_SECOND),
        },
{
    let instant = time::OffsetDateTime::from_unix_timestamp_nanos(nanos).unwrap();
    let later = instant.checked_add(time::Duration::seconds(seconds))?;
    Some(later.unix_timestamp_nanos())
}

/// The second of an instant is the one that it falls in: it starts at the instant or before, and the
/// next one starts later.
pub proof fn law_second_of_an_instant(nanos: int)
    ensures
        floor_seconds(nanos) * 1_000_000_000 <= nanos < (floor_seconds(nanos) + 1) * 1_000_000_000,
{
}

/// A timestamp can hold the instants from the start of the year -9999 to the end of the year 9999.
pub proof fn law_calendar(nanos: int)
    ensures
        in_calendar(nanos) <==> -377_705_116_800 * 1_000_000_000 <= nanos < 253_402_300_800
            * 1_000_000_000,
{
}

} // verus!
