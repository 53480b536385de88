//! Points in time, counted in milliseconds since the start of 1970 (UTC).
//!
//! The calendar itself is `chrono`'s: reading the clock and writing a point in
//! time as a date go through it. What the scheduler needs, comparing two
//! points and moving one forward by whole days, is plain integer arithmetic
//! and is proved here.

use crate::value::option_view;
use vstd::prelude::*;

verus! {

/// Milliseconds in one day.
pub const MILLIS_PER_DAY: i64 = 86_400_000;

/// A point in time: milliseconds since 1970-01-01 00:00:00 UTC, negative
/// before it.
#[derive(Clone, Copy, Debug, PartialEq, Eq, Structural)]
pub struct Timestamp {
    pub millis: i64,
}

/// What `chrono` writes for a point in time with the pattern
/// `%Y-%m-%d %H:%M`, in UTC; `None` where the point lies outside the years
/// its calendar covers.
pub uninterp spec fn minute_text(millis: i64) -> Option<Seq<char>>;

/// Reads the system clock through `chrono::Utc::now` and hands back the
/// milliseconds since 1970 that `timestamp_millis` gives for it. Nothing is
/// claimed of the value: two calls may return anything.
#[verifier::external_body]
fn clock_millis() -> (millis: i64) {
    chrono::Utc::now().timestamp_millis()
}

/// Builds the date with `chrono::DateTime::from_timestamp_millis` and writes
/// it with `DateTime::format` and the pattern `%Y-%m-%d %H:%M`. The text
/// depends on `millis` alone, so it is named, not described: the result is
/// `minute_text(millis)`, `None` exactly where `chrono` builds no date.
#[verifier::external_body]
fn format_minute(millis: i64) -> (text: Option<String>)
    ensures
        option_view(text) == minute_text(millis),
{
    match chrono::DateTime::<chrono::Utc>::from_timestamp_millis(millis) {
        Some(date) => Some(date.format("%Y-%m-%d %H:%M").to_string()),
        None => None,
    }
}

impl Timestamp {
    /// The point `days` whole days after `self`, held at the last
    /// representable point where the sum would pass it.
    pub open spec fn spec_plus_days(self, days: int) -> Timestamp {
        let moved = self.millis + days * MILLIS_PER_DAY;
        if moved > i64::MAX {
            Timestamp { millis: i64::MAX }
        } else {
            Timestamp { millis: moved as i64 }
        }
    }

    /// Whether `self` is not later than `other`.
    pub open spec fn spec_at_or_before(self, other: Timestamp) -> bool {
        self.millis <= other.millis
    }

    pub fn from_millis(millis: i64) -> (t: Timestamp)
        ensures
            t.millis == millis,
    {
        Timestamp { millis }
    }

    /// The current time by the system clock.
    pub fn now() -> Timestamp {
        Timestamp { millis: clock_millis() }
    }

    /// The point `days` whole days later. The sum stops at the last
    /// representable point: it never wraps around.
    pub fn plus_days(self, days: u32) -> (t: Timestamp)
        ensures
            t == self.spec_plus_days(days as int),
            t.millis >= self.millis,
    {
        let span: i64 = (days as i64) * MILLIS_PER_DAY;
        if self.millis > i64::MAX - span {
            Timestamp { millis: i64::MAX }
        } else {
            Timestamp { millis: self.millis + span }
        }
    }

    /// Whether `self` is not later than `other`.
    pub fn at_or_before(self, other: Timestamp) -> (b: bool)
        ensures
            b == self.spec_at_or_before(other),
    {
        self.millis <= other.millis
    }

    /// The date and time to the minute, as `YYYY-MM-DD HH:MM` in UTC; `None`
    /// for a point outside the calendar's years.
    pub fn minute_label(self) -> (label: Option<String>)
        ensures
            option_view(label) == minute_text(self.millis),
    {
        format_minute(self.millis)
    }
}

} // verus!
