//! Points in time as seconds and nanoseconds since the Unix epoch, and the
//! dates that scripts and stored rows hold as text.

use chrono::Datelike;
use vstd::prelude::*;

verus! {

/// A point in time: seconds since the Unix epoch, and nanoseconds on top.
#[derive(Debug, Clone, Copy, PartialEq, Eq, Structural)]
pub struct Timestamp {
    pub secs: i64,
    pub nanos: u32,
}

pub const NANOS_PER_SEC: u32 = 1_000_000_000;

pub const SECS_PER_DAY: i64 = 86400;

/// Day number of the first day of 1970, counted from the first day of the
/// year 1 as day 1.
pub const UNIX_EPOCH_DAY: i64 = 719163;

impl Timestamp {
    /// The time as nanoseconds since the Unix epoch.
    pub open spec fn as_nanos(self) -> int {
        self.secs as int * NANOS_PER_SEC + self.nanos as int
    }

    /// Nanoseconds from `earlier` to `self`.
    pub open spec fn nanos_since(self, earlier: Timestamp) -> int {
        self.as_nanos() - earlier.as_nanos()
    }

    /// Whole seconds from `earlier` to `self`, rounded towards zero.
    pub open spec fn whole_secs_since(self, earlier: Timestamp) -> int {
        let nanos = self.nanos_since(earlier);
        if nanos >= 0 {
            nanos / (NANOS_PER_SEC as int)
        } else {
            -((-nanos) / (NANOS_PER_SEC as int))
        }
    }

    /// Whole seconds from `earlier` to `self`, rounded towards zero.
    pub fn secs_since(self, earlier: Timestamp) -> (secs: i128)
        ensures
            secs == self.whole_secs_since(earlier),
    {
        let a: i128 = self.secs as i128 * 1_000_000_000i128 + self.nanos as i128;
        let b: i128 = earlier.secs as i128 * 1_000_000_000i128 + earlier.nanos as i128;
        let nanos: i128 = a - b;
        if nanos >= 0 {
            nanos / 1_000_000_000i128
        } else {
            -((-nanos) / 1_000_000_000i128)
        }
    }

    /// The day on which the time falls in UTC, counted from the first day of
    /// the year 1 as day 1.
    pub open spec fn day_number(self) -> int {
        self.secs as int / (SECS_PER_DAY as int) + UNIX_EPOCH_DAY
    }

    /// The day on which the time falls in UTC.
    pub fn day(self) -> (day: i64)
        ensures
            day == self.day_number(),
    {
        let days = if self.secs >= 0 {
            self.secs / SECS_PER_DAY
        } else {
            -((-(self.secs + 1)) / SECS_PER_DAY) - 1
        };
        days + UNIX_EPOCH_DAY
    }
}

/// The time that a text names in the form of RFC 3339, or nothing where the
/// text has not that form.
pub uninterp spec fn rfc3339_time(text: Seq<char>) -> Option<Timestamp>;

/// `chrono::DateTime::parse_from_rfc3339`, with `timestamp` and
/// `timestamp_subsec_nanos` of the time that it returns. The time is named by
/// `rfc3339_time`.
#[verifier::external_body]
pub(crate) fn parse_rfc3339(text: &str) -> (time: Option<Timestamp>)
    ensures
        time == rfc3339_time(text@),
{
    let time = chrono::DateTime::parse_from_rfc3339(text).ok()?;
    Some(Timestamp { secs: time.timestamp(), nanos: time.timestamp_subsec_nanos() })
}

/// The day that a text names in the format `format`, counted from the first
/// day of the year 1 as day 1, or nothing where the text has not that format.
pub uninterp spec fn date_day_number(text: Seq<char>, format: Seq<char>) -> Option<i32>;

/// `chrono::NaiveDate::parse_from_str`, with `num_days_from_ce` of the date
/// that it returns. The day is named by `date_day_number`.
#[verifier::external_body]
pub(crate) fn parse_date_day(text: &str, format: &str) -> (day: Option<i32>)
    ensures
        day == date_day_number(text@, format@),
{
    let date = chrono::NaiveDate::parse_from_str(text, format).ok()?;
    Some(date.num_days_from_ce())
}

/// The text of a time in the form of RFC 3339, or nothing where the time is
/// out of the range of dates.
pub uninterp spec fn rfc3339_text(secs: i64, nanos: u32) -> Option<Seq<char>>;

/// `chrono::DateTime::from_timestamp` and `to_rfc3339` of the time that it
/// returns. The text is named by `rfc3339_text`.
#[verifier::external_body]
pub(crate) fn format_rfc3339(time: Timestamp) -> (text: Option<String>)
    ensures
        crate::text::opt_text(text) == rfc3339_text(time.secs, time.nanos),
{
    let time = chrono::DateTime::from_timestamp(time.secs, time.nanos)?;
    Some(time.to_rfc3339())
}

/// `chrono::Utc::now`, with `timestamp` and `timestamp_subsec_nanos` of the
/// time that it returns: the time of the call. The outside function panics
/// where the clock of the system stands before the year 1970.
#[verifier::external_body]
pub(crate) fn current_time() -> Timestamp {
    let now = chrono::Utc::now();
    Timestamp { secs: now.timestamp(), nanos: now.timestamp_subsec_nanos() }
}

} // verus!
