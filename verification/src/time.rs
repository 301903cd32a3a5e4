//! Instants in UTC as plain numbers, and the calls into `chrono` that read
//! and write them as text.

use vstd::prelude::*;
use vstd::string::*;
use crate::text::text_view;

verus! {

/// An instant in UTC: the seconds since the Unix epoch, and the nanoseconds
/// since the last whole second.
#[derive(Clone, Copy, Debug, PartialEq, Eq, Structural)]
pub struct Timestamp {
    pub secs: i64,
    pub nanos: u32,
}

/// The seconds of a day.
pub const SECONDS_PER_DAY: i64 = 86_400;

/// The nanoseconds of a second.
pub const NANOS_PER_SECOND: i64 = 1_000_000_000;

/// The instant that `text` names in the format of RFC 3339, or `None` where
/// `text` is not in that format.
pub uninterp spec fn rfc3339_instant(text: Seq<char>) -> Option<Timestamp>;

/// The instant `at` in the format of RFC 3339, or `None` where `at` lies
/// outside the dates that `chrono` can hold.
pub uninterp spec fn rfc3339_text(at: Timestamp) -> Option<Seq<char>>;

/// The instant `at` written after `pattern`, or `None` where `at` lies outside
/// the dates that `chrono` can hold.
pub uninterp spec fn utc_formatted(at: Timestamp, pattern: Seq<char>) -> Option<Seq<char>>;

/// Reads an instant in the format of RFC 3339.
///
/// Trusted: calls `chrono::DateTime::parse_from_rfc3339` and takes the
/// instant apart with `timestamp` and `timestamp_subsec_nanos`. The contract
/// only names that result.
#[verifier::external_body]
pub(crate) fn parse_rfc3339(text: &str) -> (r: Option<Timestamp>)
    ensures
        r == rfc3339_instant(text@),
{
    match chrono::DateTime::parse_from_rfc3339(text) {
        Ok(at) => Some(Timestamp { secs: at.timestamp(), nanos: at.timestamp_subsec_nanos() }),
        Err(_) => None,
    }
}

/// Writes an instant in the format of RFC 3339.
///
/// Trusted: builds the date with `chrono::DateTime::from_timestamp`, which
/// gives `None` outside its range, and writes it with `to_rfc3339`. The
/// contract only names that result.
#[verifier::external_body]
pub(crate) fn format_rfc3339(at: Timestamp) -> (r: Option<String>)
    ensures
        text_view(r) == rfc3339_text(at),
{
    match chrono::DateTime::from_timestamp(at.secs, at.nanos) {
        Some(date) => Some(date.to_rfc3339()),
        None => None,
    }
}

/// The pattern for a date with hour and minute.
pub open spec fn minute_pattern() -> Seq<char> {
    "%Y-%m-%d %H:%M"@
}

/// The pattern for hour and minute alone.
pub open spec fn clock_pattern() -> Seq<char> {
    "%H:%M"@
}

/// Writes an instant after one of the two patterns that the library uses.
///
/// Trusted: builds the date with `chrono::DateTime::from_timestamp`, which
/// gives `None` outside its range, and writes it with `format`. `chrono`
/// panics on a pattern it cannot read, so only the two patterns above are
/// let in. The contract only names the result.
#[verifier::external_body]
pub(crate) fn format_utc(at: Timestamp, pattern: &str) -> (r: Option<String>)
    requires
        pattern@ == minute_pattern() || pattern@ == clock_pattern(),
    ensures
        text_view(r) == utc_formatted(at, pattern@),
{
    match chrono::DateTime::from_timestamp(at.secs, at.nanos) {
        Some(date) => Some(date.format(pattern).to_string()),
        None => None,
    }
}

impl Timestamp {
    /// The number of the day in UTC that the instant falls on, counted from
    /// the day of the Unix epoch.
    pub open spec fn day(self) -> int {
        self.secs as int / 86_400
    }

    /// The instant as nanoseconds since the Unix epoch.
    pub open spec fn total_nanos(self) -> int {
        self.secs as int * 1_000_000_000 + self.nanos as int
    }

    /// Whether `self` lies before `other`.
    pub open spec fn before(self, other: Timestamp) -> bool {
        self.total_nanos() < other.total_nanos()
    }

    /// The number of the day in UTC that the instant falls on.
    pub fn utc_day(&self) -> (r: i64)
        ensures
            r == self.day(),
    {
        let secs = self.secs;
        if secs >= 0 {
            secs / SECONDS_PER_DAY
        } else {
            let back: i64 = -(secs + 1);
            let days: i64 = back / SECONDS_PER_DAY;
            assert(secs as int / 86_400 == -(days as int) - 1) by (nonlinear_arith)
                requires
                    secs < 0,
                    back == -(secs + 1),
                    days == back as int / 86_400,
            ;
            -days - 1
        }
    }

    /// Whether both instants fall on the same day in UTC.
    pub fn same_day(&self, other: &Timestamp) -> (r: bool)
        ensures
            r == (self.day() == other.day()),
    {
        self.utc_day() == other.utc_day()
    }

    /// Whether `self` lies before `other`.
    pub fn is_before(&self, other: &Timestamp) -> (r: bool)
        ensures
            r == self.before(*other),
    {
        let a: i128 = self.secs as i128 * 1_000_000_000 + self.nanos as i128;
        let b: i128 = other.secs as i128 * 1_000_000_000 + other.nanos as i128;
        a < b
    }
}

/// The whole seconds from `start` to `end`, and zero where `end` does not lie
/// after `start`.
pub open spec fn whole_seconds_between(start: Timestamp, end: Timestamp) -> int {
    if end.total_nanos() <= start.total_nanos() {
        0
    } else {
        (end.total_nanos() - start.total_nanos()) / 1_000_000_000
    }
}

/// The whole seconds from `start` to `end`, cut down to the 32 bits in
/// which they are stored.
pub fn elapsed_seconds(start: &Timestamp, end: &Timestamp) -> (r: i32)
    ensures
        r == whole_seconds_between(*start, *end) as i32,
{
    let a: i128 = start.secs as i128 * 1_000_000_000 + start.nanos as i128;
    let b: i128 = end.secs as i128 * 1_000_000_000 + end.nanos as i128;
    if b <= a {
        0
    } else {
        let whole: i128 = (b - a) / 1_000_000_000;
        #[verifier::truncate]
        (whole as i32)
    }
}

} // verus!
