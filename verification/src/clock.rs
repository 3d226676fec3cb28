//! Wall-clock instants and the distance to local midnight.

use vstd::prelude::*;

verus! {

/// Length of a calendar day on the local wall clock.
pub const SECONDS_PER_DAY: i64 = 86_400;

/// An instant on the local wall clock, without a time zone.
///
/// `secs` counts whole seconds from 1970-01-01T00:00:00 of the local
/// calendar, every day being 86 400 seconds long; `nanos` is the part of a
/// second that has passed since then.
#[derive(Clone, Copy, Debug, PartialEq, Eq, Structural)]
pub struct Timestamp {
    pub secs: i64,
    pub nanos: u32,
}

impl Timestamp {
    /// Seconds between the start of this instant's day and its whole second.
    pub open spec fn second_of_day(self) -> int {
        self.secs as int % 86_400
    }

    /// The first second of this instant's day.
    pub open spec fn midnight(self) -> int {
        self.secs as int - self.second_of_day()
    }

    /// Seconds from the start of the day to this instant, a started second
    /// counting as a whole one.
    pub open spec fn second_of_day_ceil(self) -> int {
        self.second_of_day() + (self.nanos as int + 999_999_999) / 1_000_000_000
    }

    /// `self` is not earlier than `other`.
    pub open spec fn at_or_after(self, other: Timestamp) -> bool {
        self.secs > other.secs || (self.secs == other.secs && self.nanos >= other.nanos)
    }

    /// The instant `nanos` nanoseconds after the whole second `secs`.
    pub fn new(secs: i64, nanos: u32) -> (t: Timestamp)
        ensures
            t.secs == secs,
            t.nanos == nanos,
    {
        Timestamp { secs, nanos }
    }

    /// The instant `days` days of 86 400 seconds after this one, held to the
    /// last second that a timestamp can name.
    pub open spec fn spec_plus_days(self, days: int) -> Timestamp {
        Timestamp { secs: clamp_i64(self.secs + days * 86_400) as i64, nanos: self.nanos }
    }

    /// The same time of day `days` days later.
    pub fn plus_days(&self, days: u8) -> (later: Timestamp)
        ensures
            later == self.spec_plus_days(days as int),
    {
        let target: i128 = (self.secs as i128) + (days as i128) * 86_400;
        let secs: i64 = if target > i64::MAX as i128 {
            i64::MAX
        } else {
            target as i64
        };
        Timestamp { secs, nanos: self.nanos }
    }

    /// Whether this instant has reached `deadline`.
    pub fn reached(&self, deadline: &Timestamp) -> (b: bool)
        ensures
            b == self.at_or_after(*deadline),
    {
        self.secs > deadline.secs || (self.secs == deadline.secs && self.nanos >= deadline.nanos)
    }
}

/// `value` held to the range of `i64`.
pub open spec fn clamp_i64(value: int) -> int {
    if value < i64::MIN {
        i64::MIN as int
    } else if value > i64::MAX {
        i64::MAX as int
    } else {
        value
    }
}

/// The midnight that lies `days_ahead` calendar days after the day of `from`,
/// in seconds on the scale of [`Timestamp::secs`].
pub open spec fn spec_midnight_after(from: Timestamp, days_ahead: int) -> int {
    from.midnight() + days_ahead * 86_400
}

/// Whole seconds from `from` to the midnight `days_ahead` days later; zero
/// where that midnight is not in the future.
pub open spec fn spec_seconds_until_next_midnight(from: Timestamp, days_ahead: int) -> int {
    let whole = days_ahead * 86_400 - from.second_of_day_ceil();
    if whole < 0 {
        0
    } else {
        whole
    }
}

/// The seconds that a record written at `from` is given to live: the whole
/// seconds until the midnight `days_ahead` days later, and `i64::MAX` where
/// they are more than that.
pub open spec fn spec_ttl(from: Timestamp, days_ahead: int) -> int {
    clamp_i64(spec_seconds_until_next_midnight(from, days_ahead))
}

/// The instant at which a record written at `from` goes stale.
pub open spec fn spec_expiry(from: Timestamp, days_ahead: int) -> Timestamp {
    Timestamp { secs: clamp_i64(spec_midnight_after(from, days_ahead)) as i64, nanos: 0 }
}

/// How many whole seconds of its day `from` has behind it.
pub(crate) fn second_of_day(from: &Timestamp) -> (s: i64)
    ensures
        s == from.second_of_day(),
        0 <= s < 86_400,
{
    match from.secs.checked_rem_euclid(SECONDS_PER_DAY) {
        Some(s) => s,
        None => 0,
    }
}

/// Number of whole seconds between `from` and local midnight `days_ahead`
/// days later.
///
/// The interval is rounded down, is never negative, and is a full day for a
/// `from` that is itself a midnight with `days_ahead == 1`. A distance that
/// does not fit the result type is reported as `i64::MAX`.
pub fn seconds_until_next_midnight(from: Timestamp, days_ahead: i64) -> (ttl: i64)
    ensures
        ttl == spec_ttl(from, days_ahead as int),
        ttl >= 0,
{
    let sod: i128 = second_of_day(&from) as i128;
    let started: i128 = ((from.nanos as i128) + 999_999_999) / 1_000_000_000;
    let whole: i128 = (days_ahead as i128) * 86_400 - sod - started;
    if whole < 0 {
        0
    } else if whole > i64::MAX as i128 {
        i64::MAX
    } else {
        whole as i64
    }
}

/// The local midnight `days_ahead` days after the day of `from`: the instant
/// at which a record written at `from` goes stale. A midnight outside the
/// range of [`Timestamp::secs`] is held to the nearest end of that range.
pub fn next_midnight(from: Timestamp, days_ahead: i64) -> (at: Timestamp)
    ensures
        at == spec_expiry(from, days_ahead as int),
{
    let sod: i128 = second_of_day(&from) as i128;
    let target: i128 = (from.secs as i128) - sod + (days_ahead as i128) * 86_400;
    let secs: i64 = if target < i64::MIN as i128 {
        i64::MIN
    } else if target > i64::MAX as i128 {
        i64::MAX
    } else {
        target as i64
    };
    Timestamp { secs, nanos: 0 }
}

/// The current instant on the local wall clock.
///
/// Calls `chrono::Local::now` and reads the local date and time of the result
/// as seconds and nanoseconds. The result depends on the machine's clock and
/// time zone, so nothing is claimed of it. chrono panics where the system
/// clock stands before 1970.
#[verifier::external_body]
pub(crate) fn now_local() -> (now: Timestamp) {
    let now = chrono::Local::now().naive_local().and_utc();
    Timestamp { secs: now.timestamp(), nanos: now.timestamp_subsec_nanos() }
}

/// What `chrono::DateTime::parse_from_str` makes of `text` read in `layout`:
/// the seconds since 1970-01-01T00:00:00 UTC of the instant that the text
/// names, or nothing where chrono rejects the text.
pub uninterp spec fn spec_parse_timestamp(text: Seq<char>, layout: Seq<char>) -> Option<i64>;

/// Reads an instant with a time zone from `text`.
///
/// Calls `chrono::DateTime::parse_from_str` and, on success,
/// `chrono::DateTime::timestamp`. The result is a function of the two texts
/// alone; the contract gives it its name and claims nothing more.
#[verifier::external_body]
pub(crate) fn parse_timestamp(text: &str, layout: &str) -> (at: Option<i64>)
    ensures
        at == spec_parse_timestamp(text@, layout@),
{
    match chrono::DateTime::parse_from_str(text, layout) {
        Ok(at) => Some(at.timestamp()),
        Err(_) => None,
    }
}

/// Seconds from now to the local midnight `ttl` days after today: how long a
/// record written now may live.
///
/// The clock decides the value; it is never negative, and with `ttl <= 0` it
/// is zero.
pub fn get_ttl(ttl: i64) -> (seconds: i64)
    ensures
        seconds >= 0,
        exists|now: Timestamp| seconds == #[trigger] spec_ttl(now, ttl as int),
        ttl <= 0 ==> seconds == 0,
        ttl >= 0 ==> seconds <= clamp_i64(ttl * 86_400),
{
    let now: Timestamp = now_local();
    seconds_until_next_midnight(now, ttl)
}

} // verus!
