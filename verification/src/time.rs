//! Instants in UTC, carried as whole seconds since the Unix epoch plus a
//! sub-second part in nanoseconds (as `chrono` stores them).

use vstd::prelude::*;

verus! {

/// A UTC instant: `secs` since 1970-01-01T00:00:00Z and `nanos` into that
/// second (a leap second shows as `nanos >= 1_000_000_000`).
#[derive(Clone, Copy, Debug)]
pub struct Timestamp {
    pub secs: i64,
    pub nanos: u32,
}

/// Chronological order of two instants.
pub open spec fn ts_lt(a: Timestamp, b: Timestamp) -> bool {
    a.secs < b.secs || (a.secs == b.secs && a.nanos < b.nanos)
}

/// `a` is no later than `b`.
pub open spec fn ts_le(a: Timestamp, b: Timestamp) -> bool {
    !ts_lt(b, a)
}

/// The UTC calendar day an instant falls on, counted in days from
/// 1970-01-01 (negative before it).
pub open spec fn day_number(t: Timestamp) -> int {
    t.secs as int / 86400
}

/// `a` falls on or before the UTC calendar day of `b`, that is, no later
/// than the end of that day.
pub open spec fn on_or_before_day(a: Timestamp, b: Timestamp) -> bool {
    day_number(a) <= day_number(b)
}

/// Whether `chrono` can represent this instant as a `DateTime<Utc>`.
pub uninterp spec fn datetime_exists(t: Timestamp) -> bool;

/// The whole seconds `chrono` counts from `then` to `now`
/// (`now.signed_duration_since(then).num_seconds()`).
pub uninterp spec fn chrono_whole_seconds(now: Timestamp, then: Timestamp) -> i64;

/// The midnight (UTC) of the date `chrono` reads from `s` with the format
/// `%Y-%m-%d`, or `None` when it rejects the text.
pub uninterp spec fn chrono_ymd_midnight(s: Seq<char>) -> Option<Timestamp>;

impl Timestamp {
    /// An instant from its parts.
    pub fn new(secs: i64, nanos: u32) -> (r: Timestamp)
        ensures
            r.secs == secs,
            r.nanos == nanos,
    {
        Timestamp { secs, nanos }
    }

    /// Same instant.
    pub fn same(&self, other: &Timestamp) -> (r: bool)
        ensures
            r == (*self == *other),
    {
        self.secs == other.secs && self.nanos == other.nanos
    }

    /// `self` strictly before `other`.
    pub fn before(&self, other: &Timestamp) -> (r: bool)
        ensures
            r == ts_lt(*self, *other),
    {
        self.secs < other.secs || (self.secs == other.secs && self.nanos < other.nanos)
    }

    /// The UTC calendar day of the instant, counted from 1970-01-01.
    pub fn day(&self) -> (r: i64)
        ensures
            r == day_number(*self),
    {
        match self.secs.checked_div_euclid(86400) {
            Some(d) => d,
            None => 0,
        }
    }

    /// `self` falls on or before the UTC calendar day of `other`.
    pub fn on_or_before_day_of(&self, other: &Timestamp) -> (r: bool)
        ensures
            r == on_or_before_day(*self, *other),
    {
        self.day() <= other.day()
    }

    /// `self` no later than `other`.
    pub fn not_after(&self, other: &Timestamp) -> (r: bool)
        ensures
            r == ts_le(*self, *other),
    {
        !other.before(self)
    }

    /// Whether `chrono` represents the instant
    /// (`DateTime::from_timestamp(secs, nanos)` gives `Some`).
    #[verifier::external_body]
    pub fn representable(&self) -> (r: bool)
        ensures
            r == datetime_exists(*self),
    {
        chrono::DateTime::from_timestamp(self.secs, self.nanos).is_some()
    }

    /// Whole seconds elapsed from `then` to `self`, through `chrono`'s
    /// `signed_duration_since(..).num_seconds()`, which is never negative
    /// when `then` is no later than `self` and zero when they are the same
    /// instant. The caller guarantees that both
    /// instants are representable.
    #[verifier::external_body]
    pub(crate) fn whole_seconds_since(&self, then: &Timestamp) -> (r: i64)
        requires
            datetime_exists(*self),
            datetime_exists(*then),
        ensures
            r == chrono_whole_seconds(*self, *then),
            ts_le(*then, *self) ==> r >= 0,
            *then == *self ==> r == 0,
    {
        let a = chrono::DateTime::from_timestamp(self.secs, self.nanos).unwrap();
        let b = chrono::DateTime::from_timestamp(then.secs, then.nanos).unwrap();
        a.signed_duration_since(b).num_seconds()
    }
}

/// Midnight UTC of a `YYYY-MM-DD` date, read by `chrono`'s
/// `NaiveDate::parse_from_str(s, "%Y-%m-%d")`.
#[verifier::external_body]
pub(crate) fn midnight_of_date(s: &str) -> (r: Option<Timestamp>)
    ensures
        r == chrono_ymd_midnight(s@),
        r matches Some(t) ==> datetime_exists(t) && t.nanos == 0,
{
    let d = chrono::NaiveDate::parse_from_str(s, "%Y-%m-%d").ok()?;
    let t = d.and_hms_opt(0, 0, 0)?.and_utc();
    Some(Timestamp { secs: t.timestamp(), nanos: t.timestamp_subsec_nanos() })
}

} // verus!
