//! Instants in UTC, as plain integers, with chrono doing the calendar work.

use chrono::{DateTime, NaiveDateTime, Utc};
use vstd::prelude::*;

verus! {

/// A UTC instant: whole seconds since the Unix epoch, and the nanoseconds
/// past that second.
#[derive(Clone, Copy, Debug, PartialEq, Eq, Structural)]
pub struct Timestamp {
    pub seconds: i64,
    pub nanos: u32,
}

/// The text chrono gives for an instant (such as `2024-01-01 00:00:00 UTC`).
pub uninterp spec fn rendered_utc(seconds: int, nanos: int) -> Seq<char>;

/// The instant chrono reads from `text` under the strftime-style `format`,
/// taken as UTC, or `None` where the text does not fit the format.
pub uninterp spec fn parsed_datetime(text: Seq<char>, format: Seq<char>) -> Option<(int, int)>;

/// Relies on chrono's `DateTime::<Utc>::from_timestamp` and the `Display` of
/// `DateTime<Utc>`: the rendered instant depends on the two integers alone
/// (an instant chrono cannot hold renders as the epoch, `unwrap_or_default`).
#[verifier::external_body]
fn render_utc(seconds: i64, nanos: u32) -> (r: String)
    ensures
        r@ == rendered_utc(seconds as int, nanos as int),
{
    DateTime::<Utc>::from_timestamp(seconds, nanos).unwrap_or_default().to_string()
}

/// Relies on chrono's `NaiveDateTime::parse_from_str`, the parsed value taken
/// as UTC: the outcome depends on the text and the format alone.
#[verifier::external_body]
fn parse_naive_utc(text: &str, format: &str) -> (r: Option<(i64, u32)>)
    ensures
        parsed_datetime(text@, format@) == match r {
            Some((s, n)) => Some((s as int, n as int)),
            None => None::<(int, int)>,
        },
{
    match NaiveDateTime::parse_from_str(text, format) {
        Ok(t) => Some((t.and_utc().timestamp(), t.and_utc().timestamp_subsec_nanos())),
        Err(_) => None,
    }
}

/// The layout SQLite uses for `CURRENT_TIMESTAMP`, with an optional
/// fraction of a second after it.
pub const SQL_DATETIME_FORMAT: &'static str = "%Y-%m-%d %H:%M:%S%.f";

/// What `deserialize_datetime` gives for a column value.
pub open spec fn datetime_of(text: Option<Seq<char>>) -> Result<Option<Timestamp>, ()> {
    match text {
        None => Ok(None),
        Some(t) => match parsed_datetime(t, SQL_DATETIME_FORMAT@) {
            Some((s, n)) => if i64::MIN <= s <= i64::MAX && 0 <= n <= u32::MAX {
                Ok(Some(Timestamp { seconds: s as i64, nanos: n as u32 }))
            } else {
                Err(())
            },
            None => Err(()),
        },
    }
}

/// Reads an optional `YYYY-MM-DD HH:MM:SS[.fraction]` column value as a UTC instant:
/// absent stays absent, and text of another shape is an error.
pub fn deserialize_datetime(text: Option<&str>) -> (r: Result<Option<Timestamp>, ()>)
    ensures
        r == datetime_of(
            match text {
                Some(t) => Some(t@),
                None => None,
            },
        ),
{
    match text {
        None => Ok(None),
        Some(t) => match parse_naive_utc(t, SQL_DATETIME_FORMAT) {
            Some((s, n)) => Ok(Some(Timestamp { seconds: s, nanos: n })),
            None => Err(()),
        },
    }
}

impl Timestamp {
    /// `self` is not later than `other`.
    pub open spec fn spec_le(self, other: Timestamp) -> bool {
        self.seconds < other.seconds || (self.seconds == other.seconds && self.nanos <= other.nanos)
    }

    pub fn new(seconds: i64, nanos: u32) -> (r: Timestamp)
        ensures
            r.seconds == seconds,
            r.nanos == nanos,
    {
        Timestamp { seconds, nanos }
    }

    /// 1970-01-01 00:00:00 UTC.
    pub fn epoch() -> (r: Timestamp)
        ensures
            r.seconds == 0,
            r.nanos == 0,
    {
        Timestamp { seconds: 0, nanos: 0 }
    }

    /// `self` is the watermark `since` or later.
    pub fn is_at_or_after(&self, since: &Timestamp) -> (r: bool)
        ensures
            r == since.spec_le(*self),
    {
        since.seconds < self.seconds || (since.seconds == self.seconds && since.nanos <= self.nanos)
    }

    /// The text of the instant, as chrono renders it.
    pub fn render(&self) -> (r: String)
        ensures
            r@ == rendered_utc(self.seconds as int, self.nanos as int),
    {
        render_utc(self.seconds, self.nanos)
    }
}

/// The text of an optional instant; an absent one renders as the epoch.
pub fn render_or_epoch(t: Option<Timestamp>) -> (r: String)
    ensures
        r@ == rendered_or_epoch(t),
{
    match t {
        Some(t) => t.render(),
        None => Timestamp::epoch().render(),
    }
}

pub open spec fn rendered_or_epoch(t: Option<Timestamp>) -> Seq<char> {
    match t {
        Some(t) => rendered_utc(t.seconds as int, t.nanos as int),
        None => rendered_utc(0, 0),
    }
}

} // verus!
