//! Time: instants, the calendar in which they can be written, and the system clock.

use chrono::{DateTime, Utc};
use std::cmp::Ordering;
use vstd::prelude::*;
use vstd::std_specs::cmp::PartialOrdSpecImpl;

verus! {

/// Nanoseconds in one second.
pub const NANOS_PER_SECOND: u32 = 1_000_000_000;

/// The first second of the calendar that RFC 3339 can write: 0000-01-01T00:00:00Z.
pub const FIRST_SECOND: i64 = -62_167_219_200;

/// The last second of that calendar: 9999-12-31T23:59:59Z.
pub const LAST_SECOND: i64 = 253_402_300_799;

/// The pattern of a month label, such as `2024-05`.
pub const MONTH_PATTERN: &'static str = "%Y-%m";

/// The pattern of the time stamp in an archive's file name, such as `20240517_134501`.
pub const STAMP_PATTERN: &'static str = "%Y%m%d_%H%M%S";

/// A point in time, counted from 1970-01-01T00:00:00Z without leap seconds.
#[derive(Clone, Copy, Debug, PartialEq, Eq, Structural)]
pub struct Instant {
    /// Whole seconds since the epoch.
    pub secs: i64,
    /// Nanoseconds into that second.
    pub nanos: u32,
}

impl PartialOrd for Instant {
    /// Instants are ordered by their seconds, and within a second by their nanoseconds.
    fn partial_cmp(&self, other: &Instant) -> (r: Option<Ordering>) {
        if self.secs < other.secs {
            Some(Ordering::Less)
        } else if self.secs > other.secs {
            Some(Ordering::Greater)
        } else if self.nanos < other.nanos {
            Some(Ordering::Less)
        } else if self.nanos > other.nanos {
            Some(Ordering::Greater)
        } else {
            Some(Ordering::Equal)
        }
    }
}

impl PartialOrdSpecImpl for Instant {
    open spec fn obeys_partial_cmp_spec() -> bool {
        true
    }

    open spec fn partial_cmp_spec(&self, other: &Instant) -> Option<Ordering> {
        if self.precedes(*other) {
            Some(Ordering::Less)
        } else if other.precedes(*self) {
            Some(Ordering::Greater)
        } else {
            Some(Ordering::Equal)
        }
    }
}

/// The RFC 3339 text that chrono writes for the UTC time `secs`, `nanos`.
pub uninterp spec fn rfc3339_text(secs: i64, nanos: u32) -> Seq<char>;

/// The seconds and nanoseconds that chrono reads from an RFC 3339 text, if it accepts the text.
pub uninterp spec fn rfc3339_reading(text: Seq<char>) -> Option<(i64, u32)>;

/// The text that chrono writes for the UTC time `secs`, `nanos` under a strftime pattern.
pub uninterp spec fn pattern_text(secs: i64, nanos: u32, pattern: Seq<char>) -> Seq<char>;

/// The instant that an RFC 3339 text stands for. A text that chrono rejects stands for none,
/// and neither does one on a leap second, which has no place on this time line.
pub open spec fn instant_of_text(text: Seq<char>) -> Option<Instant> {
    match rfc3339_reading(text) {
        Some((secs, nanos)) => if nanos < NANOS_PER_SECOND {
            Some(Instant { secs, nanos })
        } else {
            None
        },
        None => None,
    }
}

impl Instant {
    /// The instant as one number of nanoseconds.
    pub open spec fn as_nanos(self) -> int {
        self.secs * 1_000_000_000 + self.nanos
    }

    /// Whether the instant lies in the years 0000 to 9999, where RFC 3339 text exists for it.
    pub open spec fn in_calendar(self) -> bool {
        &&& FIRST_SECOND <= self.secs <= LAST_SECOND
        &&& self.nanos < NANOS_PER_SECOND
    }

    /// Whether the instant lies at or after the epoch, as every reading of the clock does.
    pub open spec fn since_epoch(self) -> bool {
        0 <= self.secs && self.nanos < NANOS_PER_SECOND
    }

    /// Strictly earlier than `other`.
    pub open spec fn precedes(self, other: Instant) -> bool {
        self.secs < other.secs || (self.secs == other.secs && self.nanos < other.nanos)
    }

    /// The instant `seconds` later.
    pub open spec fn later_by(self, seconds: int) -> Instant
        recommends
            i64::MIN <= self.secs + seconds <= i64::MAX,
    {
        Instant { secs: (self.secs + seconds) as i64, nanos: self.nanos }
    }

    /// The RFC 3339 text of the instant.
    pub open spec fn rfc3339(self) -> Seq<char> {
        rfc3339_text(self.secs, self.nanos)
    }

    /// The month label of the instant, such as `2024-05`.
    pub open spec fn month_label(self) -> Seq<char> {
        pattern_text(self.secs, self.nanos, MONTH_PATTERN@)
    }

    /// The file-name stamp of the instant, such as `20240517_134501`.
    pub open spec fn file_stamp(self) -> Seq<char> {
        pattern_text(self.secs, self.nanos, STAMP_PATTERN@)
    }

    /// Whether the instant lies in the calendar.
    pub fn is_in_calendar(&self) -> (r: bool)
        ensures
            r == self.in_calendar(),
    {
        FIRST_SECOND <= self.secs && self.secs <= LAST_SECOND && self.nanos < NANOS_PER_SECOND
    }

    /// Whether the instant is strictly earlier than `other`.
    pub fn is_before(&self, other: &Instant) -> (r: bool)
        ensures
            r == self.precedes(*other),
    {
        *self < *other
    }

    /// The instant `seconds` later, where that still fits the counter.
    pub fn plus_seconds(&self, seconds: i64) -> (r: Instant)
        requires
            i64::MIN <= self.secs + seconds <= i64::MAX,
        ensures
            r == self.later_by(seconds as int),
    {
        Instant { secs: self.secs + seconds, nanos: self.nanos }
    }

    /// The present time by the system clock: the clock's reading where it lies in the
    /// calendar, and `None` where it lies beyond.
    pub fn now() -> (r: Option<Instant>)
        ensures
            exists|reading: Instant|
                reading.since_epoch() && r == if #[trigger] reading.in_calendar() {
                    Some(reading)
                } else {
                    None
                },
            r matches Some(t) ==> t.in_calendar() && t.since_epoch(),
    {
        let t = utc_now();
        if t.is_in_calendar() {
            Some(t)
        } else {
            None
        }
    }

    /// Writes the instant as RFC 3339 text.
    pub fn to_rfc3339(&self) -> (r: String)
        requires
            self.in_calendar(),
        ensures
            r@ == self.rfc3339(),
            instant_of_text(r@) == Some(*self),
    {
        write_rfc3339(*self)
    }

    /// Reads an instant from RFC 3339 text.
    pub fn parse_rfc3339(text: &str) -> (r: Option<Instant>)
        ensures
            r == instant_of_text(text@),
    {
        match read_rfc3339(text) {
            Some((secs, nanos)) => {
                if nanos < NANOS_PER_SECOND {
                    Some(Instant { secs, nanos })
                } else {
                    None
                }
            },
            None => None,
        }
    }

    /// Writes the month label of the instant.
    pub fn to_month_label(&self) -> (r: String)
        requires
            self.in_calendar(),
        ensures
            r@ == self.month_label(),
    {
        write_pattern(*self, MONTH_PATTERN)
    }

    /// Writes the file-name stamp of the instant.
    pub fn to_file_stamp(&self) -> (r: String)
        requires
            self.in_calendar(),
        ensures
            r@ == self.file_stamp(),
    {
        write_pattern(*self, STAMP_PATTERN)
    }
}

/// The order of instants is the order of their nanosecond counts.
pub proof fn lemma_precedes_is_numeric_order(a: Instant, b: Instant)
    requires
        a.nanos < NANOS_PER_SECOND,
        b.nanos < NANOS_PER_SECOND,
    ensures
        a.precedes(b) <==> a.as_nanos() < b.as_nanos(),
{
}

/// `chrono::Utc::now`: the system clock's time, as seconds and nanoseconds since the epoch.
/// Claimed: the time is not before the epoch and its nanoseconds stay within the second.
/// chrono takes the time from the span since the epoch, and has no time to give where the
/// clock stands before the epoch.
#[verifier::external_body]
pub(crate) fn utc_now() -> (r: Instant)
    ensures
        r.since_epoch(),
{
    let t = Utc::now();
    Instant { secs: t.timestamp(), nanos: t.timestamp_subsec_nanos() }
}

/// `chrono::DateTime::to_rfc3339` on the UTC time of `t`. Claimed: the text depends on the
/// instant alone, and `chrono::DateTime::parse_from_rfc3339` reads the same instant back from
/// it. Within the calendar the year has four digits, which is what the parser accepts.
#[verifier::external_body]
fn write_rfc3339(t: Instant) -> (r: String)
    requires
        t.in_calendar(),
    ensures
        r@ == rfc3339_text(t.secs, t.nanos),
        rfc3339_reading(r@) == Some((t.secs, t.nanos)),
{
    DateTime::from_timestamp(t.secs, t.nanos).unwrap().to_rfc3339()
}

/// `chrono::DateTime::parse_from_rfc3339`, with the result turned into seconds and nanoseconds
/// since the epoch. Claimed: the result depends on the text alone.
#[verifier::external_body]
fn read_rfc3339(text: &str) -> (r: Option<(i64, u32)>)
    ensures
        r == rfc3339_reading(text@),
{
    match DateTime::parse_from_rfc3339(text) {
        Ok(t) => Some((t.timestamp(), t.timestamp_subsec_nanos())),
        Err(_) => None,
    }
}

/// `chrono::DateTime::format` on the UTC time of `t`, for the two patterns this library uses.
/// Claimed: the text depends on the instant and the pattern alone.
#[verifier::external_body]
fn write_pattern(t: Instant, pattern: &str) -> (r: String)
    requires
        t.in_calendar(),
        pattern@ == MONTH_PATTERN@ || pattern@ == STAMP_PATTERN@,
    ensures
        r@ == pattern_text(t.secs, t.nanos, pattern@),
{
    DateTime::from_timestamp(t.secs, t.nanos).unwrap().format(pattern).to_string()
}

} // verus!
