//! Instants and wall-clock time. Instants are plain integers; what a time
//! zone makes of them is looked up in `chrono` and `chrono-tz`.
use vstd::prelude::*;

verus! {

/// Nanoseconds in one second.
pub const NANOS_PER_SECOND: u32 = 1_000_000_000;

/// An instant: seconds since the Unix epoch, and nanoseconds beyond them.
#[derive(Clone, Copy, Debug, PartialEq, Eq, Structural)]
pub struct Timestamp {
    pub secs: i64,
    pub nanos: u32,
}

impl View for Timestamp {
    type V = int;

    /// Nanoseconds since the Unix epoch.
    open spec fn view(&self) -> int {
        self.secs * NANOS_PER_SECOND + self.nanos
    }
}

impl Timestamp {
    /// The instant `seconds` later, which must not lie beyond the last
    /// second that can be written.
    pub fn plus_seconds(&self, seconds: u64) -> (later: Timestamp)
        requires
            self.secs + seconds <= i64::MAX,
        ensures
            later == (Timestamp { secs: (self.secs + seconds) as i64, nanos: self.nanos }),
            later@ == self@ + seconds * NANOS_PER_SECOND,
    {
        let secs: i128 = self.secs as i128 + seconds as i128;
        assert((self.secs + seconds) * NANOS_PER_SECOND == self.secs * NANOS_PER_SECOND + seconds
            * NANOS_PER_SECOND) by (nonlinear_arith);
        Timestamp { secs: secs as i64, nanos: self.nanos }
    }

    /// Whether this instant comes after `other`.
    pub fn is_after(&self, other: &Timestamp) -> (r: bool)
        ensures
            r == (self@ > other@),
    {
        let a: i128 = self.secs as i128 * 1_000_000_000 + self.nanos as i128;
        let b: i128 = other.secs as i128 * 1_000_000_000 + other.nanos as i128;
        a > b
    }

    /// The nanoseconds from this instant until `later`, and zero where
    /// `later` is not later.
    pub fn nanos_until(&self, later: &Timestamp) -> (wait: u128)
        ensures
            wait == (if later@ > self@ {
                later@ - self@
            } else {
                0
            }),
    {
        let a: i128 = self.secs as i128 * 1_000_000_000 + self.nanos as i128;
        let b: i128 = later.secs as i128 * 1_000_000_000 + later.nanos as i128;
        if b > a {
            (b - a) as u128
        } else {
            0
        }
    }
}

/// Wall-clock time in some zone, by its calendar fields.
#[derive(Clone, Copy, Debug, PartialEq, Eq, Structural)]
pub struct CivilTime {
    pub year: i32,
    pub month: u32,
    pub day: u32,
    pub hour: u32,
    pub minute: u32,
    pub second: u32,
    pub nanosecond: u32,
}

/// Whether a year of the Gregorian calendar is a leap year.
pub open spec fn is_leap_year(year: int) -> bool {
    year % 4 == 0 && (year % 100 != 0 || year % 400 == 0)
}

/// The number of days of a month of the Gregorian calendar.
pub open spec fn days_in_month(year: int, month: int) -> int {
    if month == 2 {
        if is_leap_year(year) {
            29
        } else {
            28
        }
    } else if month == 4 || month == 6 || month == 9 || month == 11 {
        30
    } else {
        31
    }
}

/// The hour that follows the hour of a wall-clock time, as year, month,
/// day and hour: the next hour of the same day, and behind the last hour
/// of a day the first hour of the next day. `None` where the year would
/// not fit in 32 bits.
pub open spec fn following_hour(local: CivilTime) -> Option<(i32, u32, u32, u32)> {
    if local.hour < 23 {
        Some((local.year, local.month, local.day, (local.hour + 1) as u32))
    } else if local.day < days_in_month(local.year as int, local.month as int) {
        Some((local.year, local.month, (local.day + 1) as u32, 0))
    } else if local.month < 12 {
        Some((local.year, (local.month + 1) as u32, 1, 0))
    } else if local.year < i32::MAX {
        Some(((local.year + 1) as i32, 1, 1, 0))
    } else {
        None
    }
}

impl CivilTime {
    /// The hour that follows this time's hour.
    pub fn next_hour(&self) -> (r: Option<(i32, u32, u32, u32)>)
        ensures
            r == following_hour(*self),
    {
        if self.hour < 23 {
            return Some((self.year, self.month, self.day, self.hour + 1));
        }
        let shifted: i64 = self.year as i64 + 2_147_484_000;
        let leap = shifted % 4 == 0 && (shifted % 100 != 0 || shifted % 400 == 0);
        assert(leap == is_leap_year(self.year as int));
        let days: u32 = if self.month == 2 {
            if leap {
                29
            } else {
                28
            }
        } else if self.month == 4 || self.month == 6 || self.month == 9 || self.month == 11 {
            30
        } else {
            31
        };
        if self.day < days {
            Some((self.year, self.month, self.day + 1, 0))
        } else if self.month < 12 {
            Some((self.year, self.month + 1, 1, 0))
        } else if self.year < i32::MAX {
            Some((self.year + 1, 1, 1, 0))
        } else {
            None
        }
    }
}

/// Whether `chrono-tz` knows a zone of this name.
pub uninterp spec fn known_zone(zone: Seq<char>) -> bool;

/// The wall-clock time that the zone `zone` shows at the instant given by
/// `secs` and `nanos`; `None` where the zone is unknown or the instant
/// lies outside what `chrono` can represent.
pub uninterp spec fn local_time_at(zone: Seq<char>, secs: int, nanos: int) -> Option<CivilTime>;

/// The one instant at which the zone `zone` shows the given day and hour,
/// at minute and second zero; `None` where the zone is unknown, the
/// fields name no time of day, or the zone shows that time never or
/// twice.
pub uninterp spec fn local_hour_start(
    zone: Seq<char>,
    year: int,
    month: int,
    day: int,
    hour: int,
) -> Option<Timestamp>;

/// `str::parse` into `chrono_tz::Tz`: whether the name is that of a zone
/// in the time zone database that the crate carries.
#[verifier::external_body]
pub(crate) fn zone_is_known(zone: &str) -> (r: bool)
    ensures
        r == known_zone(zone@),
{
    zone.parse::<chrono_tz::Tz>().is_ok()
}

/// `chrono::DateTime::with_timezone` on the instant, which
/// `chrono::DateTime::from_timestamp` builds, into the zone that the name
/// parses to, read out by calendar fields. The result depends on the
/// three arguments alone.
#[verifier::external_body]
pub(crate) fn local_time(zone: &str, at: &Timestamp) -> (r: Option<CivilTime>)
    ensures
        r == local_time_at(zone@, at.secs as int, at.nanos as int),
{
    let tz = zone.parse::<chrono_tz::Tz>().ok()?;
    let t = chrono::DateTime::from_timestamp(at.secs, at.nanos)?.with_timezone(&tz);
    Some(CivilTime {
        year: chrono::Datelike::year(&t),
        month: chrono::Datelike::month(&t),
        day: chrono::Datelike::day(&t),
        hour: chrono::Timelike::hour(&t),
        minute: chrono::Timelike::minute(&t),
        second: chrono::Timelike::second(&t),
        nanosecond: chrono::Timelike::nanosecond(&t),
    })
}

/// `chrono::TimeZone::with_ymd_and_hms` in the zone that the name parses
/// to, at minute and second zero, kept only where the local time maps to
/// a single instant (`single`). The result depends on the five arguments
/// alone.
#[verifier::external_body]
pub(crate) fn resolve_local_hour(zone: &str, year: i32, month: u32, day: u32, hour: u32) -> (r:
    Option<Timestamp>)
    ensures
        r == local_hour_start(zone@, year as int, month as int, day as int, hour as int),
{
    let tz = zone.parse::<chrono_tz::Tz>().ok()?;
    let t = chrono::TimeZone::with_ymd_and_hms(&tz, year, month, day, hour, 0, 0).single()?;
    Some(Timestamp { secs: t.timestamp(), nanos: t.timestamp_subsec_nanos() })
}

} // verus!
