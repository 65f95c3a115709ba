//! The clocks the application reads: a monotonic clock for measuring
//! response times and the wall clock (through chrono) for calendar days.
//! Readings depend on when they are taken, so the items here promise only
//! what holds of every reading.

use vstd::prelude::*;
use std::time::Instant;
use chrono::Datelike;
use chrono::Timelike;

verus! {

/// A point of the monotonic clock, carried through unopened.
#[verifier::external_type_specification]
#[verifier::external_body]
pub struct ExInstant(Instant);

/// `Instant::now`: the current point of the monotonic clock.
#[verifier::external_body]
pub(crate) fn instant_now() -> Instant {
    Instant::now()
}

/// The longest span a `std::time::Duration` holds, in nanoseconds:
/// `u64::MAX` seconds and 999,999,999 nanoseconds.
pub const MAX_DURATION_NS: u128 = 18_446_744_073_709_551_615_999_999_999;

/// `Instant::elapsed` as `Duration::as_nanos`: the time since `start`. The
/// value depends on when it is read; all that is stated is that it fits in
/// a `Duration`, as the standard library documents for every duration.
#[verifier::external_body]
pub(crate) fn elapsed_nanos(start: &Instant) -> (ns: u128)
    ensures
        ns <= MAX_DURATION_NS,
{
    start.elapsed().as_nanos()
}

/// `chrono::Utc::now().timestamp_millis()`: milliseconds since the Unix
/// epoch. chrono's `Utc::now` panics for a system clock set before the epoch
/// or past the last date it represents (31 December 262142), so every value
/// that comes back lies between 0 and `MAX_TIMESTAMP_MS`; nothing else is
/// stated.
#[verifier::external_body]
pub(crate) fn utc_now_millis() -> (ms: i64)
    ensures
        0 <= ms <= MAX_TIMESTAMP_MS,
{
    chrono::Utc::now().timestamp_millis()
}

/// `chrono::Local::now().hour()`: the hour of the local wall clock, which
/// chrono documents as 0 through 23.
#[verifier::external_body]
pub(crate) fn local_hour() -> (h: u32)
    ensures
        h < 24,
{
    chrono::Local::now().hour()
}

/// The last millisecond that chrono's `DateTime<Utc>` represents: the end of
/// 31 December 262142.
pub const MAX_TIMESTAMP_MS: i64 = 8_210_266_876_799_999;

/// `DateTime::<Utc>::from_timestamp_millis(ms).date_naive().num_days_from_ce()`:
/// the UTC calendar day of a timestamp, counted from 1 January of year 1
/// (day 1). chrono computes it as the Euclidean day of the timestamp plus
/// 719163, the day number of 1 January 1970.
#[verifier::external_body]
pub(crate) fn utc_day_number(ms: i64) -> (d: i64)
    requires
        0 <= ms <= MAX_TIMESTAMP_MS,
    ensures
        d == ms / 86_400_000 + 719_163,
{
    chrono::DateTime::from_timestamp_millis(ms).unwrap().date_naive().num_days_from_ce() as i64
}

/// Whether `y` is a leap year of the proleptic Gregorian calendar.
pub open spec fn is_leap_year(y: int) -> bool {
    y % 4 == 0 && (y % 100 != 0 || y % 400 == 0)
}

/// The number of days of month `m` (1 through 12) of year `y`.
pub open spec fn days_in_month(y: int, m: int) -> int {
    if m == 2 {
        if is_leap_year(y) { 29 } else { 28 }
    } else if m == 4 || m == 6 || m == 9 || m == 11 {
        30
    } else {
        31
    }
}

/// The days of year `y` before month `m` begins.
pub open spec fn days_before_month(y: int, m: int) -> int {
    let common: int = if m == 1 {
        0
    } else if m == 2 {
        31
    } else if m == 3 {
        59
    } else if m == 4 {
        90
    } else if m == 5 {
        120
    } else if m == 6 {
        151
    } else if m == 7 {
        181
    } else if m == 8 {
        212
    } else if m == 9 {
        243
    } else if m == 10 {
        273
    } else if m == 11 {
        304
    } else {
        334
    };
    if m > 2 && is_leap_year(y) { common + 1 } else { common }
}

/// The days from 1 January 1970 to 1 January of year `y`.
pub open spec fn days_before_year(y: int) -> int {
    let p = y - 1;
    365 * p + p / 4 - p / 100 + p / 400 - 719_162
}

/// The day, counted from 1 January 1970 (day 0), of the date `d`.`m`.`y`.
pub open spec fn day_of_date(y: int, m: int, d: int) -> int {
    days_before_year(y) + days_before_month(y, m) + d - 1
}

/// Whether `d`.`m`.`y` is a date of the calendar from 1970 on.
pub open spec fn is_date(y: int, m: int, d: int) -> bool {
    y >= 1970 && 1 <= m <= 12 && 1 <= d <= days_in_month(y, m)
}

/// The UTC calendar month and day of the month of a timestamp: those of
/// the date, in the proleptic Gregorian calendar, whose day holds the
/// timestamp.
pub open spec fn utc_month_day_of(ms: i64) -> (u32, u32) {
    let (y, m, d) = choose|y: int, m: int, d: int| is_date(y, m, d) && day_of_date(y, m, d) == ms / 86_400_000;
    (m as u32, d as u32)
}

/// `DateTime::<Utc>::from_timestamp_millis(ms)` read with `month()` and
/// `day()`: the month (1 through 12) and the day of the month (1 through
/// 31) of a timestamp, in UTC, which chrono reckons in the proleptic
/// Gregorian calendar.
#[verifier::external_body]
pub(crate) fn utc_month_day(ms: i64) -> (r: (u32, u32))
    requires
        0 <= ms <= MAX_TIMESTAMP_MS,
    ensures
        r == utc_month_day_of(ms),
        1 <= r.0 <= 12,
        1 <= r.1 <= 31,
{
    let dt = chrono::DateTime::from_timestamp_millis(ms).unwrap();
    (dt.month(), dt.day())
}

/// The UTC hour of a timestamp: the hours since the epoch, modulo a day.
pub open spec fn utc_hour_of(ms: int) -> int {
    (ms / 3_600_000) % 24
}

/// The UTC hour (0 through 23) of a timestamp.
pub fn utc_hour(ms: i64) -> (h: u32)
    requires
        0 <= ms,
    ensures
        h == utc_hour_of(ms as int),
        h < 24,
{
    ((ms / 3_600_000) % 24) as u32
}

} // verus!
