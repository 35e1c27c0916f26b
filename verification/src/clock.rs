//! Calendar readings of a Unix timestamp, computed by the `time` crate.
//!
//! Each reading takes the timestamp as UTC. For a `u32` timestamp the
//! conversion into a date cannot fail: the crate accepts every timestamp
//! up to the end of the year 9999.

use vstd::prelude::*;
use time::OffsetDateTime;
use time::ext::NumericalDuration;

verus! {

/// The last second that the `time` crate can represent (9999-12-31 23:59:59 UTC).
pub const MAX_TIMESTAMP: i64 = 253402300799;

/// The day of the month (1 to 31) of a UTC timestamp, as the `time` crate computes it.
pub uninterp spec fn utc_day_of_month(timestamp: int) -> int;

/// The month (1 to 12) of a UTC timestamp, as the `time` crate computes it.
pub uninterp spec fn utc_month_number(timestamp: int) -> int;

/// The calendar year of a UTC timestamp, as the `time` crate computes it.
pub uninterp spec fn utc_calendar_year(timestamp: int) -> int;

/// The number of whole days since 1970-01-01 (a Thursday).
pub open spec fn days_since_epoch(ts: int) -> int {
    ts / 86400
}

/// The hour of the day (0 to 23) of a non-negative UTC timestamp.
pub open spec fn hour_of(ts: int) -> int {
    (ts / 3600) % 24
}

/// The weekday counted from Sunday as 0, of a non-negative UTC timestamp.
pub open spec fn weekday_from_sunday(ts: int) -> int {
    (days_since_epoch(ts) + 4) % 7
}

/// `OffsetDateTime::from_unix_timestamp(ts)` then `millisecond()`: a whole
/// second has no milliseconds.
#[verifier::external_body]
pub fn utc_millisecond(ts: u32) -> (r: u16)
    ensures
        r == 0,
{
    match OffsetDateTime::from_unix_timestamp(i64::from(ts)) {
        Ok(dt) => dt.millisecond(),
        Err(_) => 0,
    }
}

/// `OffsetDateTime::from_unix_timestamp(ts)` then `second()`.
#[verifier::external_body]
pub fn utc_second(ts: u32) -> (r: u8)
    ensures
        r == ts % 60,
{
    match OffsetDateTime::from_unix_timestamp(i64::from(ts)) {
        Ok(dt) => dt.second(),
        Err(_) => 0,
    }
}

/// `OffsetDateTime::from_unix_timestamp(ts)` then `minute()`.
#[verifier::external_body]
pub fn utc_minute(ts: u32) -> (r: u8)
    ensures
        r == (ts / 60) % 60,
{
    match OffsetDateTime::from_unix_timestamp(i64::from(ts)) {
        Ok(dt) => dt.minute(),
        Err(_) => 0,
    }
}

/// `OffsetDateTime::from_unix_timestamp(ts)` then `hour()`.
#[verifier::external_body]
pub fn utc_hour(ts: u32) -> (r: u8)
    ensures
        r == hour_of(ts as int),
{
    match OffsetDateTime::from_unix_timestamp(i64::from(ts)) {
        Ok(dt) => dt.hour(),
        Err(_) => 0,
    }
}

/// `OffsetDateTime::from_unix_timestamp(ts)` then `day()`.
#[verifier::external_body]
pub fn utc_day(ts: u32) -> (r: u8)
    ensures
        r == utc_day_of_month(ts as int),
        1 <= r <= 31,
{
    match OffsetDateTime::from_unix_timestamp(i64::from(ts)) {
        Ok(dt) => dt.day(),
        Err(_) => 1,
    }
}

/// `OffsetDateTime::from_unix_timestamp(ts)` then `weekday().number_from_sunday()`
/// (Sunday is 1).
#[verifier::external_body]
pub fn utc_weekday_number_from_sunday(ts: u32) -> (r: u8)
    ensures
        r == weekday_from_sunday(ts as int) + 1,
{
    match OffsetDateTime::from_unix_timestamp(i64::from(ts)) {
        Ok(dt) => dt.weekday().number_from_sunday(),
        Err(_) => 1,
    }
}

/// `OffsetDateTime::from_unix_timestamp(ts)` then `weekday().number_days_from_sunday()`
/// (Sunday is 0).
#[verifier::external_body]
pub fn utc_weekday_days_from_sunday(ts: u32) -> (r: u8)
    ensures
        r == weekday_from_sunday(ts as int),
{
    match OffsetDateTime::from_unix_timestamp(i64::from(ts)) {
        Ok(dt) => dt.weekday().number_days_from_sunday(),
        Err(_) => 0,
    }
}

/// `OffsetDateTime::from_unix_timestamp(ts)` then `u8::from(month())`.
#[verifier::external_body]
pub fn utc_month(ts: u32) -> (r: u8)
    ensures
        r == utc_month_number(ts as int),
        1 <= r <= 12,
{
    match OffsetDateTime::from_unix_timestamp(i64::from(ts)) {
        Ok(dt) => u8::from(dt.month()),
        Err(_) => 1,
    }
}

/// `OffsetDateTime::from_unix_timestamp(ts)` then `year()`. Every `u32`
/// timestamp lies between 1970 and 2106.
#[verifier::external_body]
pub fn utc_year(ts: u32) -> (r: i32)
    ensures
        r == utc_calendar_year(ts as int),
        1970 <= r <= 2106,
{
    match OffsetDateTime::from_unix_timestamp(i64::from(ts)) {
        Ok(dt) => dt.year(),
        Err(_) => 1970,
    }
}

/// `OffsetDateTime::from_unix_timestamp(ts)`, plus `days` whole days, then
/// `replace_hour(hour)` and `unix_timestamp()`: the time of day keeps its
/// minutes and seconds and takes the new hour. `replace_hour` refuses an
/// hour above 23 (`None`). The sum must stay within the crate's range, where
/// the addition would panic.
#[verifier::external_body]
pub fn add_days_at_hour(ts: u32, days: i64, hour: u8) -> (r: Option<i64>)
    requires
        0 <= days,
        ts + days * 86400 <= MAX_TIMESTAMP,
    ensures
        hour < 24 ==> r == Some((ts + days * 86400 - hour_of(ts + days * 86400) * 3600 + hour * 3600) as i64),
        hour >= 24 ==> r is None,
{
    match OffsetDateTime::from_unix_timestamp(i64::from(ts)) {
        Ok(dt) => match (dt + days.days()).replace_hour(hour) {
            Ok(moved) => Some(moved.unix_timestamp()),
            Err(_) => None,
        },
        Err(_) => None,
    }
}

} // verus!
