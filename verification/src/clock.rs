//! Time and calendar support.
//!
//! The current time and the civil calendar come from chrono through trusted
//! wrappers; day and week boundaries are plain arithmetic on Unix seconds and
//! are verified here.

use vstd::prelude::*;
use chrono::Datelike;

verus! {

pub const SECONDS_PER_DAY: i64 = 86400;

/// Seconds since the Unix epoch, now.
///
/// Relies on chrono's Utc::now: nothing can be promised of a clock reading.
#[verifier::external_body]
pub fn now_unix() -> i64 {
    chrono::Utc::now().timestamp()
}

/// The current time as an RFC 3339 string.
///
/// Relies on chrono's to_rfc3339: nothing can be promised of a clock reading.
#[verifier::external_body]
pub fn now_rfc3339() -> String {
    chrono::Utc::now().to_rfc3339()
}

/// The UTC start of the civil month containing `ts`, as chrono's calendar
/// gives it; `ts` itself where `ts` lies outside chrono's representable range.
pub uninterp spec fn month_start_of(ts: i64) -> i64;

/// Relies on chrono's civil calendar (date_naive, with_day, and_hms_opt): the
/// month start is a function of the timestamp alone, lies at or before it,
/// and no month is longer than 31 days.
#[verifier::external_body]
pub fn month_start(ts: i64) -> (r: i64)
    ensures
        r == month_start_of(ts),
        r <= ts,
        ts - r < 31 * 86400,
{
    chrono::DateTime::<chrono::Utc>::from_timestamp(ts, 0).and_then(
        |dt| dt.date_naive().with_day(1),
    ).and_then(|d| d.and_hms_opt(0, 0, 0)).map(|ndt| ndt.and_utc().timestamp()).unwrap_or(ts)
}

/// The `%Y-%m-%d` form of the UTC day `day_number` (days since the epoch), as
/// chrono formats it.
pub uninterp spec fn date_str_of(day_number: i64) -> Seq<char>;

/// Relies on chrono's date formatting: the string is a function of the day
/// number alone.
#[verifier::external_body]
pub fn date_string(day_number: i64) -> (r: String)
    ensures
        r@ == date_str_of(day_number),
{
    day_number.checked_mul(86400).and_then(
        |secs| chrono::DateTime::<chrono::Utc>::from_timestamp(secs, 0),
    ).map(|dt| dt.format("%Y-%m-%d").to_string()).unwrap_or_else(
        || format!("day-{}", day_number),
    )
}

/// The day (since the epoch) containing `ts`, rounding toward minus infinity.
pub open spec fn spec_day_number(ts: i64) -> int {
    (ts as int - (ts as int % 86400 + 86400) % 86400) / 86400
}

/// The UTC start of the day containing `ts`, saturating at the lower end of
/// the representable range.
pub open spec fn spec_day_start(ts: i64) -> i64 {
    if spec_day_number(ts) * 86400 < i64::MIN {
        i64::MIN
    } else {
        (spec_day_number(ts) * 86400) as i64
    }
}

/// Days since Monday of the day `dn`: day 0 of the epoch was a Thursday.
pub open spec fn spec_days_since_monday(dn: int) -> int {
    ((dn + 3) % 7 + 7) % 7
}

/// The UTC start of the Monday-based week containing `ts`, saturating at the
/// lower end of the representable range.
pub open spec fn spec_week_start(ts: i64) -> i64 {
    if (spec_day_number(ts) - spec_days_since_monday(spec_day_number(ts))) * 86400 < i64::MIN {
        i64::MIN
    } else {
        ((spec_day_number(ts) - spec_days_since_monday(spec_day_number(ts))) * 86400) as i64
    }
}

/// The day number containing `ts`.
pub fn day_number(ts: i64) -> (r: i64)
    ensures
        r == spec_day_number(ts),
{
    let d: i64 = ts / 86400;
    let m: i64 = ts % 86400;
    if m < 0 {
        d - 1
    } else {
        d
    }
}

/// The UTC start of the day containing `ts`.
pub fn day_start(ts: i64) -> (r: i64)
    ensures
        r == spec_day_start(ts),
        r <= ts,
        ts as int - r < 86400,
{
    let dn = day_number(ts);
    let wide: i128 = (dn as i128) * 86400;
    if wide < i64::MIN as i128 {
        i64::MIN
    } else {
        wide as i64
    }
}

/// The UTC start of the Monday-based week containing `ts`.
pub fn week_start(ts: i64) -> (r: i64)
    ensures
        r == spec_week_start(ts),
        r <= ts,
        ts as int - r < 7 * 86400,
{
    let dn = day_number(ts);
    let off: i64 = ((dn % 7 + 3) % 7 + 7) % 7;
    assert(off == spec_days_since_monday(dn as int)) by {
        assert((dn as int % 7 + 3) % 7 == (dn as int + 3) % 7);
    }
    let wide: i128 = ((dn as i128) - (off as i128)) * 86400;
    if wide < i64::MIN as i128 {
        i64::MIN
    } else {
        wide as i64
    }
}

} // verus!
