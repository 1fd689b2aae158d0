//! Calendar arithmetic for UTC instants.
//!
//! An instant is a count of seconds since the Unix epoch (1970-01-01T00:00:00Z),
//! held in an `i64`. The spec functions define the proleptic Gregorian calendar
//! for years 0 through 9999, which is the range the certificate timestamp
//! format can express.

use vstd::prelude::*;

verus! {

/// Earliest instant expressible by a four-digit year: 0000-01-01T00:00:00Z.
pub const MIN_EPOCH_SECS: i64 = -62167219200;

/// Latest instant expressible by a four-digit year: 9999-12-31T23:59:59Z.
pub const MAX_EPOCH_SECS: i64 = 253402300799;

/// Days from 0000-01-01 to 1970-01-01 in the proleptic Gregorian calendar.
pub const DAYS_TO_UNIX_EPOCH: i64 = 719528;

pub open spec fn is_leap_year(y: int) -> bool {
    y % 4 == 0 && (y % 100 != 0 || y % 400 == 0)
}

pub open spec fn days_in_month(y: int, m: int) -> int {
    if m == 2 {
        if is_leap_year(y) {
            29
        } else {
            28
        }
    } else if m == 4 || m == 6 || m == 9 || m == 11 {
        30
    } else {
        31
    }
}

/// Days in year `y` before the first day of month `m`.
pub open spec fn days_before_month(y: int, m: int) -> int {
    let base: int = if m == 1 {
        0
    } else if m == 2 {
        31
    } else if m == 3 {
        59
    } else if m == 4 {
        90
    } else if m == 5 {
        120
    } else if m == 6 {
        151
    } else if m == 7 {
        181
    } else if m == 8 {
        212
    } else if m == 9 {
        243
    } else if m == 10 {
        273
    } else if m == 11 {
        304
    } else {
        334
    };
    if m > 2 && is_leap_year(y) {
        base + 1
    } else {
        base
    }
}

/// Number of leap years `k` with `0 <= k < y` (for `y >= 0`).
pub open spec fn leap_years_before(y: int) -> int {
    (y + 3) / 4 - (y + 99) / 100 + (y + 399) / 400
}

/// Days from 1970-01-01 to the civil date `y-m-d` (negative for earlier dates).
pub open spec fn days_from_civil(y: int, m: int, d: int) -> int {
    365 * y + leap_years_before(y) + days_before_month(y, m) + (d - 1) - DAYS_TO_UNIX_EPOCH
}

pub open spec fn valid_date(y: int, m: int, d: int) -> bool {
    0 <= y <= 9999 && 1 <= m <= 12 && 1 <= d <= days_in_month(y, m)
}

pub open spec fn valid_time(h: int, mi: int, s: int) -> bool {
    0 <= h <= 23 && 0 <= mi <= 59 && 0 <= s <= 59
}

/// Seconds since the Unix epoch of the UTC instant `y-m-d h:mi:s`.
pub open spec fn epoch_of(y: int, m: int, d: int, h: int, mi: int, s: int) -> int {
    days_from_civil(y, m, d) * 86400 + h * 3600 + mi * 60 + s
}

/// Instants expressible by the timestamp wire format (four-digit year).
pub open spec fn representable_epoch(t: int) -> bool {
    MIN_EPOCH_SECS <= t <= MAX_EPOCH_SECS
}

proof fn lemma_leap_years_before_bounds(y: int)
    requires
        0 <= y <= 9999,
    ensures
        0 <= leap_years_before(y) <= 2500,
        (y + 99) / 100 <= (y + 3) / 4 <= 2500,
        (y + 399) / 400 <= (y + 99) / 100,
        0 <= (y + 399) / 400,
{
    assert(0 <= (y + 3) / 4 <= 2500) by (nonlinear_arith)
        requires 0 <= y <= 9999;
    assert(0 <= (y + 99) / 100 <= (y + 3) / 4) by (nonlinear_arith)
        requires 0 <= y <= 9999;
    assert(0 <= (y + 399) / 400 <= (y + 99) / 100) by (nonlinear_arith)
        requires 0 <= y <= 9999;
}

/// A valid date and time of the representable years maps into the
/// representable instant range.
pub proof fn lemma_epoch_of_representable(y: int, m: int, d: int, h: int, mi: int, s: int)
    requires
        valid_date(y, m, d),
        valid_time(h, mi, s),
    ensures
        representable_epoch(epoch_of(y, m, d, h, mi, s)),
{
    lemma_leap_years_before_bounds(y);
    assert(0 <= 365 * y + leap_years_before(y) + days_before_month(y, m) + (d - 1)
        <= 3652424);
}

/// Number of days of month `m` in year `y`.
pub fn month_length(y: u32, m: u32) -> (r: u32)
    requires
        1 <= m <= 12,
    ensures
        r == days_in_month(y as int, m as int),
{
    if m == 2 {
        if leap_year(y) {
            29
        } else {
            28
        }
    } else if m == 4 || m == 6 || m == 9 || m == 11 {
        30
    } else {
        31
    }
}

/// The text that `chrono` prints for the UTC instant `t` seconds after the
/// Unix epoch (for example `2030-01-02 15:04:05 UTC`).
pub uninterp spec fn utc_display_of(t: int) -> Seq<char>;

/// Relies on `chrono::DateTime::<Utc>::from_timestamp`, which its
/// documentation promises to succeed for every in-range number of seconds,
/// and on the `Display` impl of `DateTime<Utc>`: the printed text depends on
/// the timestamp alone.
#[verifier::external_body]
pub(crate) fn format_instant(t: i64) -> (r: String)
    requires
        representable_epoch(t as int),
    ensures
        r@ == utc_display_of(t as int),
{
    chrono::DateTime::<chrono::Utc>::from_timestamp(t, 0).map(|d| d.to_string()).unwrap_or_default()
}

fn leap_year(y: u32) -> (r: bool)
    ensures
        r == is_leap_year(y as int),
{
    y % 4 == 0 && (y % 100 != 0 || y % 400 == 0)
}

/// Seconds since the Unix epoch of the UTC instant `y-m-d h:mi:s`.
pub fn epoch_from_fields(y: u32, m: u32, d: u32, h: u32, mi: u32, s: u32) -> (t: i64)
    requires
        valid_date(y as int, m as int, d as int),
        valid_time(h as int, mi as int, s as int),
    ensures
        t == epoch_of(y as int, m as int, d as int, h as int, mi as int, s as int),
        representable_epoch(t as int),
{
    proof {
        lemma_leap_years_before_bounds(y as int);
        lemma_epoch_of_representable(y as int, m as int, d as int, h as int, mi as int, s as int);
    }
    let before_month: u64 = match m {
        1 => 0,
        2 => 31,
        3 => 59,
        4 => 90,
        5 => 120,
        6 => 151,
        7 => 181,
        8 => 212,
        9 => 243,
        10 => 273,
        11 => 304,
        _ => 334,
    };
    let before_month: u64 = if m > 2 && leap_year(y) {
        before_month + 1
    } else {
        before_month
    };
    let yy = y as u64;
    let leaps: u64 = (yy + 3) / 4 - (yy + 99) / 100 + (yy + 399) / 400;
    proof {
        assert(leaps == leap_years_before(y as int));
    }
    let days: u64 = 365 * yy + leaps + before_month + (d as u64 - 1);
    let secs: u64 = days * 86400 + (h as u64) * 3600 + (mi as u64) * 60 + (s as u64);
    secs as i64 - DAYS_TO_UNIX_EPOCH * 86400
}

} // verus!
