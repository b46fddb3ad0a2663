//! Resolving device-local timestamps into absolute instants.
//!
//! A meter reports wall-clock time in its own civil timezone together with
//! a daylight-saving flag. The regional rule is fixed: outside DST the
//! local clock runs one hour ahead of UTC, during DST two hours ahead.
//! Resolution validates the calendar fields and converts to signed
//! nanoseconds since the Unix epoch.

use vstd::prelude::*;

verus! {

/// A device-local timestamp as decoded from a telegram: a two-digit year
/// offset from 2000, calendar fields, and the daylight-saving indicator.
#[derive(Clone, Copy, Debug, PartialEq, Eq, Structural)]
pub struct DeviceTimestamp {
    pub year: u8,
    pub month: u8,
    pub day: u8,
    pub hour: u8,
    pub minute: u8,
    pub second: u8,
    pub dst: bool,
}

/// An absolute point in time: signed nanoseconds since the Unix epoch.
#[derive(Clone, Copy, Debug, PartialEq, Eq, Structural)]
pub struct ResolvedInstant {
    pub nanos: i64,
}

/// The proleptic Gregorian leap-year rule.
pub open spec fn is_leap_year(y: int) -> bool {
    (y % 4 == 0 && y % 100 != 0) || y % 400 == 0
}

pub open spec fn days_in_year(y: int) -> int {
    if is_leap_year(y) {
        366
    } else {
        365
    }
}

/// Days in the given month of the given year; zero outside months 1..=12.
pub open spec fn days_in_month(y: int, m: int) -> int {
    if m == 1 || m == 3 || m == 5 || m == 7 || m == 8 || m == 10 || m == 12 {
        31
    } else if m == 4 || m == 6 || m == 9 || m == 11 {
        30
    } else if m == 2 {
        if is_leap_year(y) {
            29
        } else {
            28
        }
    } else {
        0
    }
}

/// Days of all years in [1970, y).
pub open spec fn days_before_year(y: int) -> int
    decreases y when y >= 1970
{
    if y <= 1970 {
        0
    } else {
        days_before_year(y - 1) + days_in_year(y - 1)
    }
}

/// Days of all months of year `y` that precede month `m`.
pub open spec fn days_before_month(y: int, m: int) -> int
    decreases m when m >= 1
{
    if m <= 1 {
        0
    } else {
        days_before_month(y, m - 1) + days_in_month(y, m - 1)
    }
}

/// Whole days from 1970-01-01 to the given calendar date.
pub open spec fn days_from_epoch(y: int, m: int, d: int) -> int {
    days_before_year(y) + days_before_month(y, m) + (d - 1)
}

/// All calendar fields in range; the only timestamps that resolve.
pub open spec fn valid_timestamp(ts: DeviceTimestamp) -> bool {
    &&& 1 <= ts.month <= 12
    &&& 1 <= ts.day <= days_in_month(2000 + ts.year, ts.month as int)
    &&& ts.hour < 24
    &&& ts.minute < 60
    &&& ts.second < 60
}

/// The naive reading of the fields as if they were UTC, in nanoseconds
/// since the epoch.
pub open spec fn naive_nanos(ts: DeviceTimestamp) -> int {
    (days_from_epoch(2000 + ts.year, ts.month as int, ts.day as int) * 86400
        + ts.hour * 3600 + ts.minute * 60 + ts.second) * 1_000_000_000
}

/// The fixed regional offset from UTC, in nanoseconds: +1 h outside DST,
/// +2 h during DST.
pub open spec fn offset_nanos(dst: bool) -> int {
    if dst {
        7_200_000_000_000
    } else {
        3_600_000_000_000
    }
}

/// The absolute instant a valid timestamp denotes: its naive reading minus
/// the regional UTC offset.
pub open spec fn resolved_nanos(ts: DeviceTimestamp) -> int {
    naive_nanos(ts) - offset_nanos(ts.dst)
}

fn is_leap_year_x(y: u16) -> (r: bool)
    ensures
        r == is_leap_year(y as int),
{
    (y % 4 == 0 && y % 100 != 0) || y % 400 == 0
}

fn days_in_month_x(y: u16, m: u8) -> (r: u8)
    ensures
        r == days_in_month(y as int, m as int),
{
    match m {
        1 | 3 | 5 | 7 | 8 | 10 | 12 => 31,
        4 | 6 | 9 | 11 => 30,
        2 => if is_leap_year_x(y) {
            29
        } else {
            28
        },
        _ => 0,
    }
}

fn days_before_year_x(y: u16) -> (r: u32)
    requires
        1970 <= y <= 2256,
    ensures
        r == days_before_year(y as int),
        365 * (y as int - 1970) <= r as int <= 366 * (y as int - 1970),
{
    let mut i: u16 = 1970;
    let mut acc: u32 = 0;
    while i < y
        invariant
            1970 <= i <= y <= 2256,
            acc == days_before_year(i as int),
            365 * (i as int - 1970) <= acc as int <= 366 * (i as int - 1970),
        decreases y - i,
    {
        acc = acc + if is_leap_year_x(i) {
            366
        } else {
            365
        };
        i = i + 1;
    }
    acc
}

fn days_before_month_x(y: u16, m: u8) -> (r: u16)
    requires
        1 <= m <= 12,
    ensures
        r == days_before_month(y as int, m as int),
        r <= 341,
{
    let mut i: u8 = 1;
    let mut acc: u16 = 0;
    while i < m
        invariant
            1 <= i <= m <= 12,
            acc == days_before_month(y as int, i as int),
            acc <= 31 * (i as int - 1),
        decreases m - i,
    {
        acc = acc + days_in_month_x(y, i) as u16;
        i = i + 1;
    }
    acc
}

/// Resolve a device-local timestamp to an absolute instant.
///
/// Out-of-range calendar fields yield `None` — a recoverable decode
/// failure, never a panic. A valid timestamp resolves to its naive
/// reading minus the fixed regional offset (+1 h, or +2 h during DST).
pub fn resolve(ts: &DeviceTimestamp) -> (r: Option<ResolvedInstant>)
    ensures
        r is Some <==> valid_timestamp(*ts),
        r is Some ==> r->Some_0.nanos == resolved_nanos(*ts),
        r is Some ==> r->Some_0.nanos > 0,
{
    let year: u16 = 2000 + ts.year as u16;
    if !(1 <= ts.month && ts.month <= 12) {
        return None;
    }
    let dim: u8 = days_in_month_x(year, ts.month);
    if !(1 <= ts.day && ts.day <= dim) {
        return None;
    }
    if !(ts.hour < 24 && ts.minute < 60 && ts.second < 60) {
        return None;
    }
    let days: u64 = days_before_year_x(year) as u64 + days_before_month_x(year, ts.month) as u64
        + (ts.day - 1) as u64;
    let local_secs: u64 = days * 86400 + ts.hour as u64 * 3600 + ts.minute as u64 * 60
        + ts.second as u64;
    let offset_secs: u64 = if ts.dst {
        7200
    } else {
        3600
    };
    let utc_secs: u64 = local_secs - offset_secs;
    let utc_nanos: u64 = utc_secs * 1_000_000_000;
    Some(ResolvedInstant { nanos: utc_nanos as i64 })
}

/// Law: a valid timestamp with the DST flag clear resolves exactly one
/// hour behind its naive local reading; with the flag set, exactly two
/// hours behind.
pub proof fn lemma_resolve_dst_offset(ts: DeviceTimestamp)
    requires
        valid_timestamp(ts),
    ensures
        !ts.dst ==> resolved_nanos(ts) == naive_nanos(ts) - 3_600_000_000_000,
        ts.dst ==> resolved_nanos(ts) == naive_nanos(ts) - 7_200_000_000_000,
{
}

} // verus!
