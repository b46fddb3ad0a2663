use dsmr_metrics::timestamp::{resolve, DeviceTimestamp};

fn ts(year: u8, month: u8, day: u8, hour: u8, minute: u8, second: u8, dst: bool) -> DeviceTimestamp {
    DeviceTimestamp { year, month, day, hour, minute, second, dst }
}

#[test]
fn resolve_non_dst_is_one_hour_behind_naive() {
    // 2024-01-01 00:00:00 local, no DST: naive reading is 1_704_067_200 s,
    // the resolved instant one hour earlier.
    let r = resolve(&ts(24, 1, 1, 0, 0, 0, false)).unwrap();
    assert_eq!(r.nanos, 1_704_063_600_000_000_000);
}

#[test]
fn resolve_dst_is_two_hours_behind_naive() {
    let r = resolve(&ts(24, 1, 1, 0, 0, 0, true)).unwrap();
    assert_eq!(r.nanos, 1_704_060_000_000_000_000);
}

#[test]
fn resolve_dst_flag_shifts_exactly_one_hour() {
    let winter = resolve(&ts(19, 7, 1, 12, 30, 45, false)).unwrap();
    let summer = resolve(&ts(19, 7, 1, 12, 30, 45, true)).unwrap();
    assert_eq!(winter.nanos - summer.nanos, 3_600_000_000_000);
}

#[test]
fn resolve_mid_year_value() {
    // 2019-07-01 12:30:45 local DST: 1_561_984_245 s naive, minus two hours.
    let r = resolve(&ts(19, 7, 1, 12, 30, 45, true)).unwrap();
    assert_eq!(r.nanos, 1_561_977_045_000_000_000);
}

#[test]
fn resolve_century_base() {
    // Year digit 0 means 2000: 2000-01-01 00:00:00, naive 946_684_800 s.
    let r = resolve(&ts(0, 1, 1, 0, 0, 0, false)).unwrap();
    assert_eq!(r.nanos, 946_681_200_000_000_000);
}

#[test]
fn resolve_rejects_month_13() {
    assert!(resolve(&ts(24, 13, 1, 0, 0, 0, false)).is_none());
}

#[test]
fn resolve_rejects_month_0() {
    assert!(resolve(&ts(24, 0, 1, 0, 0, 0, false)).is_none());
}

#[test]
fn resolve_rejects_day_32() {
    assert!(resolve(&ts(24, 1, 32, 0, 0, 0, false)).is_none());
}

#[test]
fn resolve_rejects_day_0() {
    assert!(resolve(&ts(24, 1, 0, 0, 0, 0, false)).is_none());
}

#[test]
fn resolve_rejects_day_31_in_30_day_month() {
    assert!(resolve(&ts(24, 4, 31, 0, 0, 0, false)).is_none());
}

#[test]
fn resolve_rejects_feb_29_in_common_year() {
    assert!(resolve(&ts(23, 2, 29, 0, 0, 0, false)).is_none());
}

#[test]
fn resolve_accepts_feb_29_in_leap_year() {
    assert!(resolve(&ts(24, 2, 29, 0, 0, 0, false)).is_some());
}

#[test]
fn resolve_rejects_hour_24() {
    assert!(resolve(&ts(24, 1, 1, 24, 0, 0, false)).is_none());
}

#[test]
fn resolve_rejects_minute_60() {
    assert!(resolve(&ts(24, 1, 1, 0, 60, 0, false)).is_none());
}

#[test]
fn resolve_rejects_second_60() {
    assert!(resolve(&ts(24, 1, 1, 0, 0, 60, false)).is_none());
}

#[test]
fn resolve_accepts_last_second_of_year() {
    let r = resolve(&ts(24, 12, 31, 23, 59, 59, false)).unwrap();
    // 2025-01-01 00:00:00 UTC is 1_735_689_600 s; one second and one hour less.
    assert_eq!(r.nanos, (1_735_689_600i64 - 1 - 3600) * 1_000_000_000);
}
