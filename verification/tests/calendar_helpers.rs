use calendar_duration::{is_leap_year, last_day_of_month, last_day_of_month_0, DateTime};

#[test]
pub fn leap_year_predicate() {
    assert!(is_leap_year(2000));
    assert!(!is_leap_year(1900));
    assert!(is_leap_year(2024));
    assert!(!is_leap_year(2023));
    assert!(is_leap_year(1996));
    assert!(!is_leap_year(2100));
}

#[test]
pub fn last_day_of_each_month() {
    assert_eq!(31, last_day_of_month(2023, 1));
    assert_eq!(28, last_day_of_month(2023, 2));
    assert_eq!(29, last_day_of_month(2020, 2));
    assert_eq!(31, last_day_of_month(2023, 3));
    assert_eq!(30, last_day_of_month(2023, 4));
    assert_eq!(31, last_day_of_month(2023, 5));
    assert_eq!(30, last_day_of_month(2023, 6));
    assert_eq!(31, last_day_of_month(2023, 7));
    assert_eq!(31, last_day_of_month(2023, 8));
    assert_eq!(30, last_day_of_month(2023, 9));
    assert_eq!(31, last_day_of_month(2023, 10));
    assert_eq!(30, last_day_of_month(2023, 11));
    assert_eq!(31, last_day_of_month(2023, 12));

    assert_eq!(28, last_day_of_month_0(2023, 1));
    assert_eq!(29, last_day_of_month_0(2000, 1));
    assert_eq!(31, last_day_of_month_0(2023, 0));
    assert_eq!(31, last_day_of_month_0(2023, 11));
}

#[test]
pub fn constructor_checks_the_calendar() {
    assert!(DateTime::from_ymd_hms_nano(2020, 2, 29, 0, 0, 0, 0).is_some());
    assert!(DateTime::from_ymd_hms_nano(2023, 2, 29, 0, 0, 0, 0).is_none());
    assert!(DateTime::from_ymd_hms_nano(2023, 0, 1, 0, 0, 0, 0).is_none());
    assert!(DateTime::from_ymd_hms_nano(2023, 13, 1, 0, 0, 0, 0).is_none());
    assert!(DateTime::from_ymd_hms_nano(2023, 4, 31, 0, 0, 0, 0).is_none());
    assert!(DateTime::from_ymd_hms_nano(2023, 4, 0, 0, 0, 0, 0).is_none());
    assert!(DateTime::from_ymd_hms_nano(2023, 4, 30, 24, 0, 0, 0).is_none());
    assert!(DateTime::from_ymd_hms_nano(2023, 4, 30, 0, 60, 0, 0).is_none());
    assert!(DateTime::from_ymd_hms_nano(2023, 4, 30, 0, 0, 60, 0).is_none());
    assert!(DateTime::from_ymd_hms_nano(2023, 4, 30, 0, 0, 0, 1_000_000_000).is_none());
    assert!(DateTime::from_ymd_hms_nano(300_000, 1, 1, 0, 0, 0, 0).is_none());
    assert!(DateTime::from_ymd_hms_nano(-300_000, 1, 1, 0, 0, 0, 0).is_none());

    let p = DateTime::from_ymd_hms_nano(1996, 12, 25, 16, 39, 57, 123_000_000).unwrap();
    assert_eq!(1996, p.year);
    assert_eq!(12, p.month);
    assert_eq!(25, p.day);
    assert_eq!(16 * 3600 + 39 * 60 + 57, p.secs);
    assert_eq!(123_000_000, p.frac);
}

#[test]
pub fn chronological_order() {
    let a = DateTime::from_ymd_hms_nano(1996, 12, 25, 16, 39, 57, 0).unwrap();
    let b = DateTime::from_ymd_hms_nano(1996, 12, 25, 16, 39, 57, 1).unwrap();
    let c = DateTime::from_ymd_hms_nano(1997, 1, 1, 0, 0, 0, 0).unwrap();
    assert!(a.before(&b));
    assert!(b.before(&c));
    assert!(a.before(&c));
    assert!(!b.before(&a));
    assert!(!a.before(&a));
}
