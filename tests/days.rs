use chrono::{Datelike, NaiveDate};
use note::days::DayRange;

fn day(y: i32, m: u32, d: u32) -> i32 {
    NaiveDate::from_ymd_opt(y, m, d).unwrap().num_days_from_ce()
}

#[test]
fn test_day_range() {
    let n = 5;

    let r = DayRange::from(day(2021, 10, 10)).unwrap();
    assert_eq!(r.week_num(), 40);
    assert_eq!(r.year(), 2021);

    let mut it = r.range(n);
    let mut days = Vec::new();
    while let Some(d) = it.next() {
        days.push(d);
    }
    assert_eq!(days.len(), n as usize);

    for i in 0..n {
        assert_eq!(days[i as usize], day(2021, 10, 10 + i as u32));
    }
}

#[test]
fn iso_week_at_year_boundary() {
    let r = DayRange::from(day(2021, 1, 1)).unwrap();
    assert_eq!(r.week_num(), 53);
    assert_eq!(r.year(), 2020);
}

#[test]
fn out_of_range_day_has_no_week() {
    assert!(DayRange::from(i32::MAX).is_none());
}

#[test]
fn monday_of_weekdays() {
    // 2021-10-13 is a Wednesday.
    assert_eq!(DayRange::monday(day(2021, 10, 13), 0), Some(day(2021, 10, 11)));
    assert_eq!(DayRange::monday(day(2021, 10, 11), 0), Some(day(2021, 10, 11)));
    // A Sunday counts with the following Monday.
    assert_eq!(DayRange::monday(day(2021, 10, 10), 0), Some(day(2021, 10, 11)));
    assert_eq!(DayRange::monday(day(2021, 10, 13), -2), Some(day(2021, 9, 27)));
    assert_eq!(DayRange::monday(day(2021, 10, 13), 1), Some(day(2021, 10, 18)));
}

#[test]
fn monday_before_year_one() {
    // Day 0 is 0000-12-31, a Sunday; day -1 a Saturday.
    assert_eq!(DayRange::monday(0, 0), Some(1));
    assert_eq!(DayRange::monday(-1, 0), Some(-6));
}

#[test]
fn monday_out_of_range() {
    assert_eq!(DayRange::monday(0, i64::MAX), None);
    assert_eq!(DayRange::monday(0, 400_000_000), None);
}

#[test]
fn from_monday_of_gives_week() {
    let r = DayRange::from_monday_of(day(2021, 10, 13), -1).unwrap();
    assert_eq!(r.week_num(), 40);
    assert_eq!(r.year(), 2021);
}

#[test]
fn empty_range() {
    let r = DayRange::from(day(2021, 10, 10)).unwrap();
    let mut it = r.range(0);
    assert_eq!(it.next(), None);
    let mut it = r.range(-3);
    assert_eq!(it.next(), None);
}
