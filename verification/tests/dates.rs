use photon::date::{date_le, days_in_month, is_leap, iter_days, Date};

fn d(y: u32, m: u8, day: u8) -> Date {
    Date::new(y, m, day).unwrap()
}

#[test]
fn test_day_range() {
    let days = iter_days(d(2022, 5, 1), d(2022, 5, 2));
    assert_eq!(days, vec![d(2022, 5, 1), d(2022, 5, 2)]);

    let days = iter_days(d(2022, 5, 1), d(2022, 5, 4));
    assert_eq!(days, vec![d(2022, 5, 1), d(2022, 5, 2), d(2022, 5, 3), d(2022, 5, 4)]);
}

#[test]
fn day_range_single_day() {
    let days = iter_days(d(2022, 5, 1), d(2022, 5, 1));
    assert_eq!(days, vec![d(2022, 5, 1)]);
}

#[test]
fn day_range_empty_when_reversed() {
    let days = iter_days(d(2022, 5, 2), d(2022, 5, 1));
    assert!(days.is_empty());
}

#[test]
fn day_range_crosses_leap_february() {
    let days = iter_days(d(2020, 2, 28), d(2020, 3, 1));
    assert_eq!(days, vec![d(2020, 2, 28), d(2020, 2, 29), d(2020, 3, 1)]);

    let days = iter_days(d(2021, 2, 28), d(2021, 3, 1));
    assert_eq!(days, vec![d(2021, 2, 28), d(2021, 3, 1)]);
}

#[test]
fn day_range_crosses_year_boundary() {
    let days = iter_days(d(2021, 12, 30), d(2022, 1, 2));
    assert_eq!(
        days,
        vec![d(2021, 12, 30), d(2021, 12, 31), d(2022, 1, 1), d(2022, 1, 2)]
    );
}

#[test]
fn leap_year_rules() {
    assert!(is_leap(2020));
    assert!(!is_leap(2021));
    assert!(!is_leap(1900));
    assert!(is_leap(2000));
    assert_eq!(days_in_month(2020, 2), 29);
    assert_eq!(days_in_month(2021, 2), 28);
    assert_eq!(days_in_month(2022, 4), 30);
    assert_eq!(days_in_month(2022, 1), 31);
}

#[test]
fn date_validation() {
    assert!(Date::new(2022, 2, 29).is_none());
    assert!(Date::new(2020, 2, 29).is_some());
    assert!(Date::new(2022, 13, 1).is_none());
    assert!(Date::new(2022, 0, 1).is_none());
    assert!(Date::new(0, 1, 1).is_none());
    assert!(Date::new(9999, 12, 31).is_some());
}

#[test]
fn date_ordering() {
    assert!(date_le(d(2021, 12, 31), d(2022, 1, 1)));
    assert!(date_le(d(2022, 5, 1), d(2022, 5, 1)));
    assert!(!date_le(d(2022, 5, 2), d(2022, 5, 1)));
}
