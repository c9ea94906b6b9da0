use calendar_log::date::next_day;
use calendar_log::date::parse_date;
use calendar_log::date::weekday_abbrev;
use calendar_log::date::weekday_index;
use calendar_log::date::Date;

#[test]
fn parse_date_accepts_calendar_days() {
    assert_eq!(parse_date("2024-01-01"), Some(Date { year: 2024, month: 1, day: 1 }));
    assert_eq!(parse_date("0001-12-31"), Some(Date { year: 1, month: 12, day: 31 }));
    assert_eq!(parse_date("9999-12-31"), Some(Date { year: 9999, month: 12, day: 31 }));
    // leap day exists in 2024 but not in 2023
    assert_eq!(parse_date("2024-02-29"), Some(Date { year: 2024, month: 2, day: 29 }));
    assert_eq!(parse_date("2023-02-29"), None);
}

#[test]
fn parse_date_rejects_malformed_literals() {
    assert_eq!(parse_date(""), None);
    assert_eq!(parse_date("24-01-01"), None);
    assert_eq!(parse_date("2024-1-1"), None);
    assert_eq!(parse_date("2024/01/01"), None);
    assert_eq!(parse_date("2024-13-01"), None);
    assert_eq!(parse_date("2024-00-10"), None);
    assert_eq!(parse_date("2024-04-31"), None);
    assert_eq!(parse_date("2024-01-00"), None);
    assert_eq!(parse_date("2024-01-011"), None);
}

#[test]
fn next_day_rolls_over_months_and_years() {
    let d = |y: u16, m: u8, dd: u8| Date { year: y, month: m, day: dd };
    assert_eq!(next_day(d(2024, 1, 1)), d(2024, 1, 2));
    assert_eq!(next_day(d(2024, 1, 31)), d(2024, 2, 1));
    assert_eq!(next_day(d(2024, 2, 28)), d(2024, 2, 29));
    assert_eq!(next_day(d(2023, 2, 28)), d(2023, 3, 1));
    assert_eq!(next_day(d(2024, 12, 31)), d(2025, 1, 1));
    assert_eq!(next_day(d(1900, 2, 28)), d(1900, 3, 1));
    assert_eq!(next_day(d(2000, 2, 28)), d(2000, 2, 29));
}

#[test]
fn weekdays_match_known_dates() {
    // 2024-01-01 was a Monday
    let mon = Date { year: 2024, month: 1, day: 1 };
    assert_eq!(weekday_index(mon), 0);
    assert_eq!(weekday_abbrev(weekday_index(mon)), "Mon");
    // 2000-01-01 was a Saturday
    let sat = Date { year: 2000, month: 1, day: 1 };
    assert_eq!(weekday_index(sat), 5);
    assert_eq!(weekday_abbrev(weekday_index(sat)), "Sat");
    // 2024-12-31 was a Tuesday, the next day a Wednesday
    let tue = Date { year: 2024, month: 12, day: 31 };
    assert_eq!(weekday_abbrev(weekday_index(tue)), "Tue");
    assert_eq!(weekday_abbrev(weekday_index(next_day(tue))), "Wed");
}
