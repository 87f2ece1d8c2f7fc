use chrono::{NaiveDate, Timelike, Datelike};
use process_files_in_ftp::datetime::DateTimeParts;

fn parts_of(dt: &chrono::NaiveDateTime) -> DateTimeParts {
    DateTimeParts {
        year: dt.year(),
        month: dt.month(),
        day: dt.day(),
        hour: dt.hour(),
        minute: dt.minute(),
        second: dt.second(),
        nanosecond: dt.nanosecond(),
    }
}

#[test]
fn layouts_of_an_ordinary_date() {
    let p = DateTimeParts { year: 2023, month: 7, day: 8, hour: 9, minute: 5, second: 3, nanosecond: 0 };
    assert_eq!(p.format_time(), "09:05:03");
    assert_eq!(p.format_day_month_time(), "08/07 09:05:03");
    assert_eq!(p.format_full(), "2023-07-08 09:05:03");
}

#[test]
fn layouts_agree_with_chrono() {
    let dates = [
        NaiveDate::from_ymd_opt(2023, 7, 8).unwrap().and_hms_opt(9, 5, 3).unwrap(),
        NaiveDate::from_ymd_opt(5, 1, 31).unwrap().and_hms_opt(23, 59, 59).unwrap(),
        NaiveDate::from_ymd_opt(-1, 12, 1).unwrap().and_hms_opt(0, 0, 0).unwrap(),
        NaiveDate::from_ymd_opt(12345, 2, 28).unwrap().and_hms_opt(12, 30, 0).unwrap(),
        NaiveDate::from_ymd_opt(2016, 12, 31).unwrap().and_hms_milli_opt(23, 59, 59, 1500).unwrap(),
    ];
    for dt in dates.iter() {
        let p = parts_of(dt);
        assert_eq!(p.format_time(), dt.format("%H:%M:%S").to_string());
        assert_eq!(p.format_day_month_time(), dt.format("%d/%m %H:%M:%S").to_string());
        assert_eq!(p.format_full(), dt.format("%Y-%m-%d %H:%M:%S").to_string());
    }
}

#[test]
fn years_outside_four_digits_carry_a_sign() {
    let mut p = DateTimeParts { year: -1, month: 1, day: 1, hour: 0, minute: 0, second: 0, nanosecond: 0 };
    assert_eq!(p.format_full(), "-0001-01-01 00:00:00");
    p.year = 12345;
    assert_eq!(p.format_full(), "+12345-01-01 00:00:00");
    p.year = 42;
    assert_eq!(p.format_full(), "0042-01-01 00:00:00");
}

#[test]
fn leap_second_is_shown_as_sixty() {
    let p = DateTimeParts { year: 2016, month: 12, day: 31, hour: 23, minute: 59, second: 59, nanosecond: 1_500_000_000 };
    assert_eq!(p.format_time(), "23:59:60");
}
