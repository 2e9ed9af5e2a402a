use ashares::time::{read_time, today};
use ashares::{CalendarDate, CalendarDateTime, StockTime, TimeFormat};
use chrono::{Datelike, NaiveDate, NaiveDateTime, Timelike};

fn date(year: i32, month: u32, day: u32) -> CalendarDate {
    CalendarDate { year, month, day }
}

fn date_time(year: i32, month: u32, day: u32, hour: u32, minute: u32, second: u32) -> StockTime {
    StockTime::DateTime(CalendarDateTime {
        date: date(year, month, day),
        hour,
        minute,
        second,
        nanosecond: 0,
    })
}

#[test]
fn day_is_read_as_a_date() {
    assert_eq!(read_time(TimeFormat::Day, "2025-01-28"), Some(StockTime::Date(date(2025, 1, 28))));
    assert_eq!(read_time(TimeFormat::Day, "2024-02-29"), Some(StockTime::Date(date(2024, 2, 29))));
    assert_eq!(read_time(TimeFormat::Day, "2014-5-7"), Some(StockTime::Date(date(2014, 5, 7))));
}

#[test]
fn day_that_does_not_exist_is_not_read() {
    assert_eq!(read_time(TimeFormat::Day, "2025-02-29"), None);
    assert_eq!(read_time(TimeFormat::Day, "2025-13-01"), None);
    assert_eq!(read_time(TimeFormat::Day, "2025-00-10"), None);
    assert_eq!(read_time(TimeFormat::Day, "2025-01-32"), None);
    assert_eq!(read_time(TimeFormat::Day, "2025/01/28"), None);
    assert_eq!(read_time(TimeFormat::Day, "2025-01-28 10:00:00"), None);
    assert_eq!(read_time(TimeFormat::Day, "20250128"), None);
    assert_eq!(read_time(TimeFormat::Day, ""), None);
}

#[test]
fn minute_stamp_is_read_as_date_and_time() {
    assert_eq!(
        read_time(TimeFormat::Minute, "202501281035"),
        Some(date_time(2025, 1, 28, 10, 35, 0))
    );
    assert_eq!(
        read_time(TimeFormat::Minute, "202412312359"),
        Some(date_time(2024, 12, 31, 23, 59, 0))
    );
    assert_eq!(read_time(TimeFormat::Minute, "202501282460"), None);
    assert_eq!(read_time(TimeFormat::Minute, "2025-01-28"), None);
    assert_eq!(read_time(TimeFormat::Minute, "20250128"), None);
}

#[test]
fn second_stamp_is_read_as_date_and_time() {
    assert_eq!(
        read_time(TimeFormat::Second, "2025-01-28 14:55:00"),
        Some(date_time(2025, 1, 28, 14, 55, 0))
    );
    assert_eq!(
        read_time(TimeFormat::Second, "2025-01-28 09:35:07"),
        Some(date_time(2025, 1, 28, 9, 35, 7))
    );
    assert_eq!(read_time(TimeFormat::Second, "2025-01-28"), None);
    assert_eq!(read_time(TimeFormat::Second, "2025-01-28 25:00:00"), None);
}

#[test]
fn leap_second_keeps_its_nanoseconds() {
    assert_eq!(
        read_time(TimeFormat::Second, "2015-06-30 23:59:60"),
        Some(StockTime::DateTime(CalendarDateTime {
            date: date(2015, 6, 30),
            hour: 23,
            minute: 59,
            second: 59,
            nanosecond: 1_000_000_000,
        }))
    );
}

#[test]
fn read_time_agrees_with_chrono() {
    let days = ["2025-01-28", "1999-12-31", "2025-02-30", "0001-01-01", "+12345-06-07", "x"];
    for s in days {
        let expected = NaiveDate::parse_from_str(s, "%Y-%m-%d")
            .ok()
            .map(|d| StockTime::Date(date(d.year(), d.month(), d.day())));
        assert_eq!(read_time(TimeFormat::Day, s), expected, "{:?}", s);
    }
    let stamps = ["2025-01-28 14:55:00", "2025-01-28 14:55", "2025-01-28T14:55:00", ""];
    for s in stamps {
        let expected = NaiveDateTime::parse_from_str(s, "%Y-%m-%d %H:%M:%S").ok().map(|t| {
            StockTime::DateTime(CalendarDateTime {
                date: date(t.year(), t.month(), t.day()),
                hour: t.hour(),
                minute: t.minute(),
                second: t.second(),
                nanosecond: t.nanosecond(),
            })
        });
        assert_eq!(read_time(TimeFormat::Second, s), expected, "{:?}", s);
    }
}

#[test]
fn today_is_a_day_that_can_be_read() {
    let text = today();
    assert!(matches!(read_time(TimeFormat::Day, &text), Some(StockTime::Date(_))));
}

#[test]
fn today_is_written_as_year_month_and_day() {
    let text = today();
    let unsigned = text.trim_start_matches(['+', '-']);
    assert!(text.len() - unsigned.len() <= 1);
    let parts: Vec<&str> = unsigned.split('-').collect();
    assert_eq!(parts.len(), 3);
    assert!(parts[0].len() >= 4);
    assert_eq!(parts[1].len(), 2);
    assert_eq!(parts[2].len(), 2);
    for part in &parts {
        assert!(part.chars().all(|c| c.is_ascii_digit()));
    }
    let month: u32 = parts[1].parse().unwrap();
    let day: u32 = parts[2].parse().unwrap();
    assert!((1..=12).contains(&month));
    assert!((1..=31).contains(&day));
    assert_ne!(text, "%Y-%m-%d");
}
