use chrono::Datelike;
use gdacs_filter::date::{month_length, Date, MAX_YEAR, MIN_YEAR};
use gdacs_filter::window::{
    current_search_url, lookback_window, search_url, search_url_for, Window, LOOKBACK_DAYS,
};

fn date(year: i32, month: u32, day: u32) -> Date {
    Date { year, month, day }
}

#[test]
fn dates_that_exist() {
    assert_eq!(Date::new(2024, 2, 29), Some(date(2024, 2, 29)));
    assert_eq!(Date::new(2023, 2, 29), None);
    assert_eq!(Date::new(1900, 2, 29), None);
    assert_eq!(Date::new(2000, 2, 29), Some(date(2000, 2, 29)));
    assert_eq!(Date::new(2024, 4, 31), None);
    assert_eq!(Date::new(2024, 12, 31), Some(date(2024, 12, 31)));
    assert_eq!(Date::new(2024, 0, 1), None);
    assert_eq!(Date::new(2024, 13, 1), None);
    assert_eq!(Date::new(2024, 1, 0), None);
    assert_eq!(Date::new(2024, 1, 32), None);
    assert_eq!(Date::new(-4, 2, 29), Some(date(-4, 2, 29)));
    assert_eq!(Date::new(0, 2, 29), Some(date(0, 2, 29)));
    assert_eq!(Date::new(-1, 2, 29), None);
    assert_eq!(Date::new(MIN_YEAR, 1, 1), Some(date(MIN_YEAR, 1, 1)));
    assert_eq!(Date::new(MAX_YEAR, 12, 31), Some(date(MAX_YEAR, 12, 31)));
    assert_eq!(Date::new(MIN_YEAR - 1, 12, 31), None);
    assert_eq!(Date::new(MAX_YEAR + 1, 1, 1), None);
    assert!(date(2024, 5, 1).check());
    assert!(!date(2024, 5, 32).check());
}

#[test]
fn year_limits_are_those_of_the_calendar_library() {
    assert_eq!(chrono::NaiveDate::MIN.year(), MIN_YEAR);
    assert_eq!(chrono::NaiveDate::MAX.year(), MAX_YEAR);
}

#[test]
fn validity_agrees_with_the_calendar_library() {
    for year in [-262143, -401, -400, -100, -4, -1, 0, 1, 4, 100, 400, 1900, 2000, 2023, 2024, 262142] {
        for month in 0..=13u32 {
            for day in 0..=32u32 {
                let expected = chrono::NaiveDate::from_ymd_opt(year, month, day).is_some();
                assert_eq!(date(year, month, day).check(), expected, "{year}-{month}-{day}");
            }
        }
    }
}

#[test]
fn month_lengths() {
    assert_eq!(month_length(2024, 2), 29);
    assert_eq!(month_length(2023, 2), 28);
    assert_eq!(month_length(2100, 2), 28);
    assert_eq!(month_length(2000, 2), 29);
    assert_eq!(month_length(-400, 2), 29);
    assert_eq!(month_length(-100, 2), 28);
    assert_eq!(month_length(2024, 4), 30);
    assert_eq!(month_length(2024, 1), 31);
    assert_eq!(month_length(2024, 12), 31);
}

#[test]
fn day_numbers() {
    assert_eq!(date(1, 1, 1).day_number(), 1);
    assert_eq!(date(1, 12, 31).day_number(), 365);
    assert_eq!(date(2, 1, 1).day_number(), 366);
    assert_eq!(date(0, 12, 31).day_number(), 0);
    assert_eq!(date(1970, 1, 1).day_number(), 719163);
    assert_eq!(date(2024, 5, 1).day_number(), 739007);
}

#[test]
fn day_numbers_agree_with_the_calendar_library() {
    for year in [-262143, -401, -400, -399, -100, -5, -4, -1, 0, 1, 3, 4, 5, 100, 400, 1899, 1900, 1999, 2000, 2023, 2024, 9999, 262142] {
        for month in 1..=12u32 {
            for day in [1u32, 2, 15, 28, 29, 30, 31] {
                if let Some(d) = chrono::NaiveDate::from_ymd_opt(year, month, day) {
                    assert_eq!(
                        date(year, month, day).day_number(),
                        i64::from(d.num_days_from_ce()),
                        "{year}-{month}-{day}"
                    );
                }
            }
        }
    }
}

#[test]
fn window_reaches_seven_days_back() {
    assert_eq!(LOOKBACK_DAYS, 7);
    let w = lookback_window(date(2024, 5, 8)).unwrap();
    assert_eq!(w, Window { from: date(2024, 5, 1), to: date(2024, 5, 8) });
    let w = lookback_window(date(2024, 5, 3)).unwrap();
    assert_eq!(w, Window { from: date(2024, 4, 26), to: date(2024, 5, 3) });
    let w = lookback_window(date(2024, 3, 5)).unwrap();
    assert_eq!(w, Window { from: date(2024, 2, 27), to: date(2024, 3, 5) });
    let w = lookback_window(date(2023, 3, 5)).unwrap();
    assert_eq!(w, Window { from: date(2023, 2, 26), to: date(2023, 3, 5) });
    let w = lookback_window(date(2024, 1, 3)).unwrap();
    assert_eq!(w, Window { from: date(2023, 12, 27), to: date(2024, 1, 3) });
    let w = lookback_window(date(1900, 3, 1)).unwrap();
    assert_eq!(w, Window { from: date(1900, 2, 22), to: date(1900, 3, 1) });
}

#[test]
fn window_days_differ_by_seven_in_day_number() {
    for (y, m, d) in [(2024, 1, 1), (2024, 3, 1), (2023, 3, 1), (2000, 3, 7), (1, 1, 8), (0, 1, 1), (-1, 1, 3), (9999, 12, 31)] {
        let w = lookback_window(date(y, m, d)).unwrap();
        assert_eq!(w.to, date(y, m, d));
        assert!(w.from.check());
        assert_eq!(w.from.day_number(), w.to.day_number() - 7);
    }
}

#[test]
fn no_window_for_a_day_that_does_not_exist() {
    assert_eq!(lookback_window(date(2023, 2, 29)), None);
    assert_eq!(lookback_window(date(2024, 13, 1)), None);
    assert_eq!(lookback_window(date(2024, 0, 0)), None);
    assert_eq!(search_url_for(date(2023, 2, 30)), None);
}

#[test]
fn no_window_before_the_first_date() {
    assert_eq!(lookback_window(date(MIN_YEAR, 1, 1)), None);
    assert_eq!(lookback_window(date(MIN_YEAR, 1, 7)), None);
    assert_eq!(
        lookback_window(date(MIN_YEAR, 1, 8)),
        Some(Window { from: date(MIN_YEAR, 1, 1), to: date(MIN_YEAR, 1, 8) })
    );
    assert!(lookback_window(date(MAX_YEAR, 12, 31)).is_some());
}

#[test]
fn search_url_for_a_day() {
    assert_eq!(
        search_url_for(date(2024, 5, 1)).unwrap(),
        "https://www.gdacs.org/gdacsapi/api/events/geteventlist/SEARCH?fromDate=2024-04-24&toDate=2024-05-01&alertlevel=orange;red&eventlist=&country="
    );
    assert_eq!(
        search_url_for(date(2024, 1, 3)).unwrap(),
        "https://www.gdacs.org/gdacsapi/api/events/geteventlist/SEARCH?fromDate=2023-12-27&toDate=2024-01-03&alertlevel=orange;red&eventlist=&country="
    );
    let window = Window { from: date(2024, 2, 27), to: date(2024, 3, 5) };
    assert_eq!(
        search_url(&window),
        "https://www.gdacs.org/gdacsapi/api/events/geteventlist/SEARCH?fromDate=2024-02-27&toDate=2024-03-05&alertlevel=orange;red&eventlist=&country="
    );
}

#[test]
fn years_of_other_lengths_in_the_url() {
    let url = search_url_for(date(5, 1, 3)).unwrap();
    assert!(url.contains("?fromDate=0004-12-27&toDate=0005-01-03&"), "{url}");
    let url = search_url_for(date(10000, 1, 3)).unwrap();
    assert!(url.contains("?fromDate=9999-12-27&toDate=+10000-01-03&"), "{url}");
    let url = search_url_for(date(0, 1, 3)).unwrap();
    assert!(url.contains("?fromDate=-0001-12-27&toDate=0000-01-03&"), "{url}");
    let url = search_url_for(date(-12345, 6, 30)).unwrap();
    assert!(url.contains("?fromDate=-12345-06-23&toDate=-12345-06-30&"), "{url}");
    let url = search_url_for(date(123456, 6, 30)).unwrap();
    assert!(url.contains("?fromDate=+123456-06-23&toDate=+123456-06-30&"), "{url}");
}

#[test]
fn current_url_has_the_form() {
    let url = current_search_url().unwrap();
    let prefix = "https://www.gdacs.org/gdacsapi/api/events/geteventlist/SEARCH?fromDate=";
    let suffix = "&alertlevel=orange;red&eventlist=&country=";
    assert!(url.starts_with(prefix));
    assert!(url.ends_with(suffix));
    let middle = &url[prefix.len()..url.len() - suffix.len()];
    let parts: Vec<&str> = middle.split("&toDate=").collect();
    assert_eq!(parts.len(), 2);
    let from = chrono::NaiveDate::parse_from_str(parts[0], "%Y-%m-%d").unwrap();
    let to = chrono::NaiveDate::parse_from_str(parts[1], "%Y-%m-%d").unwrap();
    assert_eq!((to - from).num_days(), 7);
    assert_eq!(parts[0].len(), 10);
    assert_eq!(parts[1].len(), 10);
}

#[test]
fn current_url_is_always_there_and_the_same_within_a_day() {
    let first = current_search_url();
    let second = current_search_url();
    assert!(first.is_some());
    assert!(second.is_some());
    // Two readings of the clock may fall on two days only around midnight.
    let third = current_search_url();
    assert!(first == second || second == third);
}

#[test]
fn address_depends_on_the_day_alone() {
    let day = date(2024, 5, 1);
    assert_eq!(search_url_for(day), search_url_for(day));
    assert_ne!(search_url_for(day), search_url_for(date(2024, 5, 2)));
    let today = chrono::Local::now().date_naive();
    let today = date(today.year(), today.month(), today.day());
    let before = current_search_url();
    let expected = search_url_for(today);
    let after = current_search_url();
    assert!(before == expected || after == expected);
}

#[test]
fn clock_dates_have_a_window() {
    assert!(lookback_window(date(1969, 12, 31)).is_some());
    assert_eq!(
        lookback_window(date(1970, 1, 1)),
        Some(Window { from: date(1969, 12, 25), to: date(1970, 1, 1) })
    );
}
