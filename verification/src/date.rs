//! Calendar dates of the proleptic Gregorian calendar, the count of days
//! between them, and their text in the form `YYYY-MM-DD`. The arithmetic of
//! the calendar and the formatting are done by `chrono`.

use vstd::prelude::*;
use chrono::Datelike;
use crate::text::padded;

verus! {

/// The first year that a date can have.
pub const MIN_YEAR: i32 = -262143;

/// The last year that a date can have.
pub const MAX_YEAR: i32 = 262142;

/// A calendar date: year, month and day of the month.
#[derive(Clone, Copy, Debug, PartialEq, Eq, Structural)]
pub struct Date {
    pub year: i32,
    pub month: u32,
    pub day: u32,
}

/// Whether the year has a 29 February.
pub open spec fn is_leap_year(year: int) -> bool {
    year % 4 == 0 && (year % 100 != 0 || year % 400 == 0)
}

/// The number of days of a month.
pub open spec fn days_in_month(year: int, month: int) -> int {
    if month == 2 {
        if is_leap_year(year) {
            29
        } else {
            28
        }
    } else if month == 4 || month == 6 || month == 9 || month == 11 {
        30
    } else {
        31
    }
}

/// The days of the year that precede the first of the month.
pub open spec fn days_before_month(year: int, month: int) -> int
    decreases month,
{
    if month <= 1 {
        0
    } else {
        days_before_month(year, month - 1) + days_in_month(year, month - 1)
    }
}

/// The days from 1 January of the year 1 up to, and without, 1 January of
/// the given year; negative for the years before.
pub open spec fn days_before_year(year: int) -> int {
    let past = year - 1;
    365 * past + past / 4 - past / 100 + past / 400
}

/// The text of a year: four digits for the years 0 to 9999; for the others
/// a sign and at least four digits.
pub open spec fn year_text(year: int) -> Seq<char> {
    if 0 <= year <= 9999 {
        padded(year as nat, 4)
    } else if year < 0 {
        seq!['-'] + padded((-year) as nat, 4)
    } else {
        seq!['+'] + padded(year as nat, 4)
    }
}

/// The number of days of a month.
pub fn month_length(year: i32, month: u32) -> (length: u32)
    ensures
        length == days_in_month(year as int, month as int),
{
    // Shifted by a multiple of 400 years, so that no year is negative.
    let shifted: i64 = year as i64 + 2147484000;
    let leap = shifted % 4 == 0 && (shifted % 100 != 0 || shifted % 400 == 0);
    assert(leap == is_leap_year(year as int));
    if month == 2 {
        if leap {
            29
        } else {
            28
        }
    } else if month == 4 || month == 6 || month == 9 || month == 11 {
        30
    } else {
        31
    }
}

impl Date {
    /// The date exists in the calendar and its year is within the limits.
    pub open spec fn is_valid(self) -> bool {
        &&& MIN_YEAR <= self.year <= MAX_YEAR
        &&& 1 <= self.month <= 12
        &&& 1 <= self.day <= days_in_month(self.year as int, self.month as int)
    }

    /// The number of the day, where 1 January of the year 1 is day 1.
    pub open spec fn number(self) -> int {
        days_before_year(self.year as int) + days_before_month(
            self.year as int,
            self.month as int,
        ) + self.day
    }

    /// The text of the date in the form `YYYY-MM-DD`.
    pub open spec fn iso_text(self) -> Seq<char> {
        year_text(self.year as int) + seq!['-'] + padded(self.month as nat, 2) + seq!['-']
            + padded(self.day as nat, 2)
    }

    /// Whether the date exists in the calendar, with a year within the
    /// limits.
    pub fn check(&self) -> (valid: bool)
        ensures
            valid == self.is_valid(),
    {
        if self.year < MIN_YEAR || self.year > MAX_YEAR || self.month < 1 || self.month > 12
            || self.day < 1 {
            return false;
        }
        self.day <= month_length(self.year, self.month)
    }

    /// The number of the day, where 1 January of the year 1 is day 1.
    pub fn day_number(&self) -> (n: i64)
        requires
            self.is_valid(),
        ensures
            n == self.number(),
    {
        // Shifted by a multiple of 400 years, so that every division is one
        // of numbers that are not negative.
        let past: i64 = self.year as i64 - 1 + 262400;
        let before_year: i64 = 365 * (past - 262400) + (past / 4 - 65600) - (past / 100 - 2624) + (
        past / 400 - 656);
        let mut before_month: i64 = 0;
        let mut month: u32 = 1;
        while month < self.month
            invariant
                1 <= month <= self.month <= 12,
                before_month == days_before_month(self.year as int, month as int),
                0 <= before_month <= 31 * (month - 1),
            decreases self.month - month,
        {
            before_month = before_month + month_length(self.year, month) as i64;
            month = month + 1;
        }
        before_year + before_month + self.day as i64
    }

    /// The date of the given year, month and day, where there is one.
    pub fn new(year: i32, month: u32, day: u32) -> (r: Option<Date>)
        ensures
            r is Some <==> (Date { year, month, day }).is_valid(),
            r matches Some(date) ==> date == (Date { year, month, day }),
    {
        let date = Date { year, month, day };
        if date.check() {
            Some(date)
        } else {
            None
        }
    }
}

/// The number of the first day that a date can be.
pub open spec fn first_day_number() -> int {
    (Date { year: MIN_YEAR, month: 1, day: 1 }).number()
}

/// No date lies before the first one.
pub proof fn lemma_number_lower_bound(date: Date)
    requires
        date.is_valid(),
    ensures
        date.number() >= first_day_number(),
{
    lemma_days_before_month_bounds(date.year as int, date.month as int);
    assert(days_before_month(MIN_YEAR as int, 1) == 0);
}

/// The days before a month are at least none and at most 31 for each month
/// that precedes it.
pub proof fn lemma_days_before_month_bounds(year: int, month: int)
    requires
        1 <= month <= 13,
    ensures
        0 <= days_before_month(year, month) <= 31 * (month - 1),
    decreases month,
{
    if month > 1 {
        lemma_days_before_month_bounds(year, month - 1);
    }
}

/// A year has 365 days, and one more where it is a leap year.
pub proof fn lemma_year_length(year: int)
    ensures
        days_before_year(year + 1) == days_before_year(year) + days_before_month(year, 13),
        days_before_month(year, 13) == if is_leap_year(year) {
            366int
        } else {
            365int
        },
{
    assert(days_before_month(year, 13) == if is_leap_year(year) {
        366int
    } else {
        365int
    }) by {
        reveal_with_fuel(days_before_month, 14);
    }
}

/// The later the year, the more days precede it.
pub proof fn lemma_days_before_year_grows(earlier: int, later: int)
    requires
        earlier <= later,
    ensures
        days_before_year(earlier) <= days_before_year(later),
{
}

/// The later the month, the more days of the year precede it: at least
/// those that precede an earlier month, and the days of that month.
pub proof fn lemma_days_before_month_grows(year: int, earlier: int, later: int)
    requires
        1 <= earlier < later <= 13,
    ensures
        days_before_month(year, earlier) + days_in_month(year, earlier) <= days_before_month(
            year,
            later,
        ),
    decreases later,
{
    if earlier + 1 < later {
        lemma_days_before_month_grows(year, earlier, later - 1);
    }
}

/// A date comes before another exactly where its day number is smaller: the
/// day numbers order the dates as year, month and day do.
pub proof fn lemma_number_orders_dates(a: Date, b: Date)
    requires
        a.is_valid(),
        b.is_valid(),
    ensures
        a.number() < b.number() <==> (a.year < b.year || (a.year == b.year && (a.month < b.month
            || (a.month == b.month && a.day < b.day)))),
        a.number() == b.number() <==> a == b,
{
    lemma_number_step(a, b);
    lemma_number_step(b, a);
}

/// A date that precedes another by year, month and day has the smaller day
/// number.
proof fn lemma_number_step(a: Date, b: Date)
    requires
        a.is_valid(),
        b.is_valid(),
    ensures
        (a.year < b.year || (a.year == b.year && (a.month < b.month || (a.month == b.month
            && a.day < b.day)))) ==> a.number() < b.number(),
{
    if a.year < b.year {
        lemma_year_length(a.year as int);
        lemma_days_before_year_grows(a.year + 1, b.year as int);
        lemma_days_before_month_bounds(b.year as int, b.month as int);
        if a.month < 12 {
            lemma_days_before_month_grows(a.year as int, a.month as int, 13);
        } else {
            lemma_days_before_month_grows(a.year as int, 12, 13);
        }
    } else if a.year == b.year && a.month < b.month {
        lemma_days_before_month_grows(a.year as int, a.month as int, b.month as int);
    }
}

/// The first year in which the local date of this moment can lie.
pub const FIRST_CLOCK_YEAR: i32 = 1969;

/// Trusted: the local date of this moment, from `chrono::Local::now` and
/// `DateTime::date_naive`. It depends on the clock and the time zone, so
/// the contract says only what holds of every date that comes back: it is
/// a date of the calendar, and not before 1969. `Utc::now` does not return
/// where the clock stands before 1 January 1970, and the local time differs
/// from it by less than a day.
#[verifier::external_body]
pub(crate) fn local_today() -> (today: Date)
    ensures
        today.is_valid(),
        today.year >= FIRST_CLOCK_YEAR,
{
    let d = chrono::Local::now().date_naive();
    Date { year: d.year(), month: d.month(), day: d.day() }
}

/// A week before any date that the clock can give, there is a date.
pub proof fn lemma_clock_date_has_window(today: Date)
    requires
        today.is_valid(),
        today.year >= FIRST_CLOCK_YEAR,
    ensures
        today.number() - 7 >= first_day_number(),
{
    lemma_days_before_year_grows(MIN_YEAR + 1, today.year as int);
    lemma_year_length(MIN_YEAR as int);
    lemma_days_before_month_bounds(today.year as int, today.month as int);
    assert(days_before_month(MIN_YEAR as int, 1) == 0);
}

/// Trusted: `chrono::NaiveDate::checked_sub_days`, from and to year, month
/// and day. The result is the date that many days earlier in the proleptic
/// Gregorian calendar, and `None` where that date would lie before the
/// first one.
#[verifier::external_body]
pub(crate) fn checked_sub_days(date: Date, days: u64) -> (r: Option<Date>)
    requires
        date.is_valid(),
    ensures
        match r {
            Some(earlier) => earlier.is_valid() && earlier.number() == date.number() - days,
            None => date.number() - days < first_day_number(),
        },
{
    chrono::NaiveDate::from_ymd_opt(date.year, date.month, date.day).and_then(
        |d| d.checked_sub_days(chrono::Days::new(days)),
    ).map(|d| Date { year: d.year(), month: d.month(), day: d.day() })
}

/// Trusted: `chrono::NaiveDate::format` with the items `%Y-%m-%d`, written
/// to a string. The year is written with four digits, or with a sign and at
/// least four digits outside 0 to 9999; month and day with two digits.
#[verifier::external_body]
pub(crate) fn format_ymd(date: Date) -> (text: String)
    requires
        date.is_valid(),
    ensures
        text@ == date.iso_text(),
{
    chrono::NaiveDate::from_ymd_opt(date.year, date.month, date.day).map(
        |d| d.format("%Y-%m-%d").to_string(),
    ).unwrap_or_default()
}

} // verus!
