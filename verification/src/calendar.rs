//! Calendar dates and the reporting window of a query.
//!
//! Calendar arithmetic and date formatting are chrono's. This module states
//! what it relies on and builds the window from it.

use vstd::prelude::*;
use chrono::Datelike;
use crate::event::text_of;

verus! {

/// A day of the proleptic Gregorian calendar, as year, month and day of month.
///
/// Nothing keeps the three numbers within a calendar: a value that names no
/// day has no text and no earlier day.
#[derive(Clone, Copy, Debug, PartialEq, Eq, Structural)]
pub struct CalendarDate {
    pub year: i32,
    pub month: u32,
    pub day: u32,
}

/// A span of days, each end written as `YYYY-MM-DD`.
#[derive(Clone, Debug, PartialEq, Eq)]
pub struct DateInterval {
    pub start: String,
    pub end: String,
}

/// What a [`DateInterval`] holds.
pub ghost struct DateIntervalView {
    pub start: Seq<char>,
    pub end: Seq<char>,
}

impl View for DateInterval {
    type V = DateIntervalView;

    open spec fn view(&self) -> DateIntervalView {
        DateIntervalView { start: self.start@, end: self.end@ }
    }
}

/// What an optional interval holds.
pub open spec fn interval_of(interval: Option<DateInterval>) -> Option<DateIntervalView> {
    match interval {
        Some(interval) => Some(interval@),
        None => None,
    }
}

/// Number of days that a reporting window reaches back from its last day.
pub const WINDOW_DAYS: u64 = 7;

/// The first year that chrono's dates reach.
pub const MIN_YEAR: i32 = -262143;

/// The last year that chrono's dates reach.
pub const MAX_YEAR: i32 = 262142;

/// Whether `year` has a 29th of February in the proleptic Gregorian calendar.
pub open spec fn is_leap_year(year: int) -> bool {
    year % 4 == 0 && (year % 100 != 0 || year % 400 == 0)
}

/// The number of days of `month` in `year`.
pub open spec fn days_in_month(year: int, month: int) -> int {
    if month == 2 {
        if is_leap_year(year) {
            29
        } else {
            28
        }
    } else if month == 4 || month == 6 || month == 9 || month == 11 {
        30
    } else {
        31
    }
}

/// Whether `date` names a day of the calendar, within the years that chrono
/// reaches.
pub open spec fn day_exists(date: CalendarDate) -> bool {
    &&& MIN_YEAR <= date.year <= MAX_YEAR
    &&& 1 <= date.month <= 12
    &&& 1 <= date.day <= days_in_month(date.year as int, date.month as int)
}

/// The day that lies `days` days before `date`, as chrono computes it; `None`
/// where `date` names no day or the earlier day is out of chrono's range.
pub uninterp spec fn date_days_before(date: CalendarDate, days: u64) -> Option<CalendarDate>;

/// The text that chrono writes for `date` under the pattern `%Y-%m-%d`; `None`
/// where `date` names no day.
pub uninterp spec fn date_text(date: CalendarDate) -> Option<Seq<char>>;

/// The character of a decimal digit.
pub open spec fn digit_char(digit: int) -> char {
    if digit == 0 {
        '0'
    } else if digit == 1 {
        '1'
    } else if digit == 2 {
        '2'
    } else if digit == 3 {
        '3'
    } else if digit == 4 {
        '4'
    } else if digit == 5 {
        '5'
    } else if digit == 6 {
        '6'
    } else if digit == 7 {
        '7'
    } else if digit == 8 {
        '8'
    } else {
        '9'
    }
}

/// `YYYY-MM-DD` with every part padded with zeros, for a year of at most four
/// digits.
pub open spec fn iso_text(date: CalendarDate) -> Seq<char> {
    let year = date.year as int;
    let month = date.month as int;
    let day = date.day as int;
    seq![
        digit_char(year / 1000),
        digit_char(year / 100 % 10),
        digit_char(year / 10 % 10),
        digit_char(year % 10),
        '-',
        digit_char(month / 10),
        digit_char(month % 10),
        '-',
        digit_char(day / 10),
        digit_char(day % 10),
    ]
}

/// The window that ends on `today` and starts `days` days earlier; `None`
/// where either end has no text.
pub open spec fn trailing_window(today: CalendarDate, days: u64) -> Option<DateIntervalView> {
    match date_days_before(today, days) {
        Some(first) => match (date_text(first), date_text(today)) {
            (Some(start), Some(end)) => Some(DateIntervalView { start, end }),
            _ => None,
        },
        None => None,
    }
}

/// The current day of the UTC clock: `std::time::SystemTime::now`, counted in
/// seconds from the Unix epoch and made a date by
/// `chrono::DateTime::from_timestamp` and `DateTime::date_naive`.
///
/// `None` where the clock stands before 1970 or beyond the days that chrono
/// reaches. Which day comes back is the clock's. Every day that does is one
/// that chrono made from a count of seconds that is not negative, so it
/// exists and lies in 1970 or later.
#[verifier::external_body]
fn utc_today() -> (today: Option<CalendarDate>)
    ensures
        today matches Some(day) ==> day_exists(day) && day.year >= 1970,
{
    let elapsed = std::time::SystemTime::now().duration_since(std::time::UNIX_EPOCH).ok()?;
    let seconds = i64::try_from(elapsed.as_secs()).ok()?;
    let today = chrono::DateTime::from_timestamp(seconds, elapsed.subsec_nanos())?.date_naive();
    Some(CalendarDate { year: today.year(), month: today.month(), day: today.day() })
}

/// `chrono::NaiveDate::checked_sub_days`, on the day that
/// `NaiveDate::from_ymd_opt` makes of `date`.
///
/// The earlier day is a function of `date` and `days` alone, named
/// [`date_days_before`]. chrono makes a day of `date` exactly where it
/// exists, and what it hands back is a day again. It finds the earlier day
/// wherever that lies within its years, which a step of at most 365 days from
/// a year after the first always does.
#[verifier::external_body]
fn days_before(date: CalendarDate, days: u64) -> (earlier: Option<CalendarDate>)
    ensures
        earlier == date_days_before(date, days),
        earlier is Some ==> day_exists(date),
        earlier matches Some(first) ==> day_exists(first),
        day_exists(date) && date.year > MIN_YEAR && days <= 365 ==> earlier is Some,
{
    let day = chrono::NaiveDate::from_ymd_opt(date.year, date.month, date.day)?;
    let earlier = day.checked_sub_days(chrono::Days::new(days))?;
    Some(CalendarDate { year: earlier.year(), month: earlier.month(), day: earlier.day() })
}

/// `chrono::NaiveDate::format` with the pattern `%Y-%m-%d`, on the day that
/// `NaiveDate::from_ymd_opt` makes of `date`.
///
/// The text is a function of `date` alone, named [`date_text`]; there is one
/// exactly where `date` exists. For a year from 0 to 9999 chrono pads the
/// year to four digits and the month and the day to two, without a sign,
/// which [`iso_text`] spells out.
#[verifier::external_body]
fn format_date(date: CalendarDate) -> (text: Option<String>)
    ensures
        text_of(text) == date_text(date),
        text is Some <==> day_exists(date),
        text matches Some(written) ==> (0 <= date.year <= 9999 ==> written@ == iso_text(date)),
{
    let day = chrono::NaiveDate::from_ymd_opt(date.year, date.month, date.day)?;
    Some(day.format("%Y-%m-%d").to_string())
}

/// The span from `first` to `last`, each written as `YYYY-MM-DD`; `None`
/// where either names no day.
pub fn window_between(first: CalendarDate, last: CalendarDate) -> (window: Option<DateInterval>)
    ensures
        interval_of(window) == match (date_text(first), date_text(last)) {
            (Some(start), Some(end)) => Some(DateIntervalView { start, end }),
            _ => None,
        },
        window is Some <==> day_exists(first) && day_exists(last),
        window matches Some(interval) ==> (0 <= first.year <= 9999 ==> interval.start@ == iso_text(first)),
        window matches Some(interval) ==> (0 <= last.year <= 9999 ==> interval.end@ == iso_text(last)),
{
    let start = match format_date(first) {
        Some(start) => start,
        None => { return None; },
    };
    match format_date(last) {
        Some(end) => Some(DateInterval { start, end }),
        None => None,
    }
}

/// The reporting window that ends on `today`: the [`WINDOW_DAYS`] days before
/// it and `today` itself.
///
/// There is a window for every day that exists, but for those of the first
/// year that chrono reaches.
pub fn time_window(today: CalendarDate) -> (window: Option<DateInterval>)
    ensures
        interval_of(window) == trailing_window(today, WINDOW_DAYS),
        day_exists(today) && today.year > MIN_YEAR ==> window is Some,
        window is Some ==> day_exists(today),
        window matches Some(interval) ==> (0 <= today.year <= 9999 ==> interval.end@ == iso_text(today)),
        window matches Some(interval) ==> date_days_before(today, WINDOW_DAYS) matches Some(first)
            && day_exists(first) && (0 <= first.year <= 9999 ==> interval.start@ == iso_text(first)),
{
    match days_before(today, WINDOW_DAYS) {
        Some(first) => window_between(first, today),
        None => None,
    }
}

/// Whether `interval` is the reporting window of a day that the clock can
/// show: one that exists, in 1970 or later.
pub open spec fn is_window_of_clock_day(interval: DateIntervalView, today: CalendarDate) -> bool {
    &&& day_exists(today)
    &&& today.year >= 1970
    &&& trailing_window(today, WINDOW_DAYS) == Some(interval)
    &&& today.year <= 9999 ==> interval.end == iso_text(today)
    &&& date_days_before(today, WINDOW_DAYS) matches Some(first) && day_exists(first) && (0
        <= first.year <= 9999 ==> interval.start == iso_text(first))
}

/// The reporting window that ends on the current day of the UTC clock;
/// `None` where the clock shows no day.
///
/// Which day the clock shows is its own affair. Whatever day it is, the
/// window is the one that [`time_window`] gives for it, and there is one.
pub fn current_time_window() -> (window: Option<DateInterval>)
    ensures
        window matches Some(interval) ==> exists|today: CalendarDate| #[trigger]
            is_window_of_clock_day(interval@, today),
{
    match utc_today() {
        Some(today) => {
            let window = time_window(today);
            assert(window matches Some(interval) && is_window_of_clock_day(interval@, today));
            window
        },
        None => None,
    }
}

} // verus!
