//! Calendar dates, as far as election days need them.

use vstd::prelude::*;
use chrono::Datelike;

verus! {

/// A date of the proleptic Gregorian calendar.
#[derive(Clone, Copy, Debug, PartialEq, Eq, Structural)]
pub struct CalendarDate {
    pub year: i32,
    pub month: u32,
    pub day: u32,
}

/// A day of the week.
#[derive(Clone, Copy, Debug, PartialEq, Eq, Structural)]
pub enum DayOfWeek {
    Mon,
    Tue,
    Wed,
    Thu,
    Fri,
    Sat,
    Sun,
}

/// The date of the `n`-th `weekday` of a month, as
/// `chrono::NaiveDate::from_weekday_of_month_opt` gives it; nothing where it
/// gives none.
pub uninterp spec fn nth_weekday(year: int, month: int, weekday: DayOfWeek, n: int) -> Option<
    CalendarDate,
>;

/// The date `days` days after `date`, as `chrono::NaiveDate::checked_add_days`
/// gives it; nothing where `date` is no date or the result is out of range.
pub uninterp spec fn days_after(date: CalendarDate, days: int) -> Option<CalendarDate>;

/// `chrono::NaiveDate::from_weekday_of_month_opt`. Not proved: that the
/// outcome is a function of the arguments, which `nth_weekday` names, and that
/// a date it gives lies in the month asked for, within the `n`-th run of seven
/// days of it.
#[verifier::external_body]
fn nth_weekday_of_month(year: i32, month: u32, weekday: DayOfWeek, n: u8) -> (r: Option<
    CalendarDate,
>)
    ensures
        r == nth_weekday(year as int, month as int, weekday, n as int),
        r is Some ==> r->0.year == year && r->0.month == month && 7 * (n - 1) < r->0.day <= 7 * n,
{
    let weekday = match weekday {
        DayOfWeek::Mon => chrono::Weekday::Mon,
        DayOfWeek::Tue => chrono::Weekday::Tue,
        DayOfWeek::Wed => chrono::Weekday::Wed,
        DayOfWeek::Thu => chrono::Weekday::Thu,
        DayOfWeek::Fri => chrono::Weekday::Fri,
        DayOfWeek::Sat => chrono::Weekday::Sat,
        DayOfWeek::Sun => chrono::Weekday::Sun,
    };
    chrono::NaiveDate::from_weekday_of_month_opt(year, month, weekday, n).map(
        |d| CalendarDate { year: d.year(), month: d.month(), day: d.day() },
    )
}

/// `chrono::NaiveDate::checked_add_days`, on the date that
/// `NaiveDate::from_ymd_opt` makes of `date`. Not proved: that the outcome is
/// a function of the arguments, which `days_after` names, and that a result
/// whose day of the month stays within 28, the length of the shortest month,
/// lies in the same month that many days on.
#[verifier::external_body]
fn add_days(date: CalendarDate, days: u64) -> (r: Option<CalendarDate>)
    ensures
        r == days_after(date, days as int),
        r is Some && date.day + days <= 28 ==> r->0.year == date.year && r->0.month == date.month
            && r->0.day == date.day + days,
{
    chrono::NaiveDate::from_ymd_opt(date.year, date.month, date.day)?.checked_add_days(
        chrono::Days::new(days),
    ).map(|d| CalendarDate { year: d.year(), month: d.month(), day: d.day() })
}

/// No election day could be determined for this year.
#[derive(Clone, Copy, Debug, PartialEq, Eq, Structural)]
pub struct NoElectionDate {
    pub year: u16,
}

/// The day of the general election, given the first Monday of November and
/// the day after it: that day after, or the error where either is missing.
pub open spec fn election_day(
    year: u16,
    first_monday: Option<CalendarDate>,
    next_day: Option<CalendarDate>,
) -> Result<CalendarDate, NoElectionDate> {
    match (first_monday, next_day) {
        (Some(_), Some(d)) => Ok(d),
        _ => Err(NoElectionDate { year }),
    }
}

/// The day after the first Monday of November, as far as the calendar gives
/// both.
pub open spec fn general_election_date(year: u16) -> Result<CalendarDate, NoElectionDate> {
    let first_monday = nth_weekday(year as int, 11, DayOfWeek::Mon, 1);
    election_day(
        year,
        first_monday,
        match first_monday {
            Some(m) => days_after(m, 1),
            None => None,
        },
    )
}

/// The day of the general election of `year`: the Tuesday after the first
/// Monday of November.
pub fn generate_general_election_date(year: u16) -> (r: Result<CalendarDate, NoElectionDate>)
    ensures
        r == general_election_date(year),
        r is Ok ==> r->Ok_0.year == year && r->Ok_0.month == 11 && 2 <= r->Ok_0.day <= 8,
{
    match nth_weekday_of_month(year as i32, 11, DayOfWeek::Mon, 1) {
        Some(first_monday) => match add_days(first_monday, 1) {
            Some(next_tuesday) => Ok(next_tuesday),
            None => Err(NoElectionDate { year }),
        },
        None => Err(NoElectionDate { year }),
    }
}

} // verus!
