//! Conversion of dates of the civil calendar into republican dates.
//!
//! The republican calendar was abandoned after its year 20. Dates after its
//! end are counted on as if it had gone on, the civil leap years included.

use vstd::prelude::*;
use crate::calendar::{date_of_yd, RepublicanDate};

verus! {

/// A date of the civil calendar, by year, month (from 1) and day (from 1).
#[derive(Clone, Copy, Debug, PartialEq, Eq, Structural)]
pub struct CivilDate {
    pub year: i32,
    pub month: u8,
    pub day: u8,
}

/// A moment of a day of the civil calendar, in universal time.
#[derive(Clone, Copy, Debug, PartialEq, Eq, Structural)]
pub struct Moment {
    pub date: CivilDate,
    pub hour: u8,
    pub minute: u8,
    pub second: u8,
}

/// The Julian day number of a civil date; none where year, month and day are
/// no date that the `time` crate can hold.
pub uninterp spec fn julian_day(year: int, month: int, day: int) -> Option<int>;

/// The civil year, and the day of that year from 1, of a Julian day number;
/// none where the day lies outside the dates that the `time` crate can hold.
pub uninterp spec fn year_and_ordinal(number: int) -> Option<(int, int)>;

/// Builds the date with `time::Month::try_from` and
/// `time::Date::from_calendar_date`, which refuse what is no date, and reads
/// its number with `time::Date::to_julian_day`. The contract only names the
/// result.
#[verifier::external_body]
fn to_julian_day(year: i32, month: u8, day: u8) -> (number: Option<i32>)
    ensures
        match number {
            Some(n) => julian_day(year as int, month as int, day as int) == Some(n as int),
            None => julian_day(year as int, month as int, day as int) is None,
        },
{
    let month = time::Month::try_from(month).ok()?;
    let date = time::Date::from_calendar_date(year, month, day).ok()?;
    Some(date.to_julian_day())
}

/// Builds the date with `time::Date::from_julian_day`, which refuses a day
/// out of its range, and reads `year()` and `ordinal()` from it. The
/// contract only names the result.
#[verifier::external_body]
fn from_julian_day(number: i32) -> (parts: Option<(i32, u16)>)
    ensures
        match parts {
            Some((year, ordinal)) => year_and_ordinal(number as int) == Some(
                (year as int, ordinal as int),
            ),
            None => year_and_ordinal(number as int) is None,
        },
{
    let date = time::Date::from_julian_day(number).ok()?;
    Some((date.year(), date.ordinal()))
}

/// The text with which a date before the calendar's end is refused.
pub open spec fn before_era_end() -> Seq<char> {
    "Can only convert date from after the official end of the calendar"@
}

/// The text with which a year, month and day that are no date are refused.
pub open spec fn not_a_date() -> Seq<char> {
    "Not a date of the civil calendar"@
}

/// The text with which a date too late to be counted is refused.
pub open spec fn too_late() -> Seq<char> {
    "Date is too far after the end of the calendar"@
}

/// The year by which the count is padded, so that it runs through leap
/// years of the civil calendar.
pub const PADDING: i32 = 2000;

/// The Julian day number on which the count for the day `value` lands, when
/// the calendar ended on day `era_end` and the count starts on day `start`:
/// as many days after `start` as `value` lies after `era_end`.
pub open spec fn landing_day(value: int, era_end: int, start: int) -> Result<int, Seq<char>> {
    if value < era_end {
        Err(before_era_end())
    } else if start + (value - era_end) > i32::MAX {
        Err(too_late())
    } else {
        Ok(start + (value - era_end))
    }
}

/// The republican date that falls on the `ordinal`-th day, from 1, of the
/// padded year `year`.
pub open spec fn date_in_padded_year(year: int, ordinal: int) -> Result<
    RepublicanDate,
    Seq<char>,
> {
    if year - PADDING < i32::MIN {
        Err(too_late())
    } else {
        date_of_yd(year - PADDING, ordinal - 1)
    }
}

/// The republican date of a civil date. The calendar ended on 23 September
/// 1811, and the count goes on from there as from 1 January of its year 20,
/// padded.
pub open spec fn republican_of(value: CivilDate) -> Result<RepublicanDate, Seq<char>> {
    match (
        julian_day(value.year as int, value.month as int, value.day as int),
        julian_day(1811, 9, 23),
        julian_day(20 + PADDING, 1, 1),
    ) {
        (Some(day), Some(era_end), Some(start)) => match landing_day(day, era_end, start) {
            Err(text) => Err(text),
            Ok(landing) => match year_and_ordinal(landing) {
                None => Err(too_late()),
                Some((year, ordinal)) => date_in_padded_year(year, ordinal),
            },
        },
        _ => Err(not_a_date()),
    }
}

/// Counts the days of `value` after `era_end` on from `start`.
pub fn count_on(value: i32, era_end: i32, start: i32) -> (landing: Result<i32, &'static str>)
    ensures
        match landing {
            Ok(day) => landing_day(value as int, era_end as int, start as int) == Ok::<
                int,
                Seq<char>,
            >(day as int),
            Err(text) => landing_day(value as int, era_end as int, start as int) == Err::<
                int,
                Seq<char>,
            >(text@),
        },
{
    if value < era_end {
        return Err("Can only convert date from after the official end of the calendar");
    }
    let elapsed: i64 = value as i64 - era_end as i64;
    let landing: i64 = start as i64 + elapsed;
    if landing > i32::MAX as i64 {
        Err("Date is too far after the end of the calendar")
    } else {
        Ok(landing as i32)
    }
}

impl RepublicanDate {
    /// The republican date that falls on the `ordinal`-th day, from 1, of
    /// the padded year `year`.
    pub fn in_padded_year(year: i32, ordinal: u16) -> (date: Result<RepublicanDate, &'static str>)
        ensures
            match date {
                Ok(found) => date_in_padded_year(year as int, ordinal as int) == Ok::<
                    RepublicanDate,
                    Seq<char>,
                >(found),
                Err(text) => date_in_padded_year(year as int, ordinal as int) == Err::<
                    RepublicanDate,
                    Seq<char>,
                >(text@),
            },
    {
        if year < i32::MIN + PADDING {
            return Err("Date is too far after the end of the calendar");
        }
        RepublicanDate::from_yd(year - PADDING, ordinal as i64 - 1)
    }

    /// Converts a date of the civil calendar.
    pub fn try_from(value: CivilDate) -> (date: Result<RepublicanDate, &'static str>)
        ensures
            match date {
                Ok(found) => republican_of(value) == Ok::<RepublicanDate, Seq<char>>(found),
                Err(text) => republican_of(value) == Err::<RepublicanDate, Seq<char>>(text@),
            },
    {
        let day = to_julian_day(value.year, value.month, value.day);
        let era_end = to_julian_day(1811, 9, 23);
        let start = to_julian_day(20 + PADDING, 1, 1);
        match (day, era_end, start) {
            (Some(day), Some(era_end), Some(start)) => match count_on(day, era_end, start) {
                Err(text) => Err(text),
                Ok(landing) => match from_julian_day(landing) {
                    None => Err("Date is too far after the end of the calendar"),
                    Some((year, ordinal)) => RepublicanDate::in_padded_year(year, ordinal),
                },
            },
            _ => Err("Not a date of the civil calendar"),
        }
    }
}

} // verus!
