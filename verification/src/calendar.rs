//! Calendar dates.
//!
//! A [`Date`] is a day of the proleptic Gregorian calendar, held as year,
//! month and day. Whether a triple names a day, and what a text spells, is
//! asked of `chrono`.

use chrono::Datelike;
use chrono::NaiveDate;
use vstd::prelude::*;

verus! {

/// The first year that a date can lie in.
pub const MIN_YEAR: i32 = -262_143;

/// The last year that a date can lie in.
pub const MAX_YEAR: i32 = 262_142;

/// Whether `year` has a 29th of February.
pub open spec fn is_leap_year(year: int) -> bool {
    year % 4 == 0 && (year % 100 != 0 || year % 400 == 0)
}

/// The number of days of `month` in `year`, for a month from 1 to 12.
pub open spec fn days_in_month(year: int, month: int) -> int {
    if month == 2 {
        if is_leap_year(year) {
            29
        } else {
            28
        }
    } else if month == 4 || month == 6 || month == 9 || month == 11 {
        30
    } else {
        31
    }
}

/// Whether year, month and day name a day of the calendar.
pub open spec fn is_calendar_date(year: int, month: int, day: int) -> bool {
    &&& MIN_YEAR <= year <= MAX_YEAR
    &&& 1 <= month <= 12
    &&& 1 <= day <= days_in_month(year, month)
}

/// What a [`Date`] stands for.
pub struct Ymd {
    pub year: i32,
    pub month: u32,
    pub day: u32,
}

impl Ymd {
    /// Whether the three numbers name a day of the calendar.
    pub open spec fn is_valid(self) -> bool {
        is_calendar_date(self.year as int, self.month as int, self.day as int)
    }

    /// The month that the day lies in, as year and month.
    pub open spec fn month_key(self) -> (i32, u32) {
        (self.year, self.month)
    }
}

/// A day of the calendar.
#[derive(Debug, Clone, Copy, PartialEq, Eq)]
pub struct Date {
    year: i32,
    month: u32,
    day: u32,
}

impl View for Date {
    type V = Ymd;

    closed spec fn view(&self) -> Ymd {
        Ymd { year: self.year, month: self.month, day: self.day }
    }
}

/// What `NaiveDate::from_str` makes of a text: the year, month and day of
/// the date it spells, or `None` where it spells none.
pub uninterp spec fn parsed_date(text: Seq<char>) -> Option<(i32, u32, u32)>;

/// `chrono::NaiveDate::from_ymd_opt`, with the date taken apart again by
/// `Datelike::year`, `month` and `day`.
///
/// The constructor answers `Some` exactly for the days of the proleptic
/// Gregorian calendar between the first day of `MIN_YEAR` and the last day
/// of `MAX_YEAR`, and the date it answers with has the year, month and day
/// that it was given.
#[verifier::external_body]
fn naive_date_from_ymd(year: i32, month: u32, day: u32) -> (r: Option<(i32, u32, u32)>)
    ensures
        r == if is_calendar_date(year as int, month as int, day as int) {
            Some((year, month, day))
        } else {
            None
        },
{
    match NaiveDate::from_ymd_opt(year, month, day) {
        Some(date) => Some((date.year(), date.month(), date.day())),
        None => None,
    }
}

/// `<chrono::NaiveDate as FromStr>::from_str`, with the date taken apart by
/// `Datelike::year`, `month` and `day`.
///
/// What the parser accepts is left to it, under the name [`parsed_date`].
/// Claimed here: the answer depends on the text alone, and a date that comes
/// back is a day of the calendar, as every `NaiveDate` is.
#[verifier::external_body]
fn naive_date_from_str(text: &str) -> (r: Option<(i32, u32, u32)>)
    ensures
        r == parsed_date(text@),
        r matches Some(ymd) ==> is_calendar_date(ymd.0 as int, ymd.1 as int, ymd.2 as int),
{
    match text.parse::<NaiveDate>() {
        Ok(date) => Some((date.year(), date.month(), date.day())),
        Err(_) => None,
    }
}

impl Date {
    /// Every date is a day of the calendar.
    #[verifier::type_invariant]
    pub open spec fn is_valid(self) -> bool {
        self@.is_valid()
    }

    /// The date with the given year, month and day, or `None` where the
    /// calendar has no such day.
    pub fn from_ymd_opt(year: i32, month: u32, day: u32) -> (r: Option<Date>)
        ensures
            match r {
                Some(date) => is_calendar_date(year as int, month as int, day as int) && date@ == (
                Ymd { year, month, day }),
                None => !is_calendar_date(year as int, month as int, day as int),
            },
    {
        match naive_date_from_ymd(year, month, day) {
            Some((y, m, d)) => Some(Date { year: y, month: m, day: d }),
            None => None,
        }
    }

    /// The date that `text` spells, or `None` where it spells none.
    pub fn parse(text: &str) -> (r: Option<Date>)
        ensures
            match r {
                Some(date) => parsed_date(text@) == Some((date@.year, date@.month, date@.day))
                    && date@.is_valid(),
                None => parsed_date(text@) is None,
            },
    {
        match naive_date_from_str(text) {
            Some((y, m, d)) => Some(Date { year: y, month: m, day: d }),
            None => None,
        }
    }

    /// The year.
    pub fn year(&self) -> (r: i32)
        ensures
            r == self@.year,
    {
        self.year
    }

    /// The month, from 1 to 12.
    pub fn month(&self) -> (r: u32)
        ensures
            r == self@.month,
            1 <= r <= 12,
    {
        proof {
            use_type_invariant(self);
        }
        self.month
    }

    /// The day of the month, from 1.
    pub fn day(&self) -> (r: u32)
        ensures
            r == self@.day,
            1 <= r <= 31,
    {
        proof {
            use_type_invariant(self);
        }
        self.day
    }

    /// The first day of the date's month.
    pub fn first_day_of_month(&self) -> (r: Date)
        ensures
            r@ == (Ymd { year: self@.year, month: self@.month, day: 1 }),
            r@.is_valid(),
    {
        proof {
            use_type_invariant(self);
        }
        Date::from_ymd_opt(self.year, self.month, 1).unwrap()
    }
}

} // verus!
