//! Calendar dates.
//!
//! A [`Date`] is a day of the proleptic Gregorian calendar together with its
//! weekday and its day of the year. The calendar arithmetic itself is done
//! by `chrono`; what this module relies on from it is stated in the
//! contracts of the five private functions at the end of the file.

use vstd::prelude::*;
use chrono::{Datelike, Days, NaiveDate};
use crate::civil::{civil, first_day_number, last_day_number, lemma_day_number_bounds, CivilDate};
use crate::weekday::Weekday;

verus! {

/// A valid calendar date.
#[derive(Debug, Clone, Copy, PartialEq, Eq, Hash, Structural)]
pub struct Date {
    year: i32,
    month: u32,
    day: u32,
    weekday: Weekday,
    ordinal: u32,
}

impl View for Date {
    type V = CivilDate;

    closed spec fn view(&self) -> CivilDate {
        civil(self.year as int, self.month as int, self.day as int)
    }
}

impl Date {
    /// Every `Date` names an existing day, and carries that day's weekday
    /// and day of the year.
    #[verifier::type_invariant]
    closed spec fn well_formed(self) -> bool {
        &&& self@.is_valid()
        &&& self.weekday == self@.weekday()
        &&& self.ordinal == self@.ordinal()
    }

    /// Whether `year`-`month`-`day` names a day that a `Date` can hold.
    pub fn is_valid_ymd(year: i32, month: u32, day: u32) -> (valid: bool)
        ensures
            valid == civil(year as int, month as int, day as int).is_valid(),
    {
        date_exists(year, month, day)
    }

    /// The date `y`-`m`-`d`.
    pub fn ymd(y: i32, m: u32, d: u32) -> (date: Date)
        requires
            civil(y as int, m as int, d as int).is_valid(),
        ensures
            date@ == civil(y as int, m as int, d as int),
    {
        let weekday = weekday_of(y, m, d);
        let ordinal = ordinal_of(y, m, d);
        Date { year: y, month: m, day: d, weekday, ordinal }
    }

    /// The date `y`-`m`-`d`, or `None` when there is no such day.
    pub fn ymd_opt(y: i32, m: u32, d: u32) -> (date: Option<Date>)
        ensures
            date is Some <==> civil(y as int, m as int, d as int).is_valid(),
            date is Some ==> date->0@ == civil(y as int, m as int, d as int),
    {
        if date_exists(y, m, d) {
            Some(Date::ymd(y, m, d))
        } else {
            None
        }
    }

    /// Year component.
    pub fn year(&self) -> (y: i32)
        ensures
            y == self@.year,
            self@.is_valid(),
    {
        proof {
            use_type_invariant(self);
        }
        self.year
    }

    /// Month component (1-12).
    pub fn month(&self) -> (m: u32)
        ensures
            m == self@.month,
            self@.is_valid(),
    {
        proof {
            use_type_invariant(self);
        }
        self.month
    }

    /// Day-of-month component (1-31).
    pub fn day(&self) -> (d: u32)
        ensures
            d == self@.day,
            self@.is_valid(),
    {
        proof {
            use_type_invariant(self);
        }
        self.day
    }

    /// Weekday of this date.
    pub fn weekday(&self) -> (w: Weekday)
        ensures
            w == self@.weekday(),
            self@.is_valid(),
    {
        proof {
            use_type_invariant(self);
        }
        self.weekday
    }

    /// Day-of-year (1-based ordinal).
    pub fn day_of_year(&self) -> (n: u32)
        ensures
            n == self@.ordinal(),
            self@.is_valid(),
    {
        proof {
            use_type_invariant(self);
        }
        self.ordinal
    }

    /// The date `n` days after this one (before it, for negative `n`), or
    /// `None` when that day lies outside the representable years.
    pub fn checked_add_days(&self, n: i32) -> (shifted: Option<Date>)
        ensures
            shifted is Some <==> first_day_number() <= self@.days_from_ce() + n
                <= last_day_number(),
            shifted is Some ==> shifted->0@.is_valid() && shifted->0@.days_from_ce()
                == self@.days_from_ce() + n,
    {
        proof {
            use_type_invariant(self);
            lemma_day_number_bounds(self@);
        }
        let moved = if n >= 0 {
            days_after(self.year, self.month, self.day, n as u64)
        } else {
            days_before(self.year, self.month, self.day, (-(n as i64)) as u64)
        };
        match moved {
            Some((y, m, d)) => Some(Date::ymd(y, m, d)),
            None => None,
        }
    }

    /// Add `n` days (can be negative) and return the resulting date.
    pub fn add_days(&self, n: i32) -> (shifted: Date)
        requires
            first_day_number() <= self@.days_from_ce() + n <= last_day_number(),
        ensures
            shifted@.is_valid(),
            shifted@.days_from_ce() == self@.days_from_ce() + n,
    {
        self.checked_add_days(n).unwrap()
    }
}

/// `NaiveDate::from_ymd_opt`, asked only whether it finds a date. It does so
/// exactly for the days of the proleptic Gregorian calendar whose year lies
/// between `MIN_YEAR` and `MAX_YEAR`.
#[verifier::external_body]
fn date_exists(year: i32, month: u32, day: u32) -> (found: bool)
    ensures
        found == civil(year as int, month as int, day as int).is_valid(),
{
    NaiveDate::from_ymd_opt(year, month, day).is_some()
}

/// `Datelike::weekday` of the `NaiveDate` for `year`-`month`-`day`. Day 1 of
/// year 1 is a Monday, and weekdays follow each other day by day from there.
#[verifier::external_body]
fn weekday_of(year: i32, month: u32, day: u32) -> (weekday: Weekday)
    requires
        civil(year as int, month as int, day as int).is_valid(),
    ensures
        weekday == civil(year as int, month as int, day as int).weekday(),
{
    match NaiveDate::from_ymd_opt(year, month, day).unwrap().weekday() {
        chrono::Weekday::Mon => Weekday::Mon,
        chrono::Weekday::Tue => Weekday::Tue,
        chrono::Weekday::Wed => Weekday::Wed,
        chrono::Weekday::Thu => Weekday::Thu,
        chrono::Weekday::Fri => Weekday::Fri,
        chrono::Weekday::Sat => Weekday::Sat,
        chrono::Weekday::Sun => Weekday::Sun,
    }
}

/// `Datelike::ordinal` of the `NaiveDate` for `year`-`month`-`day`: the day
/// of the year, starting from 1.
#[verifier::external_body]
fn ordinal_of(year: i32, month: u32, day: u32) -> (ordinal: u32)
    requires
        civil(year as int, month as int, day as int).is_valid(),
    ensures
        ordinal == civil(year as int, month as int, day as int).ordinal(),
{
    NaiveDate::from_ymd_opt(year, month, day).unwrap().ordinal()
}

/// `NaiveDate::checked_add_days` on the date `year`-`month`-`day`. It finds
/// the day `n` days later, and fails exactly when that day would lie past the
/// last representable one.
#[verifier::external_body]
fn days_after(year: i32, month: u32, day: u32, n: u64) -> (moved: Option<(i32, u32, u32)>)
    requires
        civil(year as int, month as int, day as int).is_valid(),
    ensures
        moved is Some <==> civil(year as int, month as int, day as int).days_from_ce() + n
            <= last_day_number(),
        moved matches Some(t) ==> civil(t.0 as int, t.1 as int, t.2 as int).is_valid() && civil(
            t.0 as int,
            t.1 as int,
            t.2 as int,
        ).days_from_ce() == civil(year as int, month as int, day as int).days_from_ce() + n,
{
    let start = NaiveDate::from_ymd_opt(year, month, day).unwrap();
    start.checked_add_days(Days::new(n)).map(|t| (t.year(), t.month(), t.day()))
}

/// `NaiveDate::checked_sub_days` on the date `year`-`month`-`day`. It finds
/// the day `n` days earlier, and fails exactly when that day would lie before
/// the first representable one.
#[verifier::external_body]
fn days_before(year: i32, month: u32, day: u32, n: u64) -> (moved: Option<(i32, u32, u32)>)
    requires
        civil(year as int, month as int, day as int).is_valid(),
    ensures
        moved is Some <==> first_day_number() <= civil(
            year as int,
            month as int,
            day as int,
        ).days_from_ce() - n,
        moved matches Some(t) ==> civil(t.0 as int, t.1 as int, t.2 as int).is_valid() && civil(
            t.0 as int,
            t.1 as int,
            t.2 as int,
        ).days_from_ce() == civil(year as int, month as int, day as int).days_from_ce() - n,
{
    let start = NaiveDate::from_ymd_opt(year, month, day).unwrap();
    start.checked_sub_days(Days::new(n)).map(|t| (t.year(), t.month(), t.day()))
}

} // verus!
