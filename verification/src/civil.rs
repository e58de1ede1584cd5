//! The proleptic Gregorian calendar as mathematics.
//!
//! Everything here is specification: contracts elsewhere in the crate speak
//! of dates through [`CivilDate`] and the functions below.

use vstd::prelude::*;
use crate::weekday::Weekday;

verus! {

/// The earliest year a date can have.
pub const MIN_YEAR: i32 = -262_143;

/// The latest year a date can have.
pub const MAX_YEAR: i32 = 262_142;

/// Whether `year` has a 29th of February.
pub open spec fn is_leap_year(year: int) -> bool {
    year % 4 == 0 && (year % 100 != 0 || year % 400 == 0)
}

/// Number of days of `month` in `year`; 0 when `month` is not in `1..=12`.
pub open spec fn days_in_month(year: int, month: int) -> int {
    if month < 1 || month > 12 {
        0
    } else if month == 2 {
        if is_leap_year(year) {
            29
        } else {
            28
        }
    } else if month == 4 || month == 6 || month == 9 || month == 11 {
        30
    } else {
        31
    }
}

/// Number of days of `year` that lie before the first of `month`.
pub open spec fn days_before_month(year: int, month: int) -> int
    decreases month,
{
    if month <= 1 {
        0
    } else {
        days_before_month(year, month - 1) + days_in_month(year, month - 1)
    }
}

/// Number of days between January 1 of year 1 and January 1 of `year`
/// (negative for years before 1).
pub open spec fn days_before_year(year: int) -> int {
    let y = year - 1;
    365 * y + y / 4 - y / 100 + y / 400
}

/// A calendar date as three mathematical integers.
pub struct CivilDate {
    pub year: int,
    pub month: int,
    pub day: int,
}

/// The date `year`-`month`-`day`.
pub open spec fn civil(year: int, month: int, day: int) -> CivilDate {
    CivilDate { year, month, day }
}

impl CivilDate {
    /// The date exists in the calendar and its year is representable.
    pub open spec fn is_valid(self) -> bool {
        &&& MIN_YEAR <= self.year <= MAX_YEAR
        &&& 1 <= self.month <= 12
        &&& 1 <= self.day <= days_in_month(self.year, self.month)
    }

    /// Day of the year, 1 for January 1.
    pub open spec fn ordinal(self) -> int {
        days_before_month(self.year, self.month) + self.day
    }

    /// Day number in the proleptic Gregorian calendar, 1 for January 1 of
    /// year 1.
    pub open spec fn days_from_ce(self) -> int {
        days_before_year(self.year) + self.ordinal()
    }

    /// Day of the week. Day number 1 is a Monday.
    pub open spec fn weekday(self) -> Weekday {
        Weekday::at((self.days_from_ce() - 1) % 7)
    }
}

/// Day number of the earliest valid date.
pub open spec fn first_day_number() -> int {
    civil(MIN_YEAR as int, 1, 1).days_from_ce()
}

/// Day number of the latest valid date.
pub open spec fn last_day_number() -> int {
    civil(MAX_YEAR as int, 12, 31).days_from_ce()
}

/// `days_before_month` written out month by month.
pub proof fn lemma_days_before_month(year: int, month: int)
    requires
        1 <= month <= 12,
    ensures
        days_before_month(year, month) == {
            let leap: int = if is_leap_year(year) { 1 } else { 0 };
            if month == 1 {
                0
            } else if month == 2 {
                31
            } else if month == 3 {
                59 + leap
            } else if month == 4 {
                90 + leap
            } else if month == 5 {
                120 + leap
            } else if month == 6 {
                151 + leap
            } else if month == 7 {
                181 + leap
            } else if month == 8 {
                212 + leap
            } else if month == 9 {
                243 + leap
            } else if month == 10 {
                273 + leap
            } else if month == 11 {
                304 + leap
            } else {
                334 + leap
            }
        },
{
    reveal_with_fuel(days_before_month, 13);
}

/// A year has 365 days, and one more when it is a leap year.
pub proof fn lemma_year_length(year: int)
    ensures
        days_before_year(year + 1) == days_before_year(year) + 365 + if is_leap_year(year) {
            1int
        } else {
            0int
        },
{
}

/// Later years start later, by at least 365 days for each year between.
pub proof fn lemma_days_before_year_monotonic(earlier: int, later: int)
    requires
        earlier <= later,
    ensures
        days_before_year(earlier) + 365 * (later - earlier) <= days_before_year(later),
    decreases later - earlier,
{
    if earlier < later {
        lemma_days_before_year_monotonic(earlier, later - 1);
        lemma_year_length(later - 1);
    }
}

/// The day of the year of a valid date lies between 1 and the length of its
/// year.
pub proof fn lemma_ordinal_bounds(date: CivilDate)
    requires
        date.is_valid(),
    ensures
        1 <= date.ordinal() <= 365 + if is_leap_year(date.year) {
            1int
        } else {
            0int
        },
{
    lemma_days_before_month(date.year, date.month);
}

/// The day numbers of valid dates lie between those of the first and the
/// last valid date.
pub proof fn lemma_day_number_bounds(date: CivilDate)
    requires
        date.is_valid(),
    ensures
        first_day_number() <= date.days_from_ce() <= last_day_number(),
{
    lemma_ordinal_bounds(date);
    lemma_days_before_month(MIN_YEAR as int, 1);
    lemma_days_before_month(MAX_YEAR as int, 12);
    lemma_days_before_year_monotonic(MIN_YEAR as int, date.year);
    if date.year < MAX_YEAR {
        lemma_days_before_year_monotonic(date.year + 1, MAX_YEAR as int);
        lemma_year_length(date.year);
    }
}

/// Within a month, the next day has the next day number.
pub proof fn lemma_next_day_in_month(date: CivilDate)
    ensures
        civil(date.year, date.month, date.day + 1).days_from_ce() == date.days_from_ce() + 1,
        civil(date.year, date.month, date.day + 1).weekday().index() == (date.weekday().index()
            + 1) % 7,
{
}

/// The weekday of a date is the one whose position is the day number less
/// one, taken modulo 7.
pub proof fn lemma_weekday_index(date: CivilDate)
    ensures
        date.weekday().index() == (date.days_from_ce() - 1) % 7,
{
}

/// A day number names one date: two valid dates with the same day number
/// are the same date.
pub proof fn lemma_day_number_names_one_date(first: CivilDate, second: CivilDate)
    requires
        first.is_valid(),
        second.is_valid(),
        first.days_from_ce() == second.days_from_ce(),
    ensures
        first == second,
{
    lemma_ordinal_bounds(first);
    lemma_ordinal_bounds(second);
    if first.year < second.year {
        lemma_year_length(first.year);
        lemma_days_before_year_monotonic(first.year + 1, second.year);
    } else if second.year < first.year {
        lemma_year_length(second.year);
        lemma_days_before_year_monotonic(second.year + 1, first.year);
    } else {
        lemma_days_before_month(first.year, first.month);
        lemma_days_before_month(second.year, second.month);
    }
}

} // verus!
