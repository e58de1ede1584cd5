//! Holiday rules: the data from which the calendars are built, and the test
//! whether a rule makes a date a holiday.

use vstd::prelude::*;
use crate::civil::{
    civil, days_before_year, days_in_month, lemma_next_day_in_month, lemma_weekday_index,
    CivilDate, MAX_YEAR, MIN_YEAR,
};
use crate::date::Date;
use crate::easter::{
    is_supported_year, orthodox, orthodox_easter_monday, supports_year, western,
    western_easter_monday,
};
use crate::weekday::Weekday;

verus! {

/// Year range used for rules; inclusive [start, end].
#[derive(Debug, Clone, Copy)]
pub struct YearRange {
    pub start: i32,
    pub end: i32,
}

impl YearRange {
    /// Whether `year` lies in the range.
    pub open spec fn covers(self, year: int) -> bool {
        self.start <= year <= self.end
    }

    /// The range of all years.
    pub open spec fn all() -> YearRange {
        YearRange { start: i32::MIN, end: i32::MAX }
    }

    /// The range of the years from `start` on.
    pub open spec fn starting(start: i32) -> YearRange {
        YearRange { start, end: i32::MAX }
    }

    /// The range of the years up to `end`.
    pub open spec fn ending(end: i32) -> YearRange {
        YearRange { start: i32::MIN, end }
    }

    /// The range of the years from `start` to `end`.
    pub open spec fn spanning(start: i32, end: i32) -> YearRange {
        YearRange { start, end }
    }

    /// The range that holds every year.
    #[verifier::when_used_as_spec(all)]
    pub fn always() -> (range: YearRange)
        ensures
            range == YearRange::all(),
    {
        YearRange { start: i32::MIN, end: i32::MAX }
    }

    /// The range that holds `start` and every later year.
    #[verifier::when_used_as_spec(starting)]
    pub fn from(start: i32) -> (range: YearRange)
        ensures
            range == YearRange::starting(start),
    {
        YearRange { start, end: i32::MAX }
    }

    /// The range that holds `end` and every earlier year.
    #[verifier::when_used_as_spec(ending)]
    pub fn until(end: i32) -> (range: YearRange)
        ensures
            range == YearRange::ending(end),
    {
        YearRange { start: i32::MIN, end }
    }

    /// The range that holds the years from `start` to `end`, both included.
    /// It is empty when `end` lies before `start`.
    #[verifier::when_used_as_spec(spanning)]
    pub fn between(start: i32, end: i32) -> (range: YearRange)
        ensures
            range == YearRange::spanning(start, end),
    {
        YearRange { start, end }
    }

    /// Whether `y` lies in the range.
    pub fn contains(&self, y: i32) -> (inside: bool)
        ensures
            inside == self.covers(y as int),
    {
        y >= self.start && y <= self.end
    }
}

/// The `nth` of a [`HolidayRule::NthWeekday`] that names the last such
/// weekday of the month.
pub const LAST: i8 = -1;

/// The `offset` of a [`HolidayRule::EasterOffset`] for Good Friday.
pub const GOOD_FRIDAY: i32 = -3;

/// The `offset` of a [`HolidayRule::EasterOffset`] for Easter Monday itself.
pub const EASTER_MONDAY: i32 = 0;

/// Static, data-driven holiday rules.
#[derive(Debug, Clone, Copy)]
pub enum HolidayRule {
    /// Fixed calendar date in all years in `years`.
    Fixed { month: u32, day: u32, years: YearRange },
    /// Fixed date, observed on Monday if it falls on Sunday,
    /// and Friday if it falls on Saturday (same year, same month).
    WeekendAdjustedFixed { month: u32, day: u32, years: YearRange },
    /// nth weekday of a given month (nth > 0: from start; nth < 0: from end)
    NthWeekday { month: u32, weekday: Weekday, nth: i8, years: YearRange },
    /// Easter Monday offset in days (e.g. Good Friday = -3).
    EasterOffset {
        /// If `true`, use Western calendar; if `false`, use Orthodox.
        western: bool,
        offset: i32,
        years: YearRange,
    },
    /// One-off holiday on a specific date.
    OneOff { year: i32, month: u32, day: u32 },
}

/// Day of the year of Easter Monday in `year`, as the Western churches keep
/// it if `western`, else as the Orthodox churches do.
pub open spec fn easter_monday_ordinal(western: bool, year: int) -> int {
    if western {
        western::easter_monday_ordinal(year)
    } else {
        orthodox::easter_monday_ordinal(year)
    }
}

impl HolidayRule {
    /// Whether this rule makes `date` a holiday, where `year` is the year
    /// against which the rule's year range is held.
    ///
    /// - `Fixed` fires on its month and day.
    /// - `WeekendAdjustedFixed` fires on its month and day, on the Friday
    ///   before it and on the Monday after it, as far as these lie in the
    ///   same month.
    /// - `NthWeekday` fires on its weekday within one week of its month: for
    ///   a positive `nth`, the week of the days `7 * nth - 6` to `7 * nth`;
    ///   else the week that `-nth` names, counting back in sevens from day 31
    ///   whatever the length of the month.
    /// - `EasterOffset` fires on the day of the year that lies `offset` days
    ///   from Easter Monday, in the years for which Easter is tabulated.
    /// - `OneOff` fires on its date alone.
    pub open spec fn matches(self, date: CivilDate, year: int) -> bool {
        match self {
            HolidayRule::Fixed { month, day, years } => {
                &&& years.covers(year)
                &&& date.month == month
                &&& date.day == day
            },
            HolidayRule::WeekendAdjustedFixed { month, day, years } => {
                &&& years.covers(year)
                &&& date.month == month
                &&& {
                    ||| date.day == day
                    ||| date.weekday() == Weekday::Fri && date.day + 1 == day
                    ||| date.weekday() == Weekday::Mon && date.day == day + 1
                }
            },
            HolidayRule::NthWeekday { month, weekday, nth, years } => {
                &&& years.covers(year)
                &&& date.month == month
                &&& date.weekday() == weekday
                &&& if nth > 0 {
                    (nth - 1) * 7 < date.day <= nth * 7
                } else {
                    (31 - date.day) / 7 + 1 == -nth
                }
            },
            HolidayRule::EasterOffset { western, offset, years } => {
                &&& years.covers(year)
                &&& is_supported_year(year)
                &&& date.ordinal() == easter_monday_ordinal(western, year) + offset
            },
            HolidayRule::OneOff { year: y, month, day } => {
                &&& year == y
                &&& date.month == month
                &&& date.day == day
            },
        }
    }

    /// Returns `true` if this rule marks the given `date` as a holiday.
    ///
    /// `year` is passed separately to avoid recomputing it for each rule.
    pub fn is_holiday(&self, date: Date, year: i32) -> (fires: bool)
        ensures
            fires == self.matches(date@, year as int),
    {
        match *self {
            HolidayRule::Fixed { month, day, years } => {
                years.contains(year) && date.month() == month && date.day() == day
            },
            HolidayRule::WeekendAdjustedFixed { month, day, years } => {
                if !years.contains(year) || date.month() != month {
                    return false;
                }
                let wd = date.weekday();
                if date.day() == day {
                    // Actual calendar date
                    true
                } else if wd == Weekday::Fri && date.day() + 1 == day {
                    // Observed on Friday if actual date is Saturday
                    true
                } else if wd == Weekday::Mon && day < u32::MAX && date.day() == day + 1 {
                    // Observed on Monday if actual date is Sunday
                    true
                } else {
                    false
                }
            },
            HolidayRule::NthWeekday { month, weekday, nth, years } => {
                if !years.contains(year) || date.month() != month || date.weekday() != weekday {
                    return false;
                }
                let day: i32 = date.day() as i32;
                if nth > 0 {
                    // e.g. first Monday: 1..=7, second Monday: 8..=14, etc.
                    let idx: i32 = nth as i32 - 1;
                    day > idx * 7 && day <= (idx + 1) * 7
                } else {
                    // From the end of the month, in sevens back from day 31.
                    let nth_abs: i32 = -(nth as i32);
                    let ordinal_from_end: i32 = 31 - day;
                    let bucket: i32 = ordinal_from_end / 7 + 1;
                    bucket == nth_abs
                }
            },
            HolidayRule::EasterOffset { western, offset, years } => {
                if !years.contains(year) || !supports_year(year) {
                    return false;
                }
                let easter_doy: u32 = if western {
                    western_easter_monday(year)
                } else {
                    orthodox_easter_monday(year)
                };
                let target: i64 = easter_doy as i64 + offset as i64;
                date.day_of_year() as i64 == target
            },
            HolidayRule::OneOff { year: y, month, day } => {
                year == y && date.month() == month && date.day() == day
            },
        }
    }
}

/// A weekend-adjusted rule never reaches into another month: it fires on
/// its own day, on the day before it and on the day after it, as far as
/// these lie in its month. So a holiday on the first of a month that falls on
/// a Saturday is not observed on the Friday before it, and one on the last
/// day of a month that falls on a Sunday is not observed on the Monday after.
pub proof fn lemma_weekend_adjustment_stays_in_month(
    month: u32,
    day: u32,
    years: YearRange,
    date: CivilDate,
    year: int,
)
    requires
        (HolidayRule::WeekendAdjustedFixed { month, day, years }).matches(date, year),
    ensures
        date.month == month,
        day - 1 <= date.day <= day + 1,
        date.day != day ==> !date.weekday().is_saturday_or_sunday(),
{
}

/// A weekend-adjusted holiday that falls on a Saturday is observed on the
/// Friday before it, where that is a day of the same month; one that falls on
/// a Sunday is observed on the Monday after it, on the same condition. On its
/// own day the rule fires whatever the weekday.
pub proof fn lemma_weekend_adjustment_within_month(month: u32, day: u32, years: YearRange, year: int)
    requires
        years.covers(year),
        civil(year, month as int, day as int).is_valid(),
    ensures
        ({
            let rule = HolidayRule::WeekendAdjustedFixed { month, day, years };
            let own = civil(year, month as int, day as int);
            let before = civil(year, month as int, day - 1);
            let after = civil(year, month as int, day + 1);
            &&& rule.matches(own, year)
            &&& own.weekday() == Weekday::Sat && before.is_valid() ==> before.weekday()
                == Weekday::Fri && rule.matches(before, year)
            &&& own.weekday() == Weekday::Sun && after.is_valid() ==> after.weekday()
                == Weekday::Mon && rule.matches(after, year)
        }),
{
    let own = civil(year, month as int, day as int);
    lemma_next_day_in_month(civil(year, month as int, day - 1));
    lemma_next_day_in_month(own);
    own.weekday().lemma_at_index();
    civil(year, month as int, day - 1).weekday().lemma_at_index();
    civil(year, month as int, day + 1).weekday().lemma_at_index();
}

/// A rule that hangs on Easter fires, if at all in a year, on the day that
/// lies `offset` days from Easter Monday, and so on one weekday only: with
/// `GOOD_FRIDAY` on a Friday, with `EASTER_MONDAY` on a Monday. (Where that
/// day belongs to another year the rule does not fire in either year.)
pub proof fn lemma_easter_rule_day(western: bool, offset: i32, years: YearRange, date: CivilDate)
    requires
        (HolidayRule::EasterOffset { western, offset, years }).matches(date, date.year),
    ensures
        date.days_from_ce() == days_before_year(date.year) + easter_monday_ordinal(
            western,
            date.year,
        ) + offset,
        date.weekday().index() == offset % 7,
        offset == GOOD_FRIDAY ==> date.weekday() == Weekday::Fri,
        offset == EASTER_MONDAY ==> date.weekday() == Weekday::Mon,
{
    let sunday = if western {
        western::easter_sunday_day_number(date.year)
    } else {
        orthodox::easter_sunday_day_number(date.year)
    };
    assert(sunday % 7 == 0) by {
        western::lemma_easter_sunday(date.year);
        orthodox::lemma_easter_sunday(date.year);
    }
    assert(date.days_from_ce() == sunday + 1 + offset);
    lemma_weekday_index(date);
}

/// For `nth` from 1 to 4, an `NthWeekday` rule fires on exactly one day of
/// its month in every year of its range: on the one day of the `nth` week of
/// the month that falls on its weekday.
pub proof fn lemma_nth_weekday_fires_once(
    month: u32,
    weekday: Weekday,
    nth: i8,
    years: YearRange,
    year: int,
) -> (day: int)
    requires
        1 <= nth <= 4,
        1 <= month <= 12,
        MIN_YEAR <= year <= MAX_YEAR,
        years.covers(year),
    ensures
        7 * nth - 6 <= day <= 7 * nth,
        civil(year, month as int, day).is_valid(),
        (HolidayRule::NthWeekday { month, weekday, nth, years }).matches(
            civil(year, month as int, day),
            year,
        ),
        forall|other: int|
            (HolidayRule::NthWeekday { month, weekday, nth, years }).matches(
                #[trigger] civil(year, month as int, other),
                year,
            ) ==> other == day,
{
    let first = civil(year, month as int, 7 * nth - 6);
    let ahead = (weekday.index() - first.weekday().index()) % 7;
    let day = 7 * nth - 6 + ahead;
    weekday.lemma_at_index();
    first.weekday().lemma_at_index();
    assert(civil(year, month as int, day).days_from_ce() == first.days_from_ce() + ahead);
    lemma_weekday_index(first);
    lemma_weekday_index(civil(year, month as int, day));
    civil(year, month as int, day).weekday().lemma_at_index();
    assert forall|other: int|
        (HolidayRule::NthWeekday { month, weekday, nth, years }).matches(
            #[trigger] civil(year, month as int, other),
            year,
        ) implies other == day by {
        let date = civil(year, month as int, other);
        assert(date.days_from_ce() == first.days_from_ce() + (other - (7 * nth - 6)));
        lemma_weekday_index(date);
    }
    day
}

/// In a month of 31 days, an `NthWeekday` rule with `LAST` fires on the last
/// day of the month that falls on its weekday: on the one with no such day
/// a week later in the month. (In a shorter month it fires on that day only
/// if it is the 25th or later.)
pub proof fn lemma_last_weekday_of_long_month(
    month: u32,
    weekday: Weekday,
    years: YearRange,
    date: CivilDate,
)
    requires
        date.is_valid(),
        days_in_month(date.year, date.month) == 31,
    ensures
        (HolidayRule::NthWeekday { month, weekday, nth: LAST, years }).matches(date, date.year) <==> {
            &&& years.covers(date.year)
            &&& date.month == month
            &&& date.weekday() == weekday
            &&& !civil(date.year, date.month, date.day + 7).is_valid()
        },
{
}

} // verus!
