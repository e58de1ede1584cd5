//! The calendar of the New York Stock Exchange: close to the settlement
//! calendar, with Good Friday and the closures of the exchange itself.

use vstd::prelude::*;
use crate::rules::{HolidayRule, YearRange, GOOD_FRIDAY, LAST};
use crate::static_calendar::{RuleSet, StaticCalendar};
use crate::weekday::Weekday;

verus! {

/// The holidays of the New York Stock Exchange. The fixed dates are observed
/// on the nearest weekday when they fall on a weekend.
pub open spec fn us_nyse_rules() -> Seq<HolidayRule> {
    seq![
        // New Year's Day
        HolidayRule::WeekendAdjustedFixed { month: 1, day: 1, years: YearRange::always() },
        // Washington's Birthday / Presidents' Day (3rd Monday in February, from 1971)
        HolidayRule::NthWeekday {
            month: 2,
            weekday: Weekday::Mon,
            nth: 3,
            years: YearRange::from(1971),
        },
        // Good Friday (3 days before Western Easter Monday)
        HolidayRule::EasterOffset {
            western: true,
            offset: GOOD_FRIDAY,
            years: YearRange::always(),
        },
        // Memorial Day (last Monday in May, from 1971)
        HolidayRule::NthWeekday {
            month: 5,
            weekday: Weekday::Mon,
            nth: LAST,
            years: YearRange::from(1971),
        },
        // Juneteenth National Independence Day (from 2022)
        HolidayRule::WeekendAdjustedFixed { month: 6, day: 19, years: YearRange::from(2022) },
        // Independence Day
        HolidayRule::WeekendAdjustedFixed { month: 7, day: 4, years: YearRange::always() },
        // Labor Day (1st Monday in September)
        HolidayRule::NthWeekday {
            month: 9,
            weekday: Weekday::Mon,
            nth: 1,
            years: YearRange::always(),
        },
        // Thanksgiving Day (4th Thursday in November)
        HolidayRule::NthWeekday {
            month: 11,
            weekday: Weekday::Thu,
            nth: 4,
            years: YearRange::always(),
        },
        // Christmas Day
        HolidayRule::WeekendAdjustedFixed { month: 12, day: 25, years: YearRange::always() },
        // Martin Luther King Jr. Day (3rd Monday in January, from 1998 on the NYSE)
        HolidayRule::NthWeekday {
            month: 1,
            weekday: Weekday::Mon,
            nth: 3,
            years: YearRange::from(1998),
        },
        // 2018-12-05: Bush funeral / national day of mourning
        HolidayRule::OneOff { year: 2018, month: 12, day: 5 },
        // 2012-10-29: Hurricane Sandy closure
        HolidayRule::OneOff { year: 2012, month: 10, day: 29 },
        // 2012-10-30: Hurricane Sandy closure
        HolidayRule::OneOff { year: 2012, month: 10, day: 30 },
        // 2007-01-02: Ford funeral
        HolidayRule::OneOff { year: 2007, month: 1, day: 2 },
        // 2004-06-11: Reagan funeral
        HolidayRule::OneOff { year: 2004, month: 6, day: 11 },
        // 2001-09-11: 9/11 closure
        HolidayRule::OneOff { year: 2001, month: 9, day: 11 },
        // 2001-09-12: 9/11 closure
        HolidayRule::OneOff { year: 2001, month: 9, day: 12 },
        // 2001-09-13: 9/11 closure
        HolidayRule::OneOff { year: 2001, month: 9, day: 13 },
        // 2001-09-14: 9/11 closure
        HolidayRule::OneOff { year: 2001, month: 9, day: 14 },
    ]
}

/// What decides the answers of the NYSE calendar: a weekend of Saturday and
/// Sunday, and the rules above.
pub open spec fn us_nyse_model() -> RuleSet {
    RuleSet { weekend: (Weekday::Sat, Weekday::Sun), rules: us_nyse_rules() }
}

/// The NYSE calendar.
pub fn us_nyse() -> (calendar: StaticCalendar)
    ensures
        calendar@ == us_nyse_model(),
        calendar.name@ == "US NYSE"@,
{
    let rules = vec![
        HolidayRule::WeekendAdjustedFixed { month: 1, day: 1, years: YearRange::always() },
        HolidayRule::NthWeekday {
            month: 2,
            weekday: Weekday::Mon,
            nth: 3,
            years: YearRange::from(1971),
        },
        HolidayRule::EasterOffset {
            western: true,
            offset: GOOD_FRIDAY,
            years: YearRange::always(),
        },
        HolidayRule::NthWeekday {
            month: 5,
            weekday: Weekday::Mon,
            nth: LAST,
            years: YearRange::from(1971),
        },
        HolidayRule::WeekendAdjustedFixed { month: 6, day: 19, years: YearRange::from(2022) },
        HolidayRule::WeekendAdjustedFixed { month: 7, day: 4, years: YearRange::always() },
        HolidayRule::NthWeekday {
            month: 9,
            weekday: Weekday::Mon,
            nth: 1,
            years: YearRange::always(),
        },
        HolidayRule::NthWeekday {
            month: 11,
            weekday: Weekday::Thu,
            nth: 4,
            years: YearRange::always(),
        },
        HolidayRule::WeekendAdjustedFixed { month: 12, day: 25, years: YearRange::always() },
        HolidayRule::NthWeekday {
            month: 1,
            weekday: Weekday::Mon,
            nth: 3,
            years: YearRange::from(1998),
        },
        HolidayRule::OneOff { year: 2018, month: 12, day: 5 },
        HolidayRule::OneOff { year: 2012, month: 10, day: 29 },
        HolidayRule::OneOff { year: 2012, month: 10, day: 30 },
        HolidayRule::OneOff { year: 2007, month: 1, day: 2 },
        HolidayRule::OneOff { year: 2004, month: 6, day: 11 },
        HolidayRule::OneOff { year: 2001, month: 9, day: 11 },
        HolidayRule::OneOff { year: 2001, month: 9, day: 12 },
        HolidayRule::OneOff { year: 2001, month: 9, day: 13 },
        HolidayRule::OneOff { year: 2001, month: 9, day: 14 },
    ];
    assert(rules@ =~= us_nyse_rules());
    StaticCalendar { name: "US NYSE", weekend: [Weekday::Sat, Weekday::Sun], rules }
}

} // verus!
