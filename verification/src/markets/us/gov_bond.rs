//! The calendar of the government bond market: close to the settlement
//! calendar, with Good Friday and a few closures of its own.

use vstd::prelude::*;
use crate::rules::{HolidayRule, YearRange, GOOD_FRIDAY, LAST};
use crate::static_calendar::{RuleSet, StaticCalendar};
use crate::weekday::Weekday;

verus! {

/// The holidays of the government bond market. The fixed dates are observed
/// on the nearest weekday when they fall on a weekend.
pub open spec fn us_government_bond_rules() -> Seq<HolidayRule> {
    seq![
        // New Year's Day
        HolidayRule::WeekendAdjustedFixed { month: 1, day: 1, years: YearRange::always() },
        // Martin Luther King Jr. Day (3rd Monday in January, from 1983)
        HolidayRule::NthWeekday {
            month: 1,
            weekday: Weekday::Mon,
            nth: 3,
            years: YearRange::from(1983),
        },
        // Washington's Birthday / Presidents' Day (3rd Monday in February, from 1971)
        HolidayRule::NthWeekday {
            month: 2,
            weekday: Weekday::Mon,
            nth: 3,
            years: YearRange::from(1971),
        },
        // Good Friday (3 days before Western Easter Monday)
        HolidayRule::EasterOffset {
            western: true,
            offset: GOOD_FRIDAY,
            years: YearRange::always(),
        },
        // Memorial Day (last Monday in May, from 1971)
        HolidayRule::NthWeekday {
            month: 5,
            weekday: Weekday::Mon,
            nth: LAST,
            years: YearRange::from(1971),
        },
        // Juneteenth National Independence Day (from 2022)
        HolidayRule::WeekendAdjustedFixed { month: 6, day: 19, years: YearRange::from(2022) },
        // Independence Day
        HolidayRule::WeekendAdjustedFixed { month: 7, day: 4, years: YearRange::always() },
        // Labor Day (1st Monday in September)
        HolidayRule::NthWeekday {
            month: 9,
            weekday: Weekday::Mon,
            nth: 1,
            years: YearRange::always(),
        },
        // Columbus Day / Indigenous Peoples' Day (2nd Monday in October)
        HolidayRule::NthWeekday {
            month: 10,
            weekday: Weekday::Mon,
            nth: 2,
            years: YearRange::always(),
        },
        // Veterans Day
        HolidayRule::WeekendAdjustedFixed { month: 11, day: 11, years: YearRange::always() },
        // Thanksgiving Day (4th Thursday in November)
        HolidayRule::NthWeekday {
            month: 11,
            weekday: Weekday::Thu,
            nth: 4,
            years: YearRange::always(),
        },
        // Christmas Day
        HolidayRule::WeekendAdjustedFixed { month: 12, day: 25, years: YearRange::always() },
        // 2018-12-05: Bush funeral / national day of mourning
        HolidayRule::OneOff { year: 2018, month: 12, day: 5 },
        // 2012-10-30: Hurricane Sandy closure
        HolidayRule::OneOff { year: 2012, month: 10, day: 30 },
        // 2004-06-11: Reagan funeral
        HolidayRule::OneOff { year: 2004, month: 6, day: 11 },
    ]
}

/// What decides the answers of the government bond calendar: a weekend of Saturday and
/// Sunday, and the rules above.
pub open spec fn us_government_bond_model() -> RuleSet {
    RuleSet { weekend: (Weekday::Sat, Weekday::Sun), rules: us_government_bond_rules() }
}

/// The government bond calendar.
pub fn us_government_bond() -> (calendar: StaticCalendar)
    ensures
        calendar@ == us_government_bond_model(),
        calendar.name@ == "US Government Bond"@,
{
    let rules = vec![
        HolidayRule::WeekendAdjustedFixed { month: 1, day: 1, years: YearRange::always() },
        HolidayRule::NthWeekday {
            month: 1,
            weekday: Weekday::Mon,
            nth: 3,
            years: YearRange::from(1983),
        },
        HolidayRule::NthWeekday {
            month: 2,
            weekday: Weekday::Mon,
            nth: 3,
            years: YearRange::from(1971),
        },
        HolidayRule::EasterOffset {
            western: true,
            offset: GOOD_FRIDAY,
            years: YearRange::always(),
        },
        HolidayRule::NthWeekday {
            month: 5,
            weekday: Weekday::Mon,
            nth: LAST,
            years: YearRange::from(1971),
        },
        HolidayRule::WeekendAdjustedFixed { month: 6, day: 19, years: YearRange::from(2022) },
        HolidayRule::WeekendAdjustedFixed { month: 7, day: 4, years: YearRange::always() },
        HolidayRule::NthWeekday {
            month: 9,
            weekday: Weekday::Mon,
            nth: 1,
            years: YearRange::always(),
        },
        HolidayRule::NthWeekday {
            month: 10,
            weekday: Weekday::Mon,
            nth: 2,
            years: YearRange::always(),
        },
        HolidayRule::WeekendAdjustedFixed { month: 11, day: 11, years: YearRange::always() },
        HolidayRule::NthWeekday {
            month: 11,
            weekday: Weekday::Thu,
            nth: 4,
            years: YearRange::always(),
        },
        HolidayRule::WeekendAdjustedFixed { month: 12, day: 25, years: YearRange::always() },
        HolidayRule::OneOff { year: 2018, month: 12, day: 5 },
        HolidayRule::OneOff { year: 2012, month: 10, day: 30 },
        HolidayRule::OneOff { year: 2004, month: 6, day: 11 },
    ];
    assert(rules@ =~= us_government_bond_rules());
    StaticCalendar { name: "US Government Bond", weekend: [Weekday::Sat, Weekday::Sun], rules }
}

} // verus!
