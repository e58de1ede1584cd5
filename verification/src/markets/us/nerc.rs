//! NERC: the power market, with a lighter set of holidays.

use vstd::prelude::*;
use crate::rules::{HolidayRule, YearRange, LAST};
use crate::static_calendar::{RuleSet, StaticCalendar};
use crate::weekday::Weekday;

verus! {

/// The holidays of the NERC calendar. The fixed dates are observed on the
/// nearest weekday when they fall on a weekend.
pub open spec fn us_nerc_rules() -> Seq<HolidayRule> {
    seq![
        // New Year's Day
        HolidayRule::WeekendAdjustedFixed { month: 1, day: 1, years: YearRange::always() },
        // Memorial Day (last Monday in May, from 1971)
        HolidayRule::NthWeekday {
            month: 5,
            weekday: Weekday::Mon,
            nth: LAST,
            years: YearRange::from(1971),
        },
        // Independence Day
        HolidayRule::WeekendAdjustedFixed { month: 7, day: 4, years: YearRange::always() },
        // Labor Day (1st Monday in September)
        HolidayRule::NthWeekday {
            month: 9,
            weekday: Weekday::Mon,
            nth: 1,
            years: YearRange::always(),
        },
        // Thanksgiving Day (4th Thursday in November)
        HolidayRule::NthWeekday {
            month: 11,
            weekday: Weekday::Thu,
            nth: 4,
            years: YearRange::always(),
        },
        // Christmas Day
        HolidayRule::WeekendAdjustedFixed { month: 12, day: 25, years: YearRange::always() },
    ]
}

/// What decides the answers of the NERC calendar: a weekend of Saturday and
/// Sunday, and the rules above.
pub open spec fn us_nerc_model() -> RuleSet {
    RuleSet { weekend: (Weekday::Sat, Weekday::Sun), rules: us_nerc_rules() }
}

/// The NERC calendar.
pub fn us_nerc() -> (calendar: StaticCalendar)
    ensures
        calendar@ == us_nerc_model(),
        calendar.name@ == "US NERC"@,
{
    let rules = vec![
        HolidayRule::WeekendAdjustedFixed { month: 1, day: 1, years: YearRange::always() },
        HolidayRule::NthWeekday {
            month: 5,
            weekday: Weekday::Mon,
            nth: LAST,
            years: YearRange::from(1971),
        },
        HolidayRule::WeekendAdjustedFixed { month: 7, day: 4, years: YearRange::always() },
        HolidayRule::NthWeekday {
            month: 9,
            weekday: Weekday::Mon,
            nth: 1,
            years: YearRange::always(),
        },
        HolidayRule::NthWeekday {
            month: 11,
            weekday: Weekday::Thu,
            nth: 4,
            years: YearRange::always(),
        },
        HolidayRule::WeekendAdjustedFixed { month: 12, day: 25, years: YearRange::always() },
    ];
    assert(rules@ =~= us_nerc_rules());
    StaticCalendar { name: "US NERC", weekend: [Weekday::Sat, Weekday::Sun], rules }
}

} // verus!
