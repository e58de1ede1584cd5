//! The calendar by which payments are settled in the United Kingdom.

use vstd::prelude::*;
use crate::rules::{HolidayRule, YearRange, EASTER_MONDAY, GOOD_FRIDAY, LAST};
use crate::static_calendar::{RuleSet, StaticCalendar};
use crate::weekday::Weekday;

verus! {

/// The holidays of the settlement calendar: the bank holidays, without the
/// special days of single years.
pub open spec fn uk_settlement_rules() -> Seq<HolidayRule> {
    seq![
        // New Year's Day
        HolidayRule::WeekendAdjustedFixed { month: 1, day: 1, years: YearRange::always() },
        // Good Friday (Western Easter Monday - 3)
        HolidayRule::EasterOffset {
            western: true,
            offset: GOOD_FRIDAY,
            years: YearRange::always(),
        },
        // Easter Monday
        HolidayRule::EasterOffset {
            western: true,
            offset: EASTER_MONDAY,
            years: YearRange::always(),
        },
        // Early May Bank Holiday (1st Monday in May)
        HolidayRule::NthWeekday {
            month: 5,
            weekday: Weekday::Mon,
            nth: 1,
            years: YearRange::always(),
        },
        // Spring Bank Holiday (last Monday in May)
        HolidayRule::NthWeekday {
            month: 5,
            weekday: Weekday::Mon,
            nth: LAST,
            years: YearRange::always(),
        },
        // Summer Bank Holiday (last Monday in August)
        HolidayRule::NthWeekday {
            month: 8,
            weekday: Weekday::Mon,
            nth: LAST,
            years: YearRange::always(),
        },
        // Christmas Day
        HolidayRule::WeekendAdjustedFixed { month: 12, day: 25, years: YearRange::always() },
        // Boxing Day
        HolidayRule::WeekendAdjustedFixed { month: 12, day: 26, years: YearRange::always() },
    ]
}

/// What decides the answers of the UK settlement calendar: a weekend of Saturday and
/// Sunday, and the rules above.
pub open spec fn uk_settlement_model() -> RuleSet {
    RuleSet { weekend: (Weekday::Sat, Weekday::Sun), rules: uk_settlement_rules() }
}

/// The UK settlement calendar.
pub fn uk_settlement() -> (calendar: StaticCalendar)
    ensures
        calendar@ == uk_settlement_model(),
        calendar.name@ == "UK Settlement"@,
{
    let rules = vec![
        HolidayRule::WeekendAdjustedFixed { month: 1, day: 1, years: YearRange::always() },
        HolidayRule::EasterOffset {
            western: true,
            offset: GOOD_FRIDAY,
            years: YearRange::always(),
        },
        HolidayRule::EasterOffset {
            western: true,
            offset: EASTER_MONDAY,
            years: YearRange::always(),
        },
        HolidayRule::NthWeekday {
            month: 5,
            weekday: Weekday::Mon,
            nth: 1,
            years: YearRange::always(),
        },
        HolidayRule::NthWeekday {
            month: 5,
            weekday: Weekday::Mon,
            nth: LAST,
            years: YearRange::always(),
        },
        HolidayRule::NthWeekday {
            month: 8,
            weekday: Weekday::Mon,
            nth: LAST,
            years: YearRange::always(),
        },
        HolidayRule::WeekendAdjustedFixed { month: 12, day: 25, years: YearRange::always() },
        HolidayRule::WeekendAdjustedFixed { month: 12, day: 26, years: YearRange::always() },
    ];
    assert(rules@ =~= uk_settlement_rules());
    StaticCalendar { name: "UK Settlement", weekend: [Weekday::Sat, Weekday::Sun], rules }
}

} // verus!
