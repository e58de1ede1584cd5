//! The calendar by which payments are settled in France.

use vstd::prelude::*;
use crate::rules::{HolidayRule, YearRange, EASTER_MONDAY};
use crate::static_calendar::{RuleSet, StaticCalendar};
use crate::weekday::Weekday;

verus! {

/// The public holidays of France.
pub open spec fn fr_settlement_rules() -> Seq<HolidayRule> {
    seq![
        // New Year's Day
        HolidayRule::Fixed { month: 1, day: 1, years: YearRange::always() },
        // Easter Monday
        HolidayRule::EasterOffset {
            western: true,
            offset: EASTER_MONDAY,
            years: YearRange::always(),
        },
        // Labour Day, May 1st
        HolidayRule::Fixed { month: 5, day: 1, years: YearRange::always() },
        // Armistice 1945, May 8th
        HolidayRule::Fixed { month: 5, day: 8, years: YearRange::always() },
        // Ascension, kept here on the fixed date May 10th
        HolidayRule::Fixed { month: 5, day: 10, years: YearRange::always() },
        // Pentecost, kept here on the fixed date May 21st
        HolidayRule::Fixed { month: 5, day: 21, years: YearRange::always() },
        // National day, July 14th
        HolidayRule::Fixed { month: 7, day: 14, years: YearRange::always() },
        // Assumption, August 15th
        HolidayRule::Fixed { month: 8, day: 15, years: YearRange::always() },
        // All Saints' Day, November 1st
        HolidayRule::Fixed { month: 11, day: 1, years: YearRange::always() },
        // Armistice 1918, November 11th
        HolidayRule::Fixed { month: 11, day: 11, years: YearRange::always() },
        // Christmas Day
        HolidayRule::Fixed { month: 12, day: 25, years: YearRange::always() },
    ]
}

/// What decides the answers of the French settlement calendar: a weekend of Saturday and
/// Sunday, and the rules above.
pub open spec fn fr_settlement_model() -> RuleSet {
    RuleSet { weekend: (Weekday::Sat, Weekday::Sun), rules: fr_settlement_rules() }
}

/// The French settlement calendar.
pub fn fr_settlement() -> (calendar: StaticCalendar)
    ensures
        calendar@ == fr_settlement_model(),
        calendar.name@ == "France Settlement"@,
{
    let rules = vec![
        HolidayRule::Fixed { month: 1, day: 1, years: YearRange::always() },
        HolidayRule::EasterOffset {
            western: true,
            offset: EASTER_MONDAY,
            years: YearRange::always(),
        },
        HolidayRule::Fixed { month: 5, day: 1, years: YearRange::always() },
        HolidayRule::Fixed { month: 5, day: 8, years: YearRange::always() },
        HolidayRule::Fixed { month: 5, day: 10, years: YearRange::always() },
        HolidayRule::Fixed { month: 5, day: 21, years: YearRange::always() },
        HolidayRule::Fixed { month: 7, day: 14, years: YearRange::always() },
        HolidayRule::Fixed { month: 8, day: 15, years: YearRange::always() },
        HolidayRule::Fixed { month: 11, day: 1, years: YearRange::always() },
        HolidayRule::Fixed { month: 11, day: 11, years: YearRange::always() },
        HolidayRule::Fixed { month: 12, day: 25, years: YearRange::always() },
    ];
    assert(rules@ =~= fr_settlement_rules());
    StaticCalendar { name: "France Settlement", weekend: [Weekday::Sat, Weekday::Sun], rules }
}

} // verus!
