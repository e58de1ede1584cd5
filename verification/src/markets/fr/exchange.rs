//! The calendar of the Paris stock exchange.

use vstd::prelude::*;
use crate::rules::{HolidayRule, YearRange, EASTER_MONDAY, GOOD_FRIDAY};
use crate::static_calendar::{RuleSet, StaticCalendar};
use crate::weekday::Weekday;

verus! {

/// The holidays of the Paris exchange.
pub open spec fn fr_exchange_rules() -> Seq<HolidayRule> {
    seq![
        // New Year's Day, January 1st
        HolidayRule::Fixed { month: 1, day: 1, years: YearRange::always() },
        // Good Friday (3 days before Western Easter Monday)
        HolidayRule::EasterOffset {
            western: true,
            offset: GOOD_FRIDAY,
            years: YearRange::always(),
        },
        // Easter Monday
        HolidayRule::EasterOffset {
            western: true,
            offset: EASTER_MONDAY,
            years: YearRange::always(),
        },
        // Labour Day, May 1st
        HolidayRule::Fixed { month: 5, day: 1, years: YearRange::always() },
        // Christmas Eve, December 24th
        HolidayRule::Fixed { month: 12, day: 24, years: YearRange::always() },
        // Christmas Day, December 25th
        HolidayRule::Fixed { month: 12, day: 25, years: YearRange::always() },
        // Boxing Day, December 26th
        HolidayRule::Fixed { month: 12, day: 26, years: YearRange::always() },
        // New Year's Eve, December 31st
        HolidayRule::Fixed { month: 12, day: 31, years: YearRange::always() },
    ]
}

/// What decides the answers of the Paris exchange calendar: a weekend of Saturday and
/// Sunday, and the rules above.
pub open spec fn fr_exchange_model() -> RuleSet {
    RuleSet { weekend: (Weekday::Sat, Weekday::Sun), rules: fr_exchange_rules() }
}

/// The Paris exchange calendar.
pub fn fr_exchange() -> (calendar: StaticCalendar)
    ensures
        calendar@ == fr_exchange_model(),
        calendar.name@ == "France Exchange"@,
{
    let rules = vec![
        HolidayRule::Fixed { month: 1, day: 1, years: YearRange::always() },
        HolidayRule::EasterOffset {
            western: true,
            offset: GOOD_FRIDAY,
            years: YearRange::always(),
        },
        HolidayRule::EasterOffset {
            western: true,
            offset: EASTER_MONDAY,
            years: YearRange::always(),
        },
        HolidayRule::Fixed { month: 5, day: 1, years: YearRange::always() },
        HolidayRule::Fixed { month: 12, day: 24, years: YearRange::always() },
        HolidayRule::Fixed { month: 12, day: 25, years: YearRange::always() },
        HolidayRule::Fixed { month: 12, day: 26, years: YearRange::always() },
        HolidayRule::Fixed { month: 12, day: 31, years: YearRange::always() },
    ];
    assert(rules@ =~= fr_exchange_rules());
    StaticCalendar { name: "France Exchange", weekend: [Weekday::Sat, Weekday::Sun], rules }
}

} // verus!
