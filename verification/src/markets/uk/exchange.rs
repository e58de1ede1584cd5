//! The calendar of the London Stock Exchange: the bank holidays, with the
//! special days of single years and the bank holidays that were moved for
//! them.

use vstd::prelude::*;
use crate::rules::{HolidayRule, YearRange, EASTER_MONDAY, GOOD_FRIDAY, LAST};
use crate::static_calendar::{RuleSet, StaticCalendar};
use crate::weekday::Weekday;

verus! {

/// The holidays of the London Stock Exchange.
pub open spec fn uk_exchange_rules() -> Seq<HolidayRule> {
    seq![
        // New Year's Day
        HolidayRule::WeekendAdjustedFixed { month: 1, day: 1, years: YearRange::always() },
        // Good Friday
        HolidayRule::EasterOffset {
            western: true,
            offset: GOOD_FRIDAY,
            years: YearRange::always(),
        },
        // Easter Monday
        HolidayRule::EasterOffset {
            western: true,
            offset: EASTER_MONDAY,
            years: YearRange::always(),
        },
        // Early May Bank Holiday (1st Monday in May), but for the VE Day years
        HolidayRule::NthWeekday {
            month: 5,
            weekday: Weekday::Mon,
            nth: 1,
            years: YearRange::between(i32::MIN, 1994),
        },
        HolidayRule::NthWeekday {
            month: 5,
            weekday: Weekday::Mon,
            nth: 1,
            years: YearRange::between(1996, 2019),
        },
        HolidayRule::NthWeekday {
            month: 5,
            weekday: Weekday::Mon,
            nth: 1,
            years: YearRange::from(2021),
        },
        // Early May Bank Holiday moved to VE Day, May 8 (1995, 2020)
        HolidayRule::OneOff { year: 1995, month: 5, day: 8 },
        HolidayRule::OneOff { year: 2020, month: 5, day: 8 },
        // Spring Bank Holiday (last Monday in May), but for the Jubilee years
        HolidayRule::NthWeekday {
            month: 5,
            weekday: Weekday::Mon,
            nth: LAST,
            years: YearRange::between(i32::MIN, 2001),
        },
        HolidayRule::NthWeekday {
            month: 5,
            weekday: Weekday::Mon,
            nth: LAST,
            years: YearRange::between(2003, 2011),
        },
        HolidayRule::NthWeekday {
            month: 5,
            weekday: Weekday::Mon,
            nth: LAST,
            years: YearRange::between(2013, 2021),
        },
        HolidayRule::NthWeekday {
            month: 5,
            weekday: Weekday::Mon,
            nth: LAST,
            years: YearRange::from(2023),
        },
        // 2002 Golden Jubilee: 3-4 June (Mon-Tue)
        HolidayRule::OneOff { year: 2002, month: 6, day: 3 },
        HolidayRule::OneOff { year: 2002, month: 6, day: 4 },
        // 2012 Diamond Jubilee: 4-5 June (Mon-Tue)
        HolidayRule::OneOff { year: 2012, month: 6, day: 4 },
        HolidayRule::OneOff { year: 2012, month: 6, day: 5 },
        // 2022 Platinum Jubilee: 2-3 June (Thu-Fri)
        HolidayRule::OneOff { year: 2022, month: 6, day: 2 },
        HolidayRule::OneOff { year: 2022, month: 6, day: 3 },
        // Summer Bank Holiday (last Monday in August)
        HolidayRule::NthWeekday {
            month: 8,
            weekday: Weekday::Mon,
            nth: LAST,
            years: YearRange::always(),
        },
        // Royal Wedding, 29 April 2011
        HolidayRule::OneOff { year: 2011, month: 4, day: 29 },
        // Queen's Funeral, 19 September 2022
        HolidayRule::OneOff { year: 2022, month: 9, day: 19 },
        // Coronation Bank Holiday, 8 May 2023
        HolidayRule::OneOff { year: 2023, month: 5, day: 8 },
        // Christmas Day
        HolidayRule::WeekendAdjustedFixed { month: 12, day: 25, years: YearRange::always() },
        // Boxing Day
        HolidayRule::WeekendAdjustedFixed { month: 12, day: 26, years: YearRange::always() },
        // December 31st, 1999 only
        HolidayRule::OneOff { year: 1999, month: 12, day: 31 },
    ]
}

/// What decides the answers of the London Stock Exchange calendar: a weekend of Saturday and
/// Sunday, and the rules above.
pub open spec fn uk_exchange_model() -> RuleSet {
    RuleSet { weekend: (Weekday::Sat, Weekday::Sun), rules: uk_exchange_rules() }
}

/// The London Stock Exchange calendar.
pub fn uk_exchange() -> (calendar: StaticCalendar)
    ensures
        calendar@ == uk_exchange_model(),
        calendar.name@ == "UK Exchange"@,
{
    let rules = vec![
        HolidayRule::WeekendAdjustedFixed { month: 1, day: 1, years: YearRange::always() },
        HolidayRule::EasterOffset {
            western: true,
            offset: GOOD_FRIDAY,
            years: YearRange::always(),
        },
        HolidayRule::EasterOffset {
            western: true,
            offset: EASTER_MONDAY,
            years: YearRange::always(),
        },
        HolidayRule::NthWeekday {
            month: 5,
            weekday: Weekday::Mon,
            nth: 1,
            years: YearRange::between(i32::MIN, 1994),
        },
        HolidayRule::NthWeekday {
            month: 5,
            weekday: Weekday::Mon,
            nth: 1,
            years: YearRange::between(1996, 2019),
        },
        HolidayRule::NthWeekday {
            month: 5,
            weekday: Weekday::Mon,
            nth: 1,
            years: YearRange::from(2021),
        },
        HolidayRule::OneOff { year: 1995, month: 5, day: 8 },
        HolidayRule::OneOff { year: 2020, month: 5, day: 8 },
        HolidayRule::NthWeekday {
            month: 5,
            weekday: Weekday::Mon,
            nth: LAST,
            years: YearRange::between(i32::MIN, 2001),
        },
        HolidayRule::NthWeekday {
            month: 5,
            weekday: Weekday::Mon,
            nth: LAST,
            years: YearRange::between(2003, 2011),
        },
        HolidayRule::NthWeekday {
            month: 5,
            weekday: Weekday::Mon,
            nth: LAST,
            years: YearRange::between(2013, 2021),
        },
        HolidayRule::NthWeekday {
            month: 5,
            weekday: Weekday::Mon,
            nth: LAST,
            years: YearRange::from(2023),
        },
        HolidayRule::OneOff { year: 2002, month: 6, day: 3 },
        HolidayRule::OneOff { year: 2002, month: 6, day: 4 },
        HolidayRule::OneOff { year: 2012, month: 6, day: 4 },
        HolidayRule::OneOff { year: 2012, month: 6, day: 5 },
        HolidayRule::OneOff { year: 2022, month: 6, day: 2 },
        HolidayRule::OneOff { year: 2022, month: 6, day: 3 },
        HolidayRule::NthWeekday {
            month: 8,
            weekday: Weekday::Mon,
            nth: LAST,
            years: YearRange::always(),
        },
        HolidayRule::OneOff { year: 2011, month: 4, day: 29 },
        HolidayRule::OneOff { year: 2022, month: 9, day: 19 },
        HolidayRule::OneOff { year: 2023, month: 5, day: 8 },
        HolidayRule::WeekendAdjustedFixed { month: 12, day: 25, years: YearRange::always() },
        HolidayRule::WeekendAdjustedFixed { month: 12, day: 26, years: YearRange::always() },
        HolidayRule::OneOff { year: 1999, month: 12, day: 31 },
    ];
    assert(rules@ =~= uk_exchange_rules());
    StaticCalendar { name: "UK Exchange", weekend: [Weekday::Sat, Weekday::Sun], rules }
}

} // verus!
