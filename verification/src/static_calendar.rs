//! A calendar given as data: a weekend and a list of holiday rules.

use vstd::prelude::*;
use crate::calendar::Calendar;
use crate::civil::CivilDate;
use crate::date::Date;
use crate::rules::HolidayRule;
use crate::weekday::Weekday;

verus! {

/// What decides the answers of a [`StaticCalendar`]: its two weekend days and
/// its rules, in order.
pub struct RuleSet {
    pub weekend: (Weekday, Weekday),
    pub rules: Seq<HolidayRule>,
}

impl RuleSet {
    /// Whether `date` falls on one of the two weekend days.
    pub open spec fn is_weekend(self, date: CivilDate) -> bool {
        date.weekday() == self.weekend.0 || date.weekday() == self.weekend.1
    }

    /// Whether one of the rules fires on `date`, in the year of `date`.
    pub open spec fn is_holiday(self, date: CivilDate) -> bool {
        exists|i: int| 0 <= i < self.rules.len() && #[trigger] self.rules[i].matches(date, date.year)
    }

    /// Whether `date` is neither a weekend day nor a day on which a rule
    /// fires.
    pub open spec fn is_business_day(self, date: CivilDate) -> bool {
        !self.is_weekend(date) && !self.is_holiday(date)
    }
}

/// Simple static calendar over a set of `HolidayRule`s.
#[derive(Debug)]
pub struct StaticCalendar {
    pub name: &'static str,
    pub weekend: [Weekday; 2],
    pub rules: Vec<HolidayRule>,
}

impl View for StaticCalendar {
    type V = RuleSet;

    /// The name is left out: it decides nothing.
    open spec fn view(&self) -> RuleSet {
        RuleSet { weekend: (self.weekend[0], self.weekend[1]), rules: self.rules@ }
    }
}

impl StaticCalendar {
    /// Returns `true` if the given date is considered a weekend in this calendar.
    pub fn is_weekend(&self, date: Date) -> (rest: bool)
        ensures
            rest == self@.is_weekend(date@),
    {
        let wd = date.weekday();
        wd == self.weekend[0] || wd == self.weekend[1]
    }

    /// Returns `true` if any of this calendar's rules marks `date` as a holiday.
    pub fn is_holiday(&self, date: Date) -> (fires: bool)
        ensures
            fires == self@.is_holiday(date@),
    {
        let y = date.year();
        let mut i: usize = 0;
        while i < self.rules.len()
            invariant
                i <= self.rules.len(),
                y == date@.year,
                forall|j: int| 0 <= j < i ==> !(#[trigger] self.rules@[j]).matches(date@, y as int),
            decreases self.rules.len() - i,
        {
            if self.rules[i].is_holiday(date, y) {
                assert(self@.rules[i as int].matches(date@, date@.year));
                return true;
            }
            i += 1;
        }
        false
    }

    /// Returns `true` if `date` is a business day (non-weekend, non-holiday).
    pub fn is_business_day(&self, date: Date) -> (open: bool)
        ensures
            open == self@.is_business_day(date@),
    {
        !self.is_weekend(date) && !self.is_holiday(date)
    }
}

impl Calendar for StaticCalendar {
    open spec fn business_day(&self, date: CivilDate) -> bool {
        self@.is_business_day(date)
    }

    open spec fn weekend(&self, date: CivilDate) -> bool {
        self@.is_weekend(date)
    }

    proof fn business_days_are_not_weekends(&self, date: CivilDate) {
    }

    fn is_business_day(&self, date: Date) -> (open: bool) {
        StaticCalendar::is_business_day(self, date)
    }

    fn is_weekend(&self, date: Date) -> (rest: bool) {
        StaticCalendar::is_weekend(self, date)
    }
}

/// The name of a calendar decides nothing: two calendars with the same
/// weekend and the same rules give the same answers.
pub proof fn lemma_name_decides_nothing(first: StaticCalendar, second: StaticCalendar, date: CivilDate)
    requires
        first.weekend == second.weekend,
        first.rules@ == second.rules@,
    ensures
        first@.is_weekend(date) == second@.is_weekend(date),
        first@.is_holiday(date) == second@.is_holiday(date),
        first@.is_business_day(date) == second@.is_business_day(date),
{
}

/// The order of the rules decides nothing: two rule sets with the same
/// weekend, each of which holds every rule of the other, give the same
/// answers.
pub proof fn lemma_rule_order_decides_nothing(first: RuleSet, second: RuleSet, date: CivilDate)
    requires
        first.weekend == second.weekend,
        forall|rule: HolidayRule| first.rules.contains(rule) <==> second.rules.contains(rule),
    ensures
        first.is_weekend(date) == second.is_weekend(date),
        first.is_holiday(date) == second.is_holiday(date),
        first.is_business_day(date) == second.is_business_day(date),
{
    lemma_rules_of_other(first, second, date);
    lemma_rules_of_other(second, first, date);
}

/// A rule set that holds every rule of another has every holiday of it.
proof fn lemma_rules_of_other(smaller: RuleSet, larger: RuleSet, date: CivilDate)
    requires
        forall|rule: HolidayRule| smaller.rules.contains(rule) ==> larger.rules.contains(rule),
    ensures
        smaller.is_holiday(date) ==> larger.is_holiday(date),
{
    if smaller.is_holiday(date) {
        let i = choose|i: int|
            0 <= i < smaller.rules.len() && #[trigger] smaller.rules[i].matches(date, date.year);
        assert(smaller.rules.contains(smaller.rules[i]));
        let j = choose|j: int| 0 <= j < larger.rules.len() && larger.rules[j] == smaller.rules[i];
        assert(larger.rules[j].matches(date, date.year));
    }
}

/// A date is a weekend day, a day on which a rule fires, or a business day;
/// it is a business day exactly when it is neither of the other two.
pub proof fn lemma_business_day_is_what_is_left(rules: RuleSet, date: CivilDate)
    ensures
        rules.is_business_day(date) == (!rules.is_weekend(date) && !rules.is_holiday(date)),
        rules.is_business_day(date) || rules.is_weekend(date) || rules.is_holiday(date),
{
}

} // verus!
