//! What every calendar offers: three questions about a date, of which
//! exactly one is answered with yes.

use vstd::prelude::*;
use crate::civil::CivilDate;
use crate::date::Date;

verus! {

/// A calendar: it says of every date whether it is a business day, a weekend
/// day or a holiday.
///
/// An implementation says which days are business days and which are weekend
/// days, and shows that no day is both. The holidays are what is left.
pub trait Calendar {
    /// The days on which business is done.
    spec fn business_day(&self, date: CivilDate) -> bool;

    /// The days of the weekly rest.
    spec fn weekend(&self, date: CivilDate) -> bool;

    /// No business is done on a day of the weekly rest.
    proof fn business_days_are_not_weekends(&self, date: CivilDate)
        requires
            date.is_valid(),
        ensures
            self.business_day(date) ==> !self.weekend(date),
    ;

    /// Returns `true` if the given date is a business day in this calendar.
    fn is_business_day(&self, date: Date) -> (open: bool)
        ensures
            open == self.business_day(date@),
    ;

    /// Returns `true` if the given date falls on a weekend for this calendar.
    fn is_weekend(&self, date: Date) -> (rest: bool)
        ensures
            rest == self.weekend(date@),
    ;

    /// Returns `true` if the given date is a holiday (non-weekend non-business-day).
    fn is_holiday(&self, date: Date) -> (holiday: bool)
        ensures
            holiday == (!self.business_day(date@) && !self.weekend(date@)),
    {
        !self.is_business_day(date) && !self.is_weekend(date)
    }
}

/// The holidays of `calendar`: the days that are neither business days nor
/// days of the weekly rest.
pub open spec fn is_holiday_in<C: Calendar + ?Sized>(calendar: &C, date: CivilDate) -> bool {
    !calendar.business_day(date) && !calendar.weekend(date)
}

/// Every date is exactly one of business day, weekend day and holiday: each
/// of the three is what the other two leave over.
pub proof fn lemma_classification_partitions<C: Calendar>(calendar: &C, date: CivilDate)
    requires
        date.is_valid(),
    ensures
        calendar.business_day(date) == (!calendar.weekend(date) && !is_holiday_in(calendar, date)),
        is_holiday_in(calendar, date) == (!calendar.business_day(date) && !calendar.weekend(date)),
        calendar.weekend(date) == (!calendar.business_day(date) && !is_holiday_in(calendar, date)),
{
    calendar.business_days_are_not_weekends(date);
}

/// Asking again changes nothing: the answer to each of the three questions
/// is fixed by the calendar and by the year, month and day of the date, so
/// two dates that agree in these get the same answers.
pub proof fn lemma_same_date_same_answers<C: Calendar>(calendar: &C, first: Date, second: Date)
    requires
        first@ == second@,
    ensures
        calendar.business_day(first@) == calendar.business_day(second@),
        calendar.weekend(first@) == calendar.weekend(second@),
        is_holiday_in(calendar, first@) == is_holiday_in(calendar, second@),
{
}

} // verus!
