//! SOFR: the calendar on which the secured overnight financing rate is
//! published. It keeps the holidays of the government bond market, Good
//! Friday included.

use vstd::prelude::*;
use crate::markets::us::gov_bond::{us_government_bond, us_government_bond_rules};
use crate::rules::HolidayRule;
use crate::static_calendar::{RuleSet, StaticCalendar};
use crate::weekday::Weekday;

verus! {

/// The holidays of the SOFR calendar: those of the government bond market.
pub open spec fn us_sofr_rules() -> Seq<HolidayRule> {
    us_government_bond_rules()
}

/// What decides the answers of the SOFR calendar: a weekend of Saturday and
/// Sunday, and the rules above.
pub open spec fn us_sofr_model() -> RuleSet {
    RuleSet { weekend: (Weekday::Sat, Weekday::Sun), rules: us_sofr_rules() }
}

/// The SOFR calendar.
pub fn us_sofr() -> (calendar: StaticCalendar)
    ensures
        calendar@ == us_sofr_model(),
        calendar.name@ == "US SOFR"@,
{
    let bond = us_government_bond();
    StaticCalendar { name: "US SOFR", weekend: [Weekday::Sat, Weekday::Sun], rules: bond.rules }
}

} // verus!
