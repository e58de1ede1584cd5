//! United States market calendars (Settlement, NYSE, Fed, etc.).

pub mod fed;
pub mod gov_bond;
pub mod nerc;
pub mod nyse;
pub mod settlement;
pub mod sofr;

use vstd::prelude::*;
use crate::calendar::Calendar;
use crate::civil::CivilDate;
use crate::date::Date;
use crate::static_calendar::RuleSet;
use crate::weekday::Weekday;
use fed::{us_fed, us_fed_model};
use gov_bond::{us_government_bond, us_government_bond_model};
use nerc::{us_nerc, us_nerc_model};
use nyse::{us_nyse, us_nyse_model};
use settlement::{us_settlement, us_settlement_model};
use sofr::{us_sofr, us_sofr_model};

verus! {

/// US market variants supported by `UnitedStates`.
#[derive(Debug, Clone, Copy)]
pub enum USMarket {
    Settlement,
    LiborImpact,
    NYSE,
    GovernmentBond,
    SOFR,
    NERC,
    FederalReserve,
}

/// United States calendar wrapper.
/// Uses underlying `StaticCalendar`s and adds a bit of market-specific logic.
#[derive(Debug, Clone, Copy)]
pub struct UnitedStates {
    pub market: USMarket,
}

/// The first year in which an Independence Day that falls on a weekend no
/// longer closes the Libor market on the weekday beside it.
pub const LIBOR_IMPACT_SINCE: i32 = 2015;

/// The days that the Libor market keeps open although the settlement
/// calendar may observe Independence Day on them: from 2015 on, a Friday
/// July 3 and a Monday July 5.
pub open spec fn is_beside_independence_day(date: CivilDate) -> bool {
    &&& date.year >= LIBOR_IMPACT_SINCE
    &&& date.month == 7
    &&& {
        ||| date.day == 5 && date.weekday() == Weekday::Mon
        ||| date.day == 3 && date.weekday() == Weekday::Fri
    }
}

impl UnitedStates {
    /// The calendar of `market`.
    pub fn new(market: USMarket) -> (calendar: Self)
        ensures
            calendar.market == market,
    {
        Self { market }
    }

    /// The weekend and the rules behind this market. The Libor market has
    /// those of the settlement calendar.
    pub open spec fn model(self) -> RuleSet {
        match self.market {
            USMarket::Settlement => us_settlement_model(),
            USMarket::LiborImpact => us_settlement_model(),
            USMarket::NYSE => us_nyse_model(),
            USMarket::GovernmentBond => us_government_bond_model(),
            USMarket::SOFR => us_sofr_model(),
            USMarket::NERC => us_nerc_model(),
            USMarket::FederalReserve => us_fed_model(),
        }
    }
}

impl Calendar for UnitedStates {
    /// A business day of the market's weekend and rules; for the Libor
    /// market, also each day beside Independence Day that it keeps open,
    /// whatever the rules say of it.
    open spec fn business_day(&self, date: CivilDate) -> bool {
        ||| self.market is LiborImpact && is_beside_independence_day(date)
        ||| self.model().is_business_day(date)
    }

    open spec fn weekend(&self, date: CivilDate) -> bool {
        date.weekday().is_saturday_or_sunday()
    }

    proof fn business_days_are_not_weekends(&self, date: CivilDate) {
    }

    fn is_business_day(&self, date: Date) -> (open: bool) {
        match self.market {
            USMarket::Settlement => us_settlement().is_business_day(date),
            USMarket::LiborImpact => {
                // LiborImpact: same as Settlement, but since 2015
                // Independence Day only impacts Libor if the actual
                // July 4 falls on a weekday.
                let m = date.month();
                let d = date.day();
                let y = date.year();
                let w = date.weekday();

                // if it's the Friday/Monday *around* July 4 and >=2015,
                // treat as business day even if Settlement says holiday.
                if y >= LIBOR_IMPACT_SINCE && m == 7 && ((d == 5 && w == Weekday::Mon) || (d == 3
                    && w == Weekday::Fri)) {
                    return true;
                }
                us_settlement().is_business_day(date)
            },
            USMarket::NYSE => us_nyse().is_business_day(date),
            USMarket::GovernmentBond => us_government_bond().is_business_day(date),
            USMarket::SOFR => us_sofr().is_business_day(date),
            USMarket::NERC => us_nerc().is_business_day(date),
            USMarket::FederalReserve => us_fed().is_business_day(date),
        }
    }

    fn is_weekend(&self, date: Date) -> (rest: bool) {
        let w = date.weekday();
        w == Weekday::Sat || w == Weekday::Sun
    }
}

/// The exception of the Libor market only opens days: it takes no business
/// day of the settlement calendar away, it leaves the weekend as it is, and
/// it opens every day beside Independence Day that it names.
pub proof fn lemma_libor_impact_only_opens_days(
    libor: UnitedStates,
    settlement: UnitedStates,
    date: CivilDate,
)
    requires
        libor.market is LiborImpact,
        settlement.market is Settlement,
        date.is_valid(),
    ensures
        settlement.business_day(date) ==> libor.business_day(date),
        libor.weekend(date) == settlement.weekend(date),
        is_beside_independence_day(date) ==> libor.business_day(date),
        libor.business_day(date) ==> is_beside_independence_day(date) || settlement.business_day(
            date,
        ),
{
}

} // verus!
