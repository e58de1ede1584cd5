//! UK market calendars (LSE, UK settlement, etc.).

pub mod exchange;
pub mod settlement;

use vstd::prelude::*;
use crate::calendar::Calendar;
use crate::civil::CivilDate;
use crate::date::Date;
use crate::static_calendar::RuleSet;
use crate::weekday::Weekday;
use exchange::{uk_exchange, uk_exchange_model};
use settlement::{uk_settlement, uk_settlement_model};

verus! {

/// United Kingdom market variants: Settlement, Exchange (LSE-style), and Metals.
#[derive(Debug, Clone, Copy)]
pub enum UKMarket {
    Settlement,
    Exchange,
    Metals,
}

/// United Kingdom calendar wrapper.
#[derive(Debug, Clone, Copy)]
pub struct UnitedKingdom {
    pub market: UKMarket,
}

impl UnitedKingdom {
    /// The calendar of `market`.
    pub fn new(market: UKMarket) -> (calendar: Self)
        ensures
            calendar.market == market,
    {
        Self { market }
    }

    /// The weekend and the rules behind this market. The metals market
    /// keeps the days of the stock exchange.
    pub open spec fn model(self) -> RuleSet {
        match self.market {
            UKMarket::Settlement => uk_settlement_model(),
            UKMarket::Exchange => uk_exchange_model(),
            UKMarket::Metals => uk_exchange_model(),
        }
    }
}

impl Calendar for UnitedKingdom {
    open spec fn business_day(&self, date: CivilDate) -> bool {
        self.model().is_business_day(date)
    }

    open spec fn weekend(&self, date: CivilDate) -> bool {
        date.weekday().is_saturday_or_sunday()
    }

    proof fn business_days_are_not_weekends(&self, date: CivilDate) {
    }

    fn is_business_day(&self, date: Date) -> (open: bool) {
        match self.market {
            UKMarket::Settlement => uk_settlement().is_business_day(date),
            UKMarket::Exchange => uk_exchange().is_business_day(date),
            UKMarket::Metals => uk_exchange().is_business_day(date),
        }
    }

    fn is_weekend(&self, date: Date) -> (rest: bool) {
        let w = date.weekday();
        w == Weekday::Sat || w == Weekday::Sun
    }
}

} // verus!
