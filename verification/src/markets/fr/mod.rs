//! French market calendars.

pub mod exchange;
pub mod settlement;

use vstd::prelude::*;
use crate::calendar::Calendar;
use crate::civil::CivilDate;
use crate::date::Date;
use crate::static_calendar::RuleSet;
use crate::weekday::Weekday;
use exchange::{fr_exchange, fr_exchange_model};
use settlement::{fr_settlement, fr_settlement_model};

verus! {

/// France market variants: Settlement and Exchange.
#[derive(Debug, Clone, Copy)]
pub enum FRMarket {
    Settlement,
    Exchange,
}

/// France calendar wrapper.
#[derive(Debug, Clone, Copy)]
pub struct France {
    pub market: FRMarket,
}

impl France {
    /// The calendar of `market`.
    pub fn new(market: FRMarket) -> (calendar: Self)
        ensures
            calendar.market == market,
    {
        Self { market }
    }

    /// The weekend and the rules behind this market.
    pub open spec fn model(self) -> RuleSet {
        match self.market {
            FRMarket::Settlement => fr_settlement_model(),
            FRMarket::Exchange => fr_exchange_model(),
        }
    }
}

impl Calendar for France {
    open spec fn business_day(&self, date: CivilDate) -> bool {
        self.model().is_business_day(date)
    }

    open spec fn weekend(&self, date: CivilDate) -> bool {
        date.weekday().is_saturday_or_sunday()
    }

    proof fn business_days_are_not_weekends(&self, date: CivilDate) {
    }

    fn is_business_day(&self, date: Date) -> (open: bool) {
        match self.market {
            FRMarket::Settlement => fr_settlement().is_business_day(date),
            FRMarket::Exchange => fr_exchange().is_business_day(date),
        }
    }

    fn is_weekend(&self, date: Date) -> (rest: bool) {
        let w = date.weekday();
        w == Weekday::Sat || w == Weekday::Sun
    }
}

} // verus!
