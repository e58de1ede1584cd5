//! The calendars of the markets, by country.

pub mod fr;
pub mod uk;
pub mod us;
