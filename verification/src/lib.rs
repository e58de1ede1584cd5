//! Business-day calendars for financial markets.
//!
//! A calendar classifies every date as a business day, a weekend day or a
//! holiday. Holidays are described by data: each market owns an ordered list
//! of [`rules::HolidayRule`]s, and a date is a holiday when any of them fires.

pub mod calendar;
pub mod civil;
pub mod date;
pub mod easter;
pub mod markets;
pub mod rules;
pub mod static_calendar;
pub mod utils;
pub mod weekday;

pub use crate::calendar::Calendar;
pub use crate::date::Date;
pub use crate::weekday::Weekday;
