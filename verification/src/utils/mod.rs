//! Small helpers around weekdays and year ranges.

pub mod weekday_utils;
pub mod year_range;
