//! The date of Easter Monday, on which the movable holidays hang.
//!
//! Both functions give the day of the year (1 for January 1) of Easter
//! Monday, counted in the Gregorian calendar, for the years from
//! [`FIRST_YEAR`] to [`LAST_YEAR`]. Outside these years nothing is promised
//! and the functions may not be called.

pub mod orthodox;
pub mod western;

pub use orthodox::OrthodoxEasterMondayTable;
pub use western::EasterMondayTable as WesternEasterMondayTable;

use vstd::prelude::*;

verus! {

/// The first year for which Easter is tabulated.
pub const FIRST_YEAR: i32 = 1901;

/// The last year for which Easter is tabulated.
pub const LAST_YEAR: i32 = 2199;

/// Whether Easter is tabulated for `year`.
pub open spec fn is_supported_year(year: int) -> bool {
    FIRST_YEAR <= year <= LAST_YEAR
}

/// Whether Easter is tabulated for `year`.
pub fn supports_year(year: i32) -> (supported: bool)
    ensures
        supported == is_supported_year(year as int),
{
    FIRST_YEAR <= year && year <= LAST_YEAR
}

/// Day-of-year (1-based) of Western Easter Monday for `year` in 1901–2199.
pub fn western_easter_monday(year: i32) -> (ordinal: u32)
    requires
        is_supported_year(year as int),
    ensures
        ordinal == western::easter_monday_ordinal(year as int),
{
    WesternEasterMondayTable::western(year)
}

/// Day-of-year (1-based) of Orthodox Easter Monday for `year` in 1901–2199.
pub fn orthodox_easter_monday(year: i32) -> (ordinal: u32)
    requires
        is_supported_year(year as int),
    ensures
        ordinal == orthodox::easter_monday_ordinal(year as int),
{
    OrthodoxEasterMondayTable::orthodox(year)
}

} // verus!
