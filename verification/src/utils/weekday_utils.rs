//! Weekday-related helper functions.

use vstd::prelude::*;
use crate::weekday::Weekday;

verus! {

/// Bitmask flag for Saturday in a weekend configuration.
pub const SATURDAY: u8 = 1;

/// Bitmask flag for Sunday in a weekend configuration.
pub const SUNDAY: u8 = 2;

/// The flag of `weekday`: that of Saturday or of Sunday, and no flag (0) for
/// the other five days.
pub open spec fn mask_of(weekday: Weekday) -> u8 {
    match weekday {
        Weekday::Sat => SATURDAY,
        Weekday::Sun => SUNDAY,
        _ => 0,
    }
}

/// Returns a bitmask flag corresponding to the given weekday.
pub fn weekday_mask(weekday: Weekday) -> (mask: u8)
    ensures
        mask == mask_of(weekday),
        mask != 0 <==> weekday.is_saturday_or_sunday(),
{
    match weekday {
        Weekday::Mon => 0,
        Weekday::Tue => 0,
        Weekday::Wed => 0,
        Weekday::Thu => 0,
        Weekday::Fri => 0,
        Weekday::Sat => SATURDAY,
        Weekday::Sun => SUNDAY,
    }
}

} // verus!
