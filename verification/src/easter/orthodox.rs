//! Easter as the Orthodox churches keep it: by the Julian calendar and its
//! reckoning of the moon, named here by its Gregorian date.

use vstd::prelude::*;
use crate::civil::{days_before_year, is_leap_year};
use crate::easter::is_supported_year;

verus! {

/// Day number of the Julian calendar's March 21, in the count in which day 1
/// is the Gregorian January 1 of year 1. The Julian calendar has a leap year
/// every fourth year without exception, and its January 1 of year 1 lies two
/// days before the Gregorian one.
pub open spec fn julian_march_21(year: int) -> int {
    let leap_day: int = if year % 4 == 0 {
        1
    } else {
        0
    };
    365 * (year - 1) + (year - 1) / 4 - 2 + 59 + leap_day + 21
}

/// Days from the Julian March 21 to the paschal full moon, which comes
/// round every 19 years.
#[verifier::opaque]
pub open spec fn paschal_full_moon(year: int) -> int {
    (19 * (year % 19) + 15) % 30
}

/// Day number of Easter Sunday: the first Sunday after the paschal full
/// moon. (The day numbers that 7 divides are the Sundays.)
pub open spec fn easter_sunday_day_number(year: int) -> int {
    let moon = julian_march_21(year) + paschal_full_moon(year);
    moon + 7 - moon % 7
}

/// Day of the Gregorian year of Easter Monday, the day after Easter Sunday.
pub open spec fn easter_monday_ordinal(year: int) -> int {
    easter_sunday_day_number(year) + 1 - days_before_year(year)
}

/// Easter Sunday is a Sunday, and falls between March 22 and April 25 of the
/// Julian calendar.
pub proof fn lemma_easter_sunday(year: int)
    ensures
        easter_sunday_day_number(year) % 7 == 0,
        julian_march_21(year) + 1 <= easter_sunday_day_number(year) <= julian_march_21(year) + 35,
{
    reveal(paschal_full_moon);
}

/// In the years for which Easter is tabulated, Easter Monday has a day of
/// the Gregorian year from 95 to 132.
pub proof fn lemma_easter_monday_in_year(year: int)
    requires
        is_supported_year(year),
    ensures
        95 <= easter_monday_ordinal(year) <= 132,
{
    reveal(paschal_full_moon);
    lemma_julian_march_21_in_year(year);
}

/// The step of the reckoning that finds the weekday: `e` days after the full
/// moon comes a Saturday.
proof fn lemma_saturday(year: int, moon: int, d: int, e: int)
    requires
        moon == julian_march_21(year) + d,
        e == (2 * (year % 4) + 4 * (year % 7) - d + 34) % 7,
    ensures
        (moon + e) % 7 == 6,
{
    let a = year % 4;
    let q = year / 4;
    let s = year / 7;
    let r = (2 * a + 4 * (year % 7) - d + 34) / 7;
    assert(year == 4 * q + a);
    assert(year % 7 == year - 7 * s);
    assert(e == 2 * a + 4 * (year % 7) - d + 34 - 7 * r);
    assert((year - 1) / 4 + (if a == 0 { 1int } else { 0int }) == q);
    assert(moon + e == 7 * (211 * q + 53 * a - 37 - 4 * s - r) + 6);
}

/// The first Sunday after the full moon `moon`, when a Saturday comes `e`
/// days after it.
proof fn lemma_first_sunday(moon: int, e: int)
    requires
        0 <= e < 7,
        (moon + e) % 7 == 6,
    ensures
        moon + 7 - moon % 7 == moon + e + 1,
{
    let week = (moon + e) / 7;
    assert(moon == 7 * week + (6 - e));
}

/// How far the Julian March 21 lies into the Gregorian year.
proof fn lemma_julian_march_21_in_year(year: int)
    ensures
        julian_march_21(year) - days_before_year(year) == 78 + year / 100 - year / 400 + if
            is_leap_year(year) {
            1int
        } else {
            0int
        },
{
}

/// Orthodox Easter Monday by year. The days are reckoned when asked for,
/// not stored.
pub struct OrthodoxEasterMondayTable;

impl OrthodoxEasterMondayTable {
    /// Day-of-year (1-based) of Orthodox Easter Monday for `year` in
    /// 1901–2199.
    pub fn orthodox(year: i32) -> (ordinal: u32)
        requires
            is_supported_year(year as int),
        ensures
            ordinal == easter_monday_ordinal(year as int),
    {
        let y: u32 = year as u32;
        let a: u32 = y % 4;
        let b: u32 = y % 7;
        let c: u32 = y % 19;
        let d: u32 = (19 * c + 15) % 30;
        let e: u32 = (2 * a + 4 * b + 34 - d) % 7;
        let calendars_apart: u32 = y / 100 - y / 400 - 2;
        let leap: u32 = if a == 0 && (y % 100 != 0 || y % 400 == 0) {
            1
        } else {
            0
        };
        proof {
            reveal(paschal_full_moon);
            let year = year as int;
            let moon = julian_march_21(year) + paschal_full_moon(year);
            lemma_saturday(year, moon, d as int, e as int);
            lemma_julian_march_21_in_year(year);
            lemma_first_sunday(moon, e as int);
        }
        82 + leap + d + e + calendars_apart
    }
}

} // verus!
