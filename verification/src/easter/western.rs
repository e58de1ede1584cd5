//! Easter as the Western churches keep it: by the Gregorian calendar and its
//! reckoning of the moon.

use vstd::prelude::*;
use crate::civil::{civil, days_before_year, is_leap_year, lemma_days_before_month};
use crate::easter::is_supported_year;

verus! {

/// Days from March 21 to the paschal full moon, the ecclesiastical full moon
/// that falls on or after that day.
#[verifier::opaque]
pub open spec fn paschal_full_moon(year: int) -> int {
    let a = year % 19;
    let century = year / 100;
    let leap_days_dropped = century - century / 4;
    let moon_correction = (century - (century + 8) / 25 + 1) / 3;
    let h = (19 * a + leap_days_dropped - moon_correction + 15) % 30;
    if h == 29 || (h == 28 && a >= 11) {
        h - 1
    } else {
        h
    }
}

/// Day number of Easter Sunday: the first Sunday after the paschal full
/// moon. (The day numbers that 7 divides are the Sundays.)
pub open spec fn easter_sunday_day_number(year: int) -> int {
    let moon = civil(year, 3, 21).days_from_ce() + paschal_full_moon(year);
    moon + 7 - moon % 7
}

/// Day of the year of Easter Monday, the day after Easter Sunday.
pub open spec fn easter_monday_ordinal(year: int) -> int {
    easter_sunday_day_number(year) + 1 - days_before_year(year)
}

/// Easter Sunday is a Sunday, and falls between March 22 and April 25: its
/// Monday has a day of the year from 82 to 116, one more in a leap year.
pub proof fn lemma_easter_sunday(year: int)
    ensures
        easter_sunday_day_number(year) % 7 == 0,
        civil(year, 3, 22).days_from_ce() <= easter_sunday_day_number(year) <= civil(
            year,
            4,
            25,
        ).days_from_ce(),
        civil(year, 3, 23).ordinal() <= easter_monday_ordinal(year) <= civil(year, 4, 26).ordinal(),
{
    reveal(paschal_full_moon);
    lemma_days_before_month(year, 3);
    lemma_days_before_month(year, 4);
}

/// Day number of March 21, in terms of the year alone.
proof fn lemma_march_21(year: int)
    ensures
        civil(year, 3, 21).days_from_ce() == 365 * year + year / 4 - year / 100 + year / 400
            - 285,
        civil(year, 3, 21).days_from_ce() - days_before_year(year) == 80 + if is_leap_year(
            year,
        ) {
            1int
        } else {
            0int
        },
{
    lemma_days_before_month(year, 3);
}

/// The same day number, in terms of the century `b`, its quarter `d`, the
/// year of the century `c` and its quarter `i`.
proof fn lemma_march_21_by_century(year: int, b: int, c: int, d: int, i: int)
    requires
        b == year / 100,
        c == year % 100,
        d == b / 4,
        i == c / 4,
    ensures
        civil(year, 3, 21).days_from_ce() == 36524 * b + 365 * c + i + d - 285,
{
    lemma_march_21(year);
    assert(year == 100 * b + c);
    assert(year / 4 == 25 * b + i);
    assert(year / 400 == d);
}

/// The step of the reckoning that finds the weekday: `l` days after the
/// `h`-th day past March 21 comes a Saturday.
proof fn lemma_saturday(march_21: int, b: int, c: int, d: int, e: int, i: int, k: int, h: int, l: int)
    requires
        march_21 == 36524 * b + 365 * c + i + d - 285,
        d == b / 4,
        e == b % 4,
        i == c / 4,
        k == c % 4,
        l == (32 + 2 * e + 2 * i - h - k) % 7,
    ensures
        (march_21 + h + l) % 7 == 6,
{
    let q = (32 + 2 * e + 2 * i - h - k) / 7;
    assert(l == 32 + 2 * e + 2 * i - h - k - 7 * q);
    assert(b == 4 * d + e);
    assert(c == 4 * i + k);
    assert(march_21 + h + l == 7 * (20871 * d + 5218 * e + 209 * i + 52 * k - 37 - q) + 6);
}

/// The first Sunday after the full moon `moon`, from the numbers of the
/// reckoning: `h` and `a` place the moon, `l` finds the weekday, `m` takes a
/// week off where the moon was set a day early.
proof fn lemma_first_sunday(march_21: int, moon: int, a: int, h: int, l: int, m: int)
    requires
        0 <= a < 19,
        0 <= h < 30,
        0 <= l < 7,
        moon == march_21 + if h == 29 || (h == 28 && a >= 11) {
            h - 1
        } else {
            h
        },
        (march_21 + h + l) % 7 == 6,
        m == (a + 11 * h + 22 * l) / 451,
    ensures
        moon + 7 - moon % 7 == march_21 + h + l - 7 * m + 1,
{
    let week = (march_21 + h + l) / 7;
    assert(march_21 + h + l == 7 * week + 6);
    if h == 29 || (h == 28 && a >= 11) {
        if l == 6 {
            assert(moon == 7 * (week - 1) + 6);
            assert(m == 1);
        } else {
            assert(moon == 7 * week + (5 - l));
            assert(m == 0);
        }
    } else {
        assert(moon == 7 * week + (6 - l));
        assert(m == 0);
    }
}

/// Western Easter Monday by year. The days are reckoned when asked for,
/// not stored.
pub struct EasterMondayTable;

impl EasterMondayTable {
    /// Day-of-year (1-based) of Western Easter Monday for `year` in
    /// 1901–2199.
    pub fn western(year: i32) -> (ordinal: u32)
        requires
            is_supported_year(year as int),
        ensures
            ordinal == easter_monday_ordinal(year as int),
    {
        let y: u32 = year as u32;
        let a: u32 = y % 19;
        let b: u32 = y / 100;
        let c: u32 = y % 100;
        let d: u32 = b / 4;
        let e: u32 = b % 4;
        let f: u32 = (b + 8) / 25;
        let g: u32 = (b - f + 1) / 3;
        let h: u32 = (19 * a + b - d - g + 15) % 30;
        let i: u32 = c / 4;
        let k: u32 = c % 4;
        let l: u32 = (32 + 2 * e + 2 * i - h - k) % 7;
        let m: u32 = (a + 11 * h + 22 * l) / 451;
        let leap: u32 = if k == 0 && (c != 0 || e == 0) {
            1
        } else {
            0
        };
        proof {
            reveal(paschal_full_moon);
            let year = year as int;
            let march_21 = civil(year, 3, 21).days_from_ce();
            lemma_march_21(year);
            lemma_march_21_by_century(year, b as int, c as int, d as int, i as int);
            lemma_saturday(
                march_21,
                b as int,
                c as int,
                d as int,
                e as int,
                i as int,
                k as int,
                h as int,
                l as int,
            );
            lemma_first_sunday(
                march_21,
                march_21 + paschal_full_moon(year),
                a as int,
                h as int,
                l as int,
                m as int,
            );
            assert(is_leap_year(year) <==> leap == 1);
        }
        82 + leap + h + l - 7 * m
    }
}

} // verus!
