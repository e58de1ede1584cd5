//! Year-range helper utilities.

use vstd::prelude::*;

verus! {

/// A closed range of years used to constrain holiday rules.
#[derive(Debug, Clone, Copy, PartialEq, Eq, Structural)]
pub struct YearRange {
    pub start: i32,
    pub end: i32,
}

impl YearRange {
    /// Whether `year` lies in the range.
    pub open spec fn covers(self, year: int) -> bool {
        self.start <= year <= self.end
    }

    /// Create a new year range `[start, end]`.
    pub fn new(start: i32, end: i32) -> (range: Self)
        ensures
            range.start == start,
            range.end == end,
    {
        Self { start, end }
    }

    /// Returns `true` if the given year is within this range.
    pub fn contains(&self, year: i32) -> (inside: bool)
        ensures
            inside == self.covers(year as int),
    {
        year >= self.start && year <= self.end
    }
}

} // verus!
