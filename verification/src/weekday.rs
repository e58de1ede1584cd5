//! The seven days of the week.

use vstd::prelude::*;

verus! {

/// A day of the week.
#[derive(Debug, Clone, Copy, PartialEq, Eq, Hash, Structural)]
pub enum Weekday {
    Mon,
    Tue,
    Wed,
    Thu,
    Fri,
    Sat,
    Sun,
}

impl Weekday {
    /// Position in the week, counting from Monday as 0.
    pub open spec fn index(self) -> int {
        match self {
            Weekday::Mon => 0,
            Weekday::Tue => 1,
            Weekday::Wed => 2,
            Weekday::Thu => 3,
            Weekday::Fri => 4,
            Weekday::Sat => 5,
            Weekday::Sun => 6,
        }
    }

    /// The weekday at position `index`, counting from Monday as 0. Positions
    /// past 5 all stand for Sunday.
    pub open spec fn at(index: int) -> Weekday {
        if index <= 0 {
            Weekday::Mon
        } else if index == 1 {
            Weekday::Tue
        } else if index == 2 {
            Weekday::Wed
        } else if index == 3 {
            Weekday::Thu
        } else if index == 4 {
            Weekday::Fri
        } else if index == 5 {
            Weekday::Sat
        } else {
            Weekday::Sun
        }
    }

    /// Whether this is one of the two days on which the markets of this crate
    /// rest every week.
    pub open spec fn is_saturday_or_sunday(self) -> bool {
        self == Weekday::Sat || self == Weekday::Sun
    }

    /// `at` undoes `index`.
    pub proof fn lemma_at_index(self)
        ensures
            Weekday::at(self.index()) == self,
            0 <= self.index() <= 6,
    {
    }
}

} // verus!
