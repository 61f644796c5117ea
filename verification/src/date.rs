//! Calendar dates as plain year/month/day values.
//!
//! The simulation only ever reads a date's components: birthday checks
//! compare month and day, contract expiration compares whole dates
//! chronologically. Both are stated here over the three fields directly.

use vstd::prelude::*;

verus! {

/// A civil calendar date. Ordering is chronological, which for
/// year/month/day triples of real dates is the lexicographic order on the
/// fields.
#[derive(Clone, Copy, Debug, PartialEq, Eq, Structural)]
pub struct Date {
    pub year: i32,
    pub month: u8,
    pub day: u8,
}

impl Date {
    /// A date with a month of a real calendar (1 to 12) and a day a real
    /// month can hold (1 to 31).
    pub open spec fn wf(self) -> bool {
        &&& 1 <= self.month <= 12
        &&& 1 <= self.day <= 31
    }

    /// Chronological `self <= other`, lexicographic on (year, month, day).
    pub open spec fn spec_le(self, other: Date) -> bool {
        ||| self.year < other.year
        ||| (self.year == other.year && self.month < other.month)
        ||| (self.year == other.year && self.month == other.month && self.day <= other.day)
    }

    /// Chronological comparison of two dates.
    pub fn le(self, other: Date) -> (r: bool)
        ensures
            r == self.spec_le(other),
    {
        if self.year != other.year {
            self.year < other.year
        } else if self.month != other.month {
            self.month < other.month
        } else {
            self.day <= other.day
        }
    }
}

/// Month and day coincide; the year is ignored. This is what makes a
/// simulation date an anniversary of a birth date.
pub open spec fn is_birthday_of(birth_date: Date, date: Date) -> bool {
    birth_date.month == date.month && birth_date.day == date.day
}

/// Date helpers shared across the simulation.
pub struct DateUtils;

impl DateUtils {
    /// True exactly when `date` falls on the anniversary of `birth_date`:
    /// same month and same day of month, whatever the year.
    pub fn is_birthday(birth_date: Date, date: Date) -> (r: bool)
        ensures
            r == is_birthday_of(birth_date, date),
    {
        birth_date.month == date.month && birth_date.day == date.day
    }
}

/// Relies on `chrono::Utc::now` and the `chrono::Datelike` accessors
/// `year`, `month` and `day`: the current civil date of the host clock,
/// whose month is in 1..=12 and whose day of month is in 1..=31.
/// Nothing more can be promised of a wall clock.
#[verifier::external_body]
pub(crate) fn current_date() -> (d: Date)
    ensures
        d.wf(),
{
    let now = chrono::Utc::now();
    Date {
        year: chrono::Datelike::year(&now),
        month: chrono::Datelike::month(&now) as u8,
        day: chrono::Datelike::day(&now) as u8,
    }
}

} // verus!
