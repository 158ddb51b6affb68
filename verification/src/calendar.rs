//! Calendar days and instants as plain numbers.

use vstd::prelude::*;

verus! {

/// The fixed length of a loan, in days.
pub const LOAN_PERIOD_DAYS: i32 = 14;

/// A calendar day, counted in days from a fixed origin (day 1 is 1 January
/// of year 1 in the proleptic Gregorian calendar).
#[derive(Clone, Copy, Debug, PartialEq, Eq, PartialOrd, Ord, Hash, Structural)]
pub struct Date {
    pub days: i32,
}

/// An instant, in microseconds since the Unix epoch.
#[derive(Clone, Copy, Debug, PartialEq, Eq, PartialOrd, Ord, Hash, Structural)]
pub struct Timestamp {
    pub micros: i64,
}

impl Date {
    /// Whether a loan that starts on this day has a deadline that a `Date` can hold.
    pub open spec fn can_start_loan(self) -> bool {
        self.days + LOAN_PERIOD_DAYS <= i32::MAX
    }

    /// The day on which a loan that starts on this day falls due.
    pub open spec fn deadline(self) -> Date
        recommends
            self.can_start_loan(),
    {
        Date { days: (self.days + LOAN_PERIOD_DAYS) as i32 }
    }

    /// The day with the day number `days`.
    pub fn new(days: i32) -> (date: Date)
        ensures
            date.days == days,
    {
        Date { days }
    }

    /// Whether this day comes strictly after `other`.
    pub fn is_after(self, other: Date) -> (later: bool)
        ensures
            later == (self.days > other.days),
    {
        self.days > other.days
    }

    /// The number of days from `other` to this day; negative if this day is the earlier one.
    pub fn days_since(self, other: Date) -> (gap: i64)
        ensures
            gap == self.days - other.days,
    {
        self.days as i64 - other.days as i64
    }

    /// The day `count` days after this one, if a `Date` can hold it.
    pub fn plus_days(self, count: i32) -> (shifted: Option<Date>)
        ensures
            shifted is Some <==> i32::MIN <= self.days + count <= i32::MAX,
            shifted is Some ==> shifted->0.days == self.days + count,
    {
        match self.days.checked_add(count) {
            Some(days) => Some(Date { days }),
            None => None,
        }
    }

    /// The deadline of a loan that starts on this day, if a `Date` can hold it.
    pub fn loan_deadline(self) -> (due: Option<Date>)
        ensures
            due is Some <==> self.can_start_loan(),
            due is Some ==> due->0 == self.deadline(),
    {
        self.plus_days(LOAN_PERIOD_DAYS)
    }
}

impl Timestamp {
    /// The instant `micros` microseconds after the Unix epoch.
    pub fn new(micros: i64) -> (instant: Timestamp)
        ensures
            instant.micros == micros,
    {
        Timestamp { micros }
    }
}

} // verus!
