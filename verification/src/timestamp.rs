//! The calendar model: a point in time paired with a UTC offset,
//! stored as plain integer fields.

use vstd::prelude::*;

verus! {

/// Smallest year the calendar model admits.
pub const MIN_YEAR: i32 = -262144;

/// Largest year the calendar model admits.
pub const MAX_YEAR: i32 = 262143;

/// A calendar point in time paired with a UTC offset in seconds.
///
/// Rendering depends on the offset, not on a bare epoch count, so the
/// offset is part of the value.  `nanosecond` may reach just under two
/// billion to leave room for a leap second folded into the last second.
#[derive(Clone, Copy, Debug, PartialEq, Eq, Structural)]
pub struct Timestamp {
    pub year: i32,
    pub month: u32,
    pub day: u32,
    pub hour: u32,
    pub minute: u32,
    pub second: u32,
    pub nanosecond: u32,
    pub offset_seconds: i32,
}

/// A field of the positional set-token, named by range errors.
#[derive(Clone, Copy, Debug, PartialEq, Eq, Structural)]
pub enum Field {
    Month,
    Day,
    Hour,
    Minute,
    Year,
    Second,
}

/// Whether `year` is a leap year of the proleptic Gregorian calendar.
pub open spec fn spec_is_leap_year(year: int) -> bool {
    (year % 4 == 0 && year % 100 != 0) || year % 400 == 0
}

/// The number of days in `month` of `year`.
pub open spec fn spec_days_in_month(year: int, month: int) -> int {
    if month == 2 {
        if spec_is_leap_year(year) {
            29
        } else {
            28
        }
    } else if month == 4 || month == 6 || month == 9 || month == 11 {
        30
    } else {
        31
    }
}

impl Timestamp {
    /// Every field lies in its calendar range and the day exists in
    /// its month and year.
    pub open spec fn wf(self) -> bool {
        &&& MIN_YEAR <= self.year <= MAX_YEAR
        &&& 1 <= self.month <= 12
        &&& 1 <= self.day <= spec_days_in_month(self.year as int, self.month as int)
        &&& self.hour <= 23
        &&& self.minute <= 59
        &&& self.second <= 59
        &&& self.nanosecond < 2_000_000_000
        &&& -86_400 <= self.offset_seconds <= 86_400
    }
}

/// Whether `year` is a leap year of the proleptic Gregorian calendar.
pub fn is_leap_year(year: i32) -> (r: bool)
    ensures
        r == spec_is_leap_year(year as int),
{
    let m4: i32 = year.checked_rem_euclid(4).unwrap();
    let m100: i32 = year.checked_rem_euclid(100).unwrap();
    let m400: i32 = year.checked_rem_euclid(400).unwrap();
    (m4 == 0 && m100 != 0) || m400 == 0
}

/// The number of days in `month` of `year`.
pub fn days_in_month(year: i32, month: u32) -> (r: u32)
    requires
        1 <= month <= 12,
    ensures
        r == spec_days_in_month(year as int, month as int),
{
    if month == 2 {
        if is_leap_year(year) {
            29
        } else {
            28
        }
    } else if month == 4 || month == 6 || month == 9 || month == 11 {
        30
    } else {
        31
    }
}

} // verus!
