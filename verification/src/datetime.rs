//! Calendar model used by the schedule queries: a time of day, a calendar
//! date, and their combination. Dates carry their own weekday computation so
//! that the working-hours schedule, which is indexed Monday = 0 .. Sunday = 6,
//! can be consulted for any date.

use vstd::prelude::*;

verus! {

/// A time of day (hour, minute, second).
#[derive(Clone, Copy, PartialEq, Eq, Structural, Debug)]
pub struct Time {
    pub hour: u32,
    pub minute: u32,
    pub second: u32,
}

impl Time {
    /// The time as a number of seconds since midnight; times of day are
    /// ordered by this value.
    pub open spec fn spec_seconds(self) -> int {
        self.hour * 3600 + self.minute * 60 + self.second
    }

    pub open spec fn is_valid(self) -> bool {
        self.hour < 24 && self.minute < 60 && self.second < 60
    }

    pub fn new(hour: u32, minute: u32, second: u32) -> (t: Time)
        ensures
            t == (Time { hour, minute, second }),
    {
        Time { hour, minute, second }
    }

    /// `self` is no later in the day than `other`.
    pub fn le(&self, other: &Time) -> (r: bool)
        ensures
            r == (self.spec_seconds() <= other.spec_seconds()),
    {
        let a: u64 = (self.hour as u64) * 3600 + (self.minute as u64) * 60 + (self.second as u64);
        let b: u64 = (other.hour as u64) * 3600 + (other.minute as u64) * 60 + (other.second
            as u64);
        a <= b
    }
}

/// A calendar date (year, month, day).
#[derive(Clone, Copy, PartialEq, Eq, Structural, Debug)]
pub struct Date {
    pub year: u32,
    pub month: u32,
    pub day: u32,
}

/// The additive month term of Sakamoto's day-of-week congruence.
pub open spec fn month_offset(m: int) -> int {
    if m == 1 {
        0
    } else if m == 2 {
        3
    } else if m == 3 {
        2
    } else if m == 4 {
        5
    } else if m == 5 {
        0
    } else if m == 6 {
        3
    } else if m == 7 {
        5
    } else if m == 8 {
        1
    } else if m == 9 {
        4
    } else if m == 10 {
        6
    } else if m == 11 {
        2
    } else {
        4
    }
}

/// Day of week with Sunday as 0, by Sakamoto's congruence.
pub open spec fn spec_weekday_sunday0(d: Date) -> int {
    let y: int = if d.month < 3 {
        d.year - 1
    } else {
        d.year as int
    };
    (y + y / 4 - y / 100 + y / 400 + month_offset(d.month as int) + d.day) % 7
}

/// Day of week with Monday as 0 .. Sunday as 6: the index into the weekly
/// working-hours schedule.
pub open spec fn spec_weekday_from_monday(d: Date) -> int {
    (spec_weekday_sunday0(d) + 6) % 7
}

impl Date {
    pub open spec fn is_valid(self) -> bool {
        1 <= self.year && 1 <= self.month <= 12 && 1 <= self.day <= 31
    }

    /// Chronological order on dates: lexicographic on (year, month, day).
    pub open spec fn spec_le(self, other: Date) -> bool {
        self.year < other.year || (self.year == other.year && self.month < other.month) || (
        self.year == other.year && self.month == other.month && self.day <= other.day)
    }

    pub fn new(year: u32, month: u32, day: u32) -> (d: Date)
        ensures
            d == (Date { year, month, day }),
    {
        Date { year, month, day }
    }

    /// `self` is on or before `other`.
    pub fn le(&self, other: &Date) -> (r: bool)
        ensures
            r == self.spec_le(*other),
    {
        if self.year != other.year {
            self.year < other.year
        } else if self.month != other.month {
            self.month < other.month
        } else {
            self.day <= other.day
        }
    }

    /// The weekday of this date, Monday = 0 .. Sunday = 6.
    pub fn weekday_from_monday(&self) -> (r: u32)
        requires
            self.is_valid(),
        ensures
            r == spec_weekday_from_monday(*self),
            r < 7,
    {
        let y: u64 = if self.month < 3 {
            (self.year as u64) - 1
        } else {
            self.year as u64
        };
        let t: u64 = exec_month_offset(self.month);
        let s0: u64 = (y + y / 4 - y / 100 + y / 400 + t + (self.day as u64)) % 7;
        ((s0 + 6) % 7) as u32
    }
}

fn exec_month_offset(m: u32) -> (r: u64)
    requires
        1 <= m <= 12,
    ensures
        r == month_offset(m as int),
{
    match m {
        1 => 0,
        2 => 3,
        3 => 2,
        4 => 5,
        5 => 0,
        6 => 3,
        7 => 5,
        8 => 1,
        9 => 4,
        10 => 6,
        11 => 2,
        _ => 4,
    }
}

/// A calendar date together with a time of day.
#[derive(Clone, Copy, PartialEq, Eq, Structural, Debug)]
pub struct DateTime {
    pub date: Date,
    pub time: Time,
}

impl DateTime {
    pub open spec fn is_valid(self) -> bool {
        self.date.is_valid() && self.time.is_valid()
    }

    pub fn new(date: Date, time: Time) -> (dt: DateTime)
        ensures
            dt == (DateTime { date, time }),
    {
        DateTime { date, time }
    }
}

} // verus!
