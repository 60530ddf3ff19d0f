//! Calendar times in UTC, as the price history endpoint reads them.
use vstd::prelude::*;

use crate::text::{padded, padded_text};

verus! {

pub open spec fn abs(y: int) -> nat {
    if y < 0 {
        (-y) as nat
    } else {
        y as nat
    }
}

/// Leap years of the proleptic Gregorian calendar.
pub open spec fn is_leap_year(y: int) -> bool {
    let a = abs(y);
    (a % 4 == 0 && a % 100 != 0) || a % 400 == 0
}

pub open spec fn days_in_month(y: int, m: int) -> int {
    if m == 2 {
        if is_leap_year(y) {
            29
        } else {
            28
        }
    } else if m == 4 || m == 6 || m == 9 || m == 11 {
        30
    } else {
        31
    }
}

/// The year as the API's date format writes it: four digits, zero-padded,
/// and a sign in front of years outside 0 to 9999.
pub open spec fn year_text(y: int) -> Seq<char> {
    if 0 <= y <= 9999 {
        padded(y as nat, 4)
    } else if y > 9999 {
        seq!['+'] + padded(y as nat, 4)
    } else {
        seq!['-'] + padded(abs(y), 4)
    }
}

/// A second of the Gregorian calendar in UTC.
#[derive(Debug, Clone, Copy, PartialEq, Eq, Structural)]
pub struct UtcDateTime {
    year: i32,
    month: u32,
    day: u32,
    hour: u32,
    minute: u32,
    second: u32,
}

/// Whether the fields name a second that exists in the calendar.
pub open spec fn is_valid_date_time(
    year: int,
    month: int,
    day: int,
    hour: int,
    minute: int,
    second: int,
) -> bool {
    &&& 1 <= month <= 12
    &&& 1 <= day <= days_in_month(year, month)
    &&& 0 <= hour < 24
    &&& 0 <= minute < 60
    &&& 0 <= second < 60
}

impl UtcDateTime {
    pub closed spec fn spec_year(self) -> int {
        self.year as int
    }

    pub closed spec fn spec_month(self) -> int {
        self.month as int
    }

    pub closed spec fn spec_day(self) -> int {
        self.day as int
    }

    pub closed spec fn spec_hour(self) -> int {
        self.hour as int
    }

    pub closed spec fn spec_minute(self) -> int {
        self.minute as int
    }

    pub closed spec fn spec_second(self) -> int {
        self.second as int
    }

    pub open spec fn wf(self) -> bool {
        is_valid_date_time(
            self.spec_year(),
            self.spec_month(),
            self.spec_day(),
            self.spec_hour(),
            self.spec_minute(),
            self.spec_second(),
        )
    }

    /// The time as `YYYY-MM-DDTHH:MM:SS`.
    pub open spec fn readable(self) -> Seq<char> {
        year_text(self.spec_year()) + seq!['-'] + padded(self.spec_month() as nat, 2) + seq!['-']
            + padded(self.spec_day() as nat, 2) + seq!['T'] + padded(self.spec_hour() as nat, 2)
            + seq![':'] + padded(self.spec_minute() as nat, 2) + seq![':'] + padded(
            self.spec_second() as nat,
            2,
        )
    }

    /// The time with the given fields; `None` where they name no second of
    /// the calendar.
    pub fn new(year: i32, month: u32, day: u32, hour: u32, minute: u32, second: u32) -> (r: Option<
        Self,
    >)
        ensures
            r is Some <==> is_valid_date_time(
                year as int,
                month as int,
                day as int,
                hour as int,
                minute as int,
                second as int,
            ),
            r matches Some(t) ==> {
                &&& t.wf()
                &&& t.spec_year() == year
                &&& t.spec_month() == month
                &&& t.spec_day() == day
                &&& t.spec_hour() == hour
                &&& t.spec_minute() == minute
                &&& t.spec_second() == second
            },
    {
        let a: u64 = if year < 0 {
            (-(year as i64)) as u64
        } else {
            year as u64
        };
        let leap = (a % 4 == 0 && a % 100 != 0) || a % 400 == 0;
        let days: u32 = if month == 2 {
            if leap {
                29
            } else {
                28
            }
        } else if month == 4 || month == 6 || month == 9 || month == 11 {
            30
        } else {
            31
        };
        if 1 <= month && month <= 12 && 1 <= day && day <= days && hour < 24 && minute < 60
            && second < 60 {
            Some(UtcDateTime { year, month, day, hour, minute, second })
        } else {
            None
        }
    }

    pub fn year(&self) -> (r: i32)
        ensures
            r == self.spec_year(),
    {
        self.year
    }

    pub fn month(&self) -> (r: u32)
        ensures
            r == self.spec_month(),
    {
        self.month
    }

    pub fn day(&self) -> (r: u32)
        ensures
            r == self.spec_day(),
    {
        self.day
    }

    pub fn hour(&self) -> (r: u32)
        ensures
            r == self.spec_hour(),
    {
        self.hour
    }

    pub fn minute(&self) -> (r: u32)
        ensures
            r == self.spec_minute(),
    {
        self.minute
    }

    pub fn second(&self) -> (r: u32)
        ensures
            r == self.spec_second(),
    {
        self.second
    }

    /// The time as the API's date format writes it: `YYYY-MM-DDTHH:MM:SS`.
    pub fn to_readable(&self) -> (r: String)
        ensures
            r@ == self.readable(),
    {
        proof {
            reveal_strlit("-");
            reveal_strlit("+");
            reveal_strlit("T");
            reveal_strlit(":");
        }
        let mut r = if self.year >= 0 && self.year <= 9999 {
            padded_text(self.year as u64, 4)
        } else if self.year > 9999 {
            let mut t = "+".to_owned();
            t.append(padded_text(self.year as u64, 4).as_str());
            t
        } else {
            let mut t = "-".to_owned();
            t.append(padded_text((-(self.year as i64)) as u64, 4).as_str());
            t
        };
        r.append("-");
        r.append(padded_text(self.month as u64, 2).as_str());
        r.append("-");
        r.append(padded_text(self.day as u64, 2).as_str());
        r.append("T");
        r.append(padded_text(self.hour as u64, 2).as_str());
        r.append(":");
        r.append(padded_text(self.minute as u64, 2).as_str());
        r.append(":");
        r.append(padded_text(self.second as u64, 2).as_str());
        assert(r@ =~= self.readable());
        r
    }
}

} // verus!
