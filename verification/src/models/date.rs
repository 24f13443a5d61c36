use vstd::prelude::*;

verus! {

/// Whether the year has a 29th of February.
pub open spec fn is_leap_year(year: int) -> bool {
    year % 4 == 0 && (year % 100 != 0 || year % 400 == 0)
}

/// The number of days of a month, 0 where there is no such month.
pub open spec fn days_in_month(year: int, month: int) -> int {
    if month == 2 {
        if is_leap_year(year) {
            29
        } else {
            28
        }
    } else if month == 4 || month == 6 || month == 9 || month == 11 {
        30
    } else if 1 <= month <= 12 {
        31
    } else {
        0
    }
}

/// Whether year, month and day name a day of the calendar in the years 0 to
/// 9999.
pub open spec fn is_calendar_date(year: int, month: int, day: int) -> bool {
    0 <= year <= 9999 && 1 <= month <= 12 && 1 <= day <= days_in_month(year, month)
}

/// A day of the calendar, without a time of day.
#[derive(Clone, Copy, Debug, PartialEq, Eq, Hash, Structural)]
pub struct Date {
    year: u16,
    month: u8,
    day: u8,
}

impl Date {
    #[verifier::type_invariant]
    spec fn valid(self) -> bool {
        is_calendar_date(self.year as int, self.month as int, self.day as int)
    }

    pub closed spec fn spec_year(self) -> int {
        self.year as int
    }

    pub closed spec fn spec_month(self) -> int {
        self.month as int
    }

    pub closed spec fn spec_day(self) -> int {
        self.day as int
    }

    /// The date read as the number `yyyymmdd`: an earlier day has a smaller
    /// number.
    pub open spec fn key(self) -> int {
        self.spec_year() * 10000 + self.spec_month() * 100 + self.spec_day()
    }

    /// The day with the given year, month and day of the month, if the
    /// calendar has it.
    pub fn from_ymd(year: i32, month: u32, day: u32) -> (r: Option<Date>)
        ensures
            r is Some <==> is_calendar_date(year as int, month as int, day as int),
            r matches Some(d) ==> d.spec_year() == year && d.spec_month() == month && d.spec_day()
                == day,
    {
        if year < 0 || year > 9999 || month < 1 || month > 12 || day < 1 {
            return None;
        }
        let leap = year % 4 == 0 && (year % 100 != 0 || year % 400 == 0);
        let last: u32 = if month == 2 {
            if leap {
                29
            } else {
                28
            }
        } else if month == 4 || month == 6 || month == 9 || month == 11 {
            30
        } else {
            31
        };
        if day > last {
            return None;
        }
        Some(Date { year: year as u16, month: month as u8, day: day as u8 })
    }

    /// Year, month and day of the month, which name a day of the calendar.
    pub fn ymd(self) -> (r: (i32, u32, u32))
        ensures
            r.0 == self.spec_year(),
            r.1 == self.spec_month(),
            r.2 == self.spec_day(),
            is_calendar_date(r.0 as int, r.1 as int, r.2 as int),
    {
        proof {
            use_type_invariant(self);
        }
        (self.year as i32, self.month as u32, self.day as u32)
    }

    pub fn year(self) -> (y: i32)
        ensures
            y == self.spec_year(),
    {
        self.year as i32
    }

    pub fn month(self) -> (m: u32)
        ensures
            m == self.spec_month(),
    {
        self.month as u32
    }

    pub fn day(self) -> (d: u32)
        ensures
            d == self.spec_day(),
    {
        self.day as u32
    }

    /// Whether this day is the other day or an earlier one.
    pub fn le(self, other: Date) -> (r: bool)
        ensures
            r == (self.key() <= other.key()),
    {
        proof {
            use_type_invariant(self);
            use_type_invariant(other);
        }
        self.year < other.year || (self.year == other.year && (self.month < other.month || (
        self.month == other.month && self.day <= other.day)))
    }

    /// Whether this day is earlier than the other day.
    pub fn lt(self, other: Date) -> (r: bool)
        ensures
            r == (self.key() < other.key()),
    {
        proof {
            use_type_invariant(self);
            use_type_invariant(other);
        }
        self.year < other.year || (self.year == other.year && (self.month < other.month || (
        self.month == other.month && self.day < other.day)))
    }
}

} // verus!
