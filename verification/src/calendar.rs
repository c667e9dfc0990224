//! Calendar dates and wall-clock times without a time zone.
//!
//! The types here hold a date or a date and time as plain integers. Every
//! value is a day of the proleptic Gregorian calendar within the years that
//! `chrono::NaiveDate` can represent, so a value converts to chrono's type
//! without loss and without failure.

use vstd::prelude::*;

verus! {

/// First year that a date can lie in.
pub const MIN_YEAR: i32 = -262_143;

/// Last year that a date can lie in.
pub const MAX_YEAR: i32 = 262_142;

/// Whether `year` has a 29th of February. Year 0 is 1 BCE, and the rule is
/// carried back unchanged through the negative years.
pub open spec fn is_leap_year(year: int) -> bool {
    year % 4 == 0 && (year % 100 != 0 || year % 400 == 0)
}

/// Number of days of `month` (1 to 12) in `year`.
pub open spec fn days_in_month(year: int, month: int) -> int {
    if month == 2 {
        if is_leap_year(year) {
            29
        } else {
            28
        }
    } else if month == 4 || month == 6 || month == 9 || month == 11 {
        30
    } else {
        31
    }
}

/// Whether the three numbers name a day of the calendar.
pub open spec fn valid_date(year: int, month: int, day: int) -> bool {
    &&& MIN_YEAR <= year <= MAX_YEAR
    &&& 1 <= month <= 12
    &&& 1 <= day <= days_in_month(year, month)
}

/// Whether the three numbers name a time of day.
pub open spec fn valid_time(hour: int, minute: int, second: int) -> bool {
    &&& 0 <= hour < 24
    &&& 0 <= minute < 60
    &&& 0 <= second < 60
}

/// A date as the contracts see it.
pub struct DateView {
    pub year: int,
    pub month: int,
    pub day: int,
}

impl DateView {
    pub open spec fn valid(self) -> bool {
        valid_date(self.year, self.month, self.day)
    }
}

/// A date and time as the contracts see it.
pub struct DateTimeView {
    pub date: DateView,
    pub hour: int,
    pub minute: int,
    pub second: int,
}

impl DateTimeView {
    pub open spec fn valid(self) -> bool {
        self.date.valid() && valid_time(self.hour, self.minute, self.second)
    }
}

/// A day of the calendar. Only valid dates can be built.
#[derive(Debug, Clone, Copy, PartialEq, Eq, Structural)]
pub struct NaiveDate {
    year: i32,
    month: u32,
    day: u32,
}

impl View for NaiveDate {
    type V = DateView;

    closed spec fn view(&self) -> DateView {
        DateView { year: self.year as int, month: self.month as int, day: self.day as int }
    }
}

fn leap_year(year: i32) -> (leap: bool)
    requires
        MIN_YEAR <= year <= MAX_YEAR,
    ensures
        leap == is_leap_year(year as int),
{
    // 400_000 is a multiple of 400, so the shift keeps every remainder.
    let shifted: i32 = year + 400_000;
    shifted % 4 == 0 && (shifted % 100 != 0 || shifted % 400 == 0)
}

fn month_length(year: i32, month: u32) -> (days: u32)
    requires
        MIN_YEAR <= year <= MAX_YEAR,
        1 <= month <= 12,
    ensures
        days == days_in_month(year as int, month as int),
{
    if month == 2 {
        if leap_year(year) {
            29
        } else {
            28
        }
    } else if month == 4 || month == 6 || month == 9 || month == 11 {
        30
    } else {
        31
    }
}

impl NaiveDate {
    #[verifier::type_invariant]
    spec fn well_formed(self) -> bool {
        valid_date(self.year as int, self.month as int, self.day as int)
    }

    /// The date with the given year, month (1 to 12) and day of the month,
    /// or `None` when the calendar has no such day.
    pub fn from_ymd_opt(year: i32, month: u32, day: u32) -> (date: Option<NaiveDate>)
        ensures
            date is Some <==> valid_date(year as int, month as int, day as int),
            date matches Some(d) ==> d@ == (DateView {
                year: year as int,
                month: month as int,
                day: day as int,
            }),
    {
        if year < MIN_YEAR || year > MAX_YEAR || month < 1 || month > 12 || day < 1 {
            return None;
        }
        if day > month_length(year, month) {
            None
        } else {
            Some(NaiveDate { year, month, day })
        }
    }

    pub fn year(&self) -> (year: i32)
        ensures
            year == self@.year,
            self@.valid(),
    {
        proof {
            use_type_invariant(self);
        }
        self.year
    }

    pub fn month(&self) -> (month: u32)
        ensures
            month == self@.month,
            self@.valid(),
    {
        proof {
            use_type_invariant(self);
        }
        self.month
    }

    pub fn day(&self) -> (day: u32)
        ensures
            day == self@.day,
            self@.valid(),
    {
        proof {
            use_type_invariant(self);
        }
        self.day
    }

    /// This date at the given time of day, or `None` when a day has no such
    /// time.
    pub fn and_hms_opt(&self, hour: u32, minute: u32, second: u32) -> (datetime: Option<
        NaiveDateTime,
    >)
        ensures
            datetime is Some <==> valid_time(hour as int, minute as int, second as int),
            datetime matches Some(t) ==> t@ == (DateTimeView {
                date: self@,
                hour: hour as int,
                minute: minute as int,
                second: second as int,
            }),
    {
        if hour >= 24 || minute >= 60 || second >= 60 {
            None
        } else {
            proof {
                use_type_invariant(self);
            }
            Some(NaiveDateTime { date: *self, hour, minute, second })
        }
    }
}

/// A date together with a time of day. Only valid values can be built.
#[derive(Debug, Clone, Copy, PartialEq, Eq, Structural)]
pub struct NaiveDateTime {
    date: NaiveDate,
    hour: u32,
    minute: u32,
    second: u32,
}

impl View for NaiveDateTime {
    type V = DateTimeView;

    closed spec fn view(&self) -> DateTimeView {
        DateTimeView {
            date: self.date@,
            hour: self.hour as int,
            minute: self.minute as int,
            second: self.second as int,
        }
    }
}

impl NaiveDateTime {
    #[verifier::type_invariant]
    spec fn well_formed(self) -> bool {
        self.date.well_formed() && valid_time(
            self.hour as int,
            self.minute as int,
            self.second as int,
        )
    }

    pub fn date(&self) -> (date: NaiveDate)
        ensures
            date@ == self@.date,
            self@.valid(),
    {
        proof {
            use_type_invariant(self);
            use_type_invariant(&self.date);
        }
        self.date
    }

    pub fn hour(&self) -> (hour: u32)
        ensures
            hour == self@.hour,
            self@.valid(),
    {
        proof {
            use_type_invariant(self);
        }
        self.hour
    }

    pub fn minute(&self) -> (minute: u32)
        ensures
            minute == self@.minute,
            self@.valid(),
    {
        proof {
            use_type_invariant(self);
        }
        self.minute
    }

    pub fn second(&self) -> (second: u32)
        ensures
            second == self@.second,
            self@.valid(),
    {
        proof {
            use_type_invariant(self);
        }
        self.second
    }
}

} // verus!
