//! Calendar timestamps to the second, and the minute stamp that release file names carry.

use crate::text::{decimal, digit_char};
use vstd::prelude::*;

verus! {

/// The smallest year a `Timestamp` can hold.
pub const MIN_YEAR: i32 = -262143;

/// The largest year a `Timestamp` can hold.
pub const MAX_YEAR: i32 = 262142;

/// Whether `year` is a leap year of the proleptic Gregorian calendar.
pub open spec fn is_leap_year(year: int) -> bool {
    year % 4 == 0 && (year % 100 != 0 || year % 400 == 0)
}

/// The number of days of `month` (1 to 12) in `year`.
pub open spec fn days_in_month(year: int, month: int) -> int {
    if month == 2 {
        if is_leap_year(year) {
            29
        } else {
            28
        }
    } else if month == 4 || month == 6 || month == 9 || month == 11 {
        30
    } else {
        31
    }
}

/// `n` as two decimal digits; meant for `0 <= n < 100`.
pub open spec fn two_digits(n: int) -> Seq<char> {
    seq![digit_char(n / 10), digit_char(n % 10)]
}

/// `n` as four decimal digits; meant for `0 <= n < 10000`.
pub open spec fn four_digits(n: int) -> Seq<char> {
    two_digits(n / 100) + two_digits(n % 100)
}

/// A year as text: four digits for the years 0 to 9999; any other year carries its sign,
/// followed by at least four digits.
pub open spec fn year_text(year: int) -> Seq<char> {
    if 0 <= year <= 9999 {
        four_digits(year)
    } else if -9999 <= year < 0 {
        seq!['-'] + four_digits(-year)
    } else if year < 0 {
        seq!['-'] + decimal((-year) as nat)
    } else {
        seq!['+'] + decimal(year as nat)
    }
}

/// A point in time as the calendar shows it, in mathematical integers.
pub struct CivilTime {
    pub year: int,
    pub month: int,
    pub day: int,
    pub hour: int,
    pub minute: int,
    pub second: int,
}

impl CivilTime {
    /// Whether the fields name a second that exists in the calendar, in a year that a
    /// `Timestamp` can hold.
    pub open spec fn valid(self) -> bool {
        &&& MIN_YEAR <= self.year <= MAX_YEAR
        &&& 1 <= self.month <= 12
        &&& 1 <= self.day <= days_in_month(self.year, self.month)
        &&& 0 <= self.hour < 24
        &&& 0 <= self.minute < 60
        &&& 0 <= self.second < 60
    }

    /// The same time with the seconds cut off.
    pub open spec fn at_minute(self) -> CivilTime {
        CivilTime { second: 0, ..self }
    }

    /// The minute stamp: year, month, day and hour joined by `-`, then `_` and the minute.
    /// The seconds play no part in it.
    pub open spec fn minute_text(self) -> Seq<char> {
        year_text(self.year) + seq!['-'] + two_digits(self.month) + seq!['-'] + two_digits(
            self.day,
        ) + seq!['-'] + two_digits(self.hour) + seq!['_'] + two_digits(self.minute)
    }
}

/// A calendar date and time of day, to the second. Every value names a second that exists.
#[derive(Clone, Copy, Debug)]
pub struct Timestamp {
    year: i32,
    month: u8,
    day: u8,
    hour: u8,
    minute: u8,
    second: u8,
}

impl View for Timestamp {
    type V = CivilTime;

    closed spec fn view(&self) -> CivilTime {
        CivilTime {
            year: self.year as int,
            month: self.month as int,
            day: self.day as int,
            hour: self.hour as int,
            minute: self.minute as int,
            second: self.second as int,
        }
    }
}

/// Formats the given minute with `chrono::NaiveDateTime::format` and the pattern
/// `%Y-%m-%d-%H_%M`, after building the value with `NaiveDate::from_ymd_opt` and
/// `NaiveDate::and_hms_opt`. chrono writes month, day, hour and minute as two digits each
/// and the year as `year_text` says. The fields must name an existing minute in a year
/// that chrono can hold; otherwise the constructors return `None`.
#[verifier::external_body]
fn format_minute(year: i32, month: u8, day: u8, hour: u8, minute: u8) -> (text: String)
    requires
        (CivilTime {
            year: year as int,
            month: month as int,
            day: day as int,
            hour: hour as int,
            minute: minute as int,
            second: 0,
        }).valid(),
    ensures
        text@ == (CivilTime {
            year: year as int,
            month: month as int,
            day: day as int,
            hour: hour as int,
            minute: minute as int,
            second: 0,
        }).minute_text(),
{
    let date = chrono::NaiveDate::from_ymd_opt(year, month as u32, day as u32).unwrap();
    let at = date.and_hms_opt(hour as u32, minute as u32, 0).unwrap();
    at.format("%Y-%m-%d-%H_%M").to_string()
}

/// The number of days of `month` in `year`.
fn month_length(year: i32, month: u8) -> (days: u8)
    requires
        MIN_YEAR <= year <= MAX_YEAR,
        1 <= month <= 12,
    ensures
        days == days_in_month(year as int, month as int),
{
    if month == 2 {
        // 262400 is a multiple of 400 that lifts every year above zero.
        let lifted: u32 = (year + 262400) as u32;
        let leap = lifted % 4 == 0 && (lifted % 100 != 0 || lifted % 400 == 0);
        if leap {
            29
        } else {
            28
        }
    } else if month == 4 || month == 6 || month == 9 || month == 11 {
        30
    } else {
        31
    }
}

impl Timestamp {
    #[verifier::type_invariant]
    spec fn exists_in_calendar(self) -> bool {
        self@.valid()
    }

    /// Makes a timestamp from calendar fields, or `None` where they name no second that
    /// exists or the year is out of range.
    pub fn new(year: i32, month: u8, day: u8, hour: u8, minute: u8, second: u8) -> (made: Option<
        Timestamp,
    >)
        ensures
            made is Some <==> (CivilTime {
                year: year as int,
                month: month as int,
                day: day as int,
                hour: hour as int,
                minute: minute as int,
                second: second as int,
            }).valid(),
            made is Some ==> made->0@ == (CivilTime {
                year: year as int,
                month: month as int,
                day: day as int,
                hour: hour as int,
                minute: minute as int,
                second: second as int,
            }),
    {
        if year < MIN_YEAR || year > MAX_YEAR || month < 1 || month > 12 {
            return None;
        }
        if day < 1 || day > month_length(year, month) {
            return None;
        }
        if hour >= 24 || minute >= 60 || second >= 60 {
            return None;
        }
        Some(Timestamp { year, month, day, hour, minute, second })
    }

    pub fn year(&self) -> (year: i32)
        ensures
            year == self@.year,
    {
        self.year
    }

    pub fn month(&self) -> (month: u8)
        ensures
            month == self@.month,
    {
        self.month
    }

    pub fn day(&self) -> (day: u8)
        ensures
            day == self@.day,
    {
        self.day
    }

    pub fn hour(&self) -> (hour: u8)
        ensures
            hour == self@.hour,
    {
        self.hour
    }

    pub fn minute(&self) -> (minute: u8)
        ensures
            minute == self@.minute,
    {
        self.minute
    }

    pub fn second(&self) -> (second: u8)
        ensures
            second == self@.second,
    {
        self.second
    }

    /// The minute stamp of this time, as release file names carry it.
    pub fn minute_stamp(&self) -> (text: String)
        ensures
            self@.valid(),
            text@ == self@.minute_text(),
            text@ == self@.at_minute().minute_text(),
    {
        proof {
            use_type_invariant(self);
        }
        format_minute(self.year, self.month, self.day, self.hour, self.minute)
    }
}

} // verus!
