use vstd::prelude::*;

use core::cmp::Ordering;

verus! {

/// Whether `year` is a leap year of the proleptic Gregorian calendar.
pub open spec fn is_leap_year(year: int) -> bool {
    (year % 4 == 0 && year % 100 != 0) || year % 400 == 0
}

/// The number of days of a month (1 to 12) of a year.
pub open spec fn days_in_month(year: int, month: int) -> int {
    if month == 2 {
        if is_leap_year(year) { 29 } else { 28 }
    } else if month == 4 || month == 6 || month == 9 || month == 11 {
        30
    } else {
        31
    }
}

/// Whether the three numbers name a civil date in the supported range.
pub open spec fn is_valid_date(year: int, month: int, day: int) -> bool {
    &&& -9999 <= year <= 9999
    &&& 1 <= month <= 12
    &&& 1 <= day <= days_in_month(year, month)
}

/// A number that grows with the date: year, then month, then day. As month
/// and day stay below 100, comparing keys compares dates chronologically.
pub open spec fn date_key(year: int, month: int, day: int) -> int {
    year * 10000 + month * 100 + day
}

/// The three-way comparison of two integers.
pub open spec fn compare_ints(a: int, b: int) -> Ordering {
    if a < b {
        Ordering::Less
    } else if a == b {
        Ordering::Equal
    } else {
        Ordering::Greater
    }
}

/// The text that a strftime pattern gives for a civil date.
pub uninterp spec fn strftime_text(year: int, month: int, day: int, pattern: Seq<char>) -> Seq<char>;

/// Relies on `jiff::civil::Date::new`: it accepts exactly the years
/// -9999 to 9999, the months 1 to 12 and the days of that month.
#[verifier::external_body]
fn civil_date_is_valid(year: i16, month: i8, day: i8) -> (r: bool)
    ensures
        r == is_valid_date(year as int, month as int, day as int),
{
    jiff::civil::Date::new(year, month, day).is_ok()
}

/// Relies on `jiff::civil::date` and `jiff::civil::Date::strftime`: the
/// text depends on the date and the pattern alone; `date` panics only on an
/// invalid date, and a malformed pattern is formatted leniently.
#[verifier::external_body]
fn civil_date_strftime(year: i16, month: i8, day: i8, pattern: &str) -> (r: String)
    requires
        is_valid_date(year as int, month as int, day as int),
    ensures
        r@ == strftime_text(year as int, month as int, day as int, pattern@),
{
    jiff::civil::date(year, month, day).strftime(pattern).to_string()
}

/// A civil date (year, month, day), always a valid one.
#[derive(Clone, Copy, Debug, PartialEq, Eq)]
pub struct Date {
    year: i16,
    month: i8,
    day: i8,
}

impl Date {
    #[verifier::type_invariant]
    spec fn valid(&self) -> bool {
        is_valid_date(self.year as int, self.month as int, self.day as int)
    }

    pub closed spec fn spec_year(&self) -> int {
        self.year as int
    }

    pub closed spec fn spec_month(&self) -> int {
        self.month as int
    }

    pub closed spec fn spec_day(&self) -> int {
        self.day as int
    }

    /// The chronological key of the date.
    pub open spec fn key(&self) -> int {
        date_key(self.spec_year(), self.spec_month(), self.spec_day())
    }

    /// The date of the given numbers, or `None` where they name no date.
    pub fn new(year: i16, month: i8, day: i8) -> (r: Option<Date>)
        ensures
            r.is_some() <==> is_valid_date(year as int, month as int, day as int),
            r matches Some(d) ==> d.spec_year() == year && d.spec_month() == month && d.spec_day() == day,
    {
        if civil_date_is_valid(year, month, day) {
            Some(Date { year, month, day })
        } else {
            None
        }
    }

    pub fn year(&self) -> (r: i16)
        ensures
            r == self.spec_year(),
    {
        self.year
    }

    pub fn month(&self) -> (r: i8)
        ensures
            r == self.spec_month(),
    {
        self.month
    }

    pub fn day(&self) -> (r: i8)
        ensures
            r == self.spec_day(),
    {
        self.day
    }

    /// Compares two dates chronologically.
    pub fn compare(&self, other: &Date) -> (r: Ordering)
        ensures
            r == compare_ints(self.key(), other.key()),
    {
        proof {
            use_type_invariant(self);
            use_type_invariant(other);
        }
        let a: i32 = self.year as i32 * 10000 + self.month as i32 * 100 + self.day as i32;
        let b: i32 = other.year as i32 * 10000 + other.month as i32 * 100 + other.day as i32;
        if a < b {
            Ordering::Less
        } else if a == b {
            Ordering::Equal
        } else {
            Ordering::Greater
        }
    }

    /// The date written by a strftime pattern.
    pub fn format(&self, pattern: &str) -> (r: String)
        ensures
            r@ == strftime_text(self.spec_year(), self.spec_month(), self.spec_day(), pattern@),
    {
        proof {
            use_type_invariant(self);
        }
        civil_date_strftime(self.year, self.month, self.day, pattern)
    }
}

} // verus!
