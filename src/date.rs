//! Calendar dates without a time of day, and their fixed textual forms.
use vstd::prelude::*;

verus! {

/// Whether `year` is a leap year of the Gregorian calendar.
pub open spec fn is_leap_year(year: int) -> bool {
    (year % 4 == 0 && year % 100 != 0) || year % 400 == 0
}

/// Number of days of `month` (1 to 12) in `year`.
pub open spec fn days_in_month(year: int, month: int) -> int {
    if month == 2 {
        if is_leap_year(year) {
            29
        } else {
            28
        }
    } else if month == 4 || month == 6 || month == 9 || month == 11 {
        30
    } else {
        31
    }
}

/// The decimal digit `d` (0 to 9) as a character.
pub open spec fn digit_char(d: int) -> char {
    seq!['0', '1', '2', '3', '4', '5', '6', '7', '8', '9'][d]
}

/// `n` (0 to 99) written with exactly two digits.
pub open spec fn two_digits(n: int) -> Seq<char> {
    seq![digit_char(n / 10), digit_char(n % 10)]
}

/// `n` (0 to 9999) written with exactly four digits.
pub open spec fn four_digits(n: int) -> Seq<char> {
    two_digits(n / 100) + two_digits(n % 100)
}

/// A day of the proleptic Gregorian calendar, with a four-digit year.
#[derive(Clone, Copy, Debug, PartialEq, Eq, Structural)]
pub struct Date {
    pub year: i32,
    pub month: u32,
    pub day: u32,
}

impl Date {
    /// The triple names a real day, in a year written with four digits.
    pub open spec fn wf(self) -> bool {
        &&& 0 <= self.year <= 9999
        &&& 1 <= self.month <= 12
        &&& 1 <= self.day <= days_in_month(self.year as int, self.month as int)
    }

    /// `YYYY-MM-DD`.
    pub open spec fn iso_text(self) -> Seq<char> {
        four_digits(self.year as int) + seq!['-'] + two_digits(self.month as int) + seq!['-']
            + two_digits(self.day as int)
    }

    /// `MM-YYYY`.
    pub open spec fn month_year_text(self) -> Seq<char> {
        two_digits(self.month as int) + seq!['-'] + four_digits(self.year as int)
    }

    /// `DD.MM.YYYY`.
    pub open spec fn german_text(self) -> Seq<char> {
        two_digits(self.day as int) + seq!['.'] + two_digits(self.month as int) + seq!['.']
            + four_digits(self.year as int)
    }

    /// The date of the triple, when it names a day with a four-digit year.
    pub open spec fn new_spec(year: i32, month: u32, day: u32) -> Option<Date> {
        if (Date { year, month, day }).wf() {
            Some(Date { year, month, day })
        } else {
            None
        }
    }

    /// Builds a date; `None` when the triple names no day with a four-digit year.
    pub fn new(year: i32, month: u32, day: u32) -> (r: Option<Date>)
        ensures
            r == Date::new_spec(year, month, day),
    {
        if year < 0 || year > 9999 || month < 1 || month > 12 || day < 1 {
            return None;
        }
        let leap = (year % 4 == 0 && year % 100 != 0) || year % 400 == 0;
        let days: u32 = if month == 2 {
            if leap {
                29
            } else {
                28
            }
        } else if month == 4 || month == 6 || month == 9 || month == 11 {
            30
        } else {
            31
        };
        if day > days {
            None
        } else {
            Some(Date { year, month, day })
        }
    }
}

/// The year, month and day that `chrono` reads from `s` with the format `pattern`.
pub uninterp spec fn parsed_date(s: Seq<char>, pattern: Seq<char>) -> Option<(i32, u32, u32)>;

/// Relies on `chrono::NaiveDate::parse_from_str`: the day it reads, if any.
#[verifier::external_body]
fn parse_date(s: &str, pattern: &str) -> (r: Option<(i32, u32, u32)>)
    ensures
        r == parsed_date(s@, pattern@),
{
    chrono::NaiveDate::parse_from_str(s, pattern).ok().map(
        |d| (chrono::Datelike::year(&d), chrono::Datelike::month(&d), chrono::Datelike::day(&d)),
    )
}

/// The pattern of dates in the invoice source.
pub open spec fn german_pattern() -> Seq<char> {
    "%d.%m.%Y"@
}

/// Reads a date written `DD.MM.YYYY`; `None` when `chrono` reads no day
/// there, or one whose year has more than four digits.
pub fn parse_german_date(s: &str) -> (r: Option<Date>)
    ensures
        parsed_date(s@, german_pattern()) is None ==> r is None,
        parsed_date(s@, german_pattern()) matches Some((y, m, d)) ==> r == Date::new_spec(y, m, d),
{
    match parse_date(s, "%d.%m.%Y") {
        None => None,
        Some((y, m, d)) => Date::new(y, m, d),
    }
}

/// The date as `DD.MM.YYYY`, as the invoice source writes it.
pub fn german_date_text(d: Date) -> (r: String)
    requires
        d.wf(),
    ensures
        r@ == d.german_text(),
{
    proof {
        reveal_strlit("%d.%m.%Y");
    }
    let t = format_date(d, "%d.%m.%Y");
    t.unwrap()
}

/// Relies on `chrono::NaiveDate::from_ymd_opt` and `NaiveDate::format`, on
/// the three patterns whose specifiers are all known (an unknown one makes
/// formatting panic): a valid day is accepted, `%Y` writes a year of 0 to 9999 with four digits, `%m` and
/// `%d` write two digits, and other characters are copied.
#[verifier::external_body]
fn format_date(d: Date, pattern: &str) -> (r: Option<String>)
    requires
        pattern@ == "%Y-%m-%d"@ || pattern@ == "%m-%Y"@ || pattern@ == "%d.%m.%Y"@,
    ensures
        d.wf() && pattern@ == "%Y-%m-%d"@ ==> r is Some && r->0@ == d.iso_text(),
        d.wf() && pattern@ == "%m-%Y"@ ==> r is Some && r->0@ == d.month_year_text(),
        d.wf() && pattern@ == "%d.%m.%Y"@ ==> r is Some && r->0@ == d.german_text(),
{
    chrono::NaiveDate::from_ymd_opt(d.year, d.month, d.day).map(|n| n.format(pattern).to_string())
}

/// The date as `YYYY-MM-DD`.
pub fn iso_date_text(d: Date) -> (r: String)
    requires
        d.wf(),
    ensures
        r@ == d.iso_text(),
{
    proof {
        reveal_strlit("%Y-%m-%d");
    }
    let t = format_date(d, "%Y-%m-%d");
    t.unwrap()
}

/// The date as `MM-YYYY`, the name of the month folder of an attachment.
pub fn month_year_text(d: Date) -> (r: String)
    requires
        d.wf(),
    ensures
        r@ == d.month_year_text(),
{
    proof {
        reveal_strlit("%m-%Y");
    }
    let t = format_date(d, "%m-%Y");
    t.unwrap()
}

} // verus!
