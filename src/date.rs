use chrono::Datelike;
use vstd::prelude::*;

verus! {

/// A calendar day without time of day or time zone.
#[derive(Clone, Copy, Debug, PartialEq, Eq, Structural)]
pub struct Date {
    pub year: i32,
    pub month: u32,
    pub day: u32,
}

/// Gregorian leap-year rule, extended to all years.
pub open spec fn is_leap_year(year: int) -> bool {
    (year % 4 == 0 && year % 100 != 0) || year % 400 == 0
}

pub open spec fn days_in_month(year: int, month: int) -> int {
    if month == 2 {
        if is_leap_year(year) {
            29
        } else {
            28
        }
    } else if month == 4 || month == 6 || month == 9 || month == 11 {
        30
    } else {
        31
    }
}

impl Date {
    /// The date names a day that exists in the proleptic Gregorian calendar.
    pub open spec fn is_valid(self) -> bool {
        &&& 1 <= self.month <= 12
        &&& 1 <= self.day <= days_in_month(self.year as int, self.month as int)
    }
}

/// The date that strict `YYYY-MM-DD` parsing reads from a text, if any.
pub uninterp spec fn date_from_text(text: Seq<char>) -> Option<Date>;

/// Relies on chrono's `NaiveDate::parse_from_str` with the format
/// `"%Y-%m-%d"`: the outcome depends on the text alone, an empty text is
/// rejected, and every date it yields is a real calendar day.
#[verifier::external_body]
pub(crate) fn parse_date(text: &str) -> (r: Option<Date>)
    ensures
        r == date_from_text(text@),
        text@.len() == 0 ==> r is None,
        r matches Some(d) ==> d.is_valid(),
{
    match chrono::NaiveDate::parse_from_str(text, "%Y-%m-%d") {
        Ok(d) => Some(Date { year: d.year(), month: d.month(), day: d.day() }),
        Err(_) => None,
    }
}

} // verus!
