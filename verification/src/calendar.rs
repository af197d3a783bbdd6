//! Calendar days, read from text with `chrono`.

use vstd::prelude::*;

verus! {

/// The pattern that a bar's date is written in: year, month and day of month.
pub const DATE_FORMAT: &'static str = "%Y-%m-%d";

/// `chrono::format::ParseError`, carried through verified code as an opaque value.
#[verifier::external_type_specification]
#[verifier::external_body]
pub struct ExChronoParseError(chrono::format::ParseError);

/// What `chrono::NaiveDate::parse_from_str` makes of `text` under `format`:
/// the day's number in the proleptic Gregorian calendar (1 January of year 1
/// is day 1), or `None` where chrono reports an error.
pub uninterp spec fn chrono_day_number(text: Seq<char>, format: Seq<char>) -> Option<i32>;

/// Calls `chrono::NaiveDate::parse_from_str` and, on success, takes the date's
/// `num_days_from_ce`. Trusted: under [`DATE_FORMAT`] the call returns for
/// every text, its outcome depends on the two strings alone, and it is what
/// [`chrono_day_number`] names.
#[verifier::external_body]
fn chrono_parse_day(text: &str, format: &str) -> (r: Result<i32, chrono::format::ParseError>)
    requires
        format@ == DATE_FORMAT@,
    ensures
        r is Ok <==> chrono_day_number(text@, format@) is Some,
        r matches Ok(number) ==> chrono_day_number(text@, format@) == Some(number),
{
    match chrono::NaiveDate::parse_from_str(text, format) {
        Ok(date) => Ok(chrono::Datelike::num_days_from_ce(&date)),
        Err(e) => Err(e),
    }
}

/// A calendar day, held as its number in the proleptic Gregorian calendar.
#[derive(Clone, Copy, Debug, PartialEq, Eq, Structural)]
pub struct Day {
    pub number: i32,
}

/// A date text that is no calendar day in [`DATE_FORMAT`].
#[derive(Clone, Debug, PartialEq, Eq)]
pub struct DateError {
    pub text: String,
}

/// The day that `text` denotes, if it denotes one.
pub open spec fn day_of(text: Seq<char>) -> Option<Day> {
    match chrono_day_number(text, DATE_FORMAT@) {
        Some(number) => Some(Day { number }),
        None => None,
    }
}

/// Reads a date such as `2019-04-25`.
pub fn parse_time(t: &str) -> (r: Result<Day, DateError>)
    ensures
        match r {
            Ok(day) => day_of(t@) == Some(day),
            Err(e) => day_of(t@) is None && e.text@ == t@,
        },
{
    match chrono_parse_day(t, DATE_FORMAT) {
        Ok(number) => Ok(Day { number }),
        Err(_) => Err(DateError { text: t.to_owned() }),
    }
}

} // verus!
