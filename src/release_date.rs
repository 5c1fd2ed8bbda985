use vstd::prelude::*;
use chrono::Datelike;

verus! {

/// A calendar date.
#[derive(Debug, Clone, Copy, PartialEq, Eq, Structural)]
pub struct CalendarDate {
    pub year: i32,
    pub month: u32,
    pub day: u32,
}

/// A release date that could not be read, with the parser's message.
#[derive(Debug)]
pub struct DateDecodeError {
    pub message: String,
}

/// What `chrono::NaiveDate`'s `FromStr` makes of a text: year, month and day,
/// or nothing when the text is not a date in the `%Y-%m-%d` form.
pub uninterp spec fn naive_date_of(s: Seq<char>) -> Option<(i32, u32, u32)>;

/// The date as the triple that the parser's result is compared with.
pub open spec fn ymd(d: CalendarDate) -> (i32, u32, u32) {
    (d.year, d.month, d.day)
}

/// Relies on `chrono::NaiveDate`'s `FromStr` and on `Datelike`'s `year`,
/// `month` and `day`; on failure, the text of chrono's `ParseError`.
#[verifier::external_body]
fn parse_naive_date(s: &str) -> (r: Result<CalendarDate, String>)
    ensures
        r is Ok <==> naive_date_of(s@) is Some,
        r is Ok ==> naive_date_of(s@) == Some(ymd(r->Ok_0)),
{
    match s.parse::<chrono::NaiveDate>() {
        Ok(d) => Ok(CalendarDate { year: d.year(), month: d.month(), day: d.day() }),
        Err(e) => Err(e.to_string()),
    }
}

/// Whether a raw release date stands for no date: absent or empty.
pub open spec fn is_blank(raw: Option<String>) -> bool {
    match raw {
        Some(s) => s@.len() == 0,
        None => true,
    }
}

/// Settles a raw release date given what the date parser made of it: a blank
/// value is no date, whatever the parser said; otherwise the parsed date, or
/// the parser's error.
pub fn release_date_from(raw: &Option<String>, parsed: Result<CalendarDate, String>) -> (r: Result<Option<CalendarDate>, DateDecodeError>)
    ensures
        is_blank(*raw) ==> r is Ok && r->Ok_0 is None,
        !is_blank(*raw) ==> (match parsed {
            Ok(d) => r is Ok && r->Ok_0 == Some(d),
            Err(m) => r is Err && r->Err_0.message@ == m@,
        }),
{
    match raw {
        Some(s) => {
            if s.as_str().is_empty() {
                Ok(None)
            } else {
                match parsed {
                    Ok(d) => Ok(Some(d)),
                    Err(m) => Err(DateDecodeError { message: m }),
                }
            }
        },
        None => Ok(None),
    }
}

/// Reads the release date of a search result: an absent or empty value is no
/// date, any other value must be a `%Y-%m-%d` date.
pub fn decode_release_date(raw: &Option<String>) -> (r: Result<Option<CalendarDate>, DateDecodeError>)
    ensures
        is_blank(*raw) ==> r is Ok && r->Ok_0 is None,
        !is_blank(*raw) ==> (match naive_date_of(raw->Some_0@) {
            Some(t) => r is Ok && r->Ok_0 is Some && ymd(r->Ok_0->Some_0) == t,
            None => r is Err,
        }),
{
    match raw {
        Some(s) => {
            if s.as_str().is_empty() {
                Ok(None)
            } else {
                let parsed = parse_naive_date(s.as_str());
                release_date_from(raw, parsed)
            }
        },
        None => Ok(None),
    }
}

} // verus!
