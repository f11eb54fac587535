//! Calendar dates, as `chrono` reads and writes them.
//!
//! A date is kept as year, month and day. Whether the three make a day of the
//! calendar, and how such a day is written, is `chrono`'s to say; the two
//! functions that ask it are trusted.

use vstd::prelude::*;

verus! {

/// How `chrono` writes the calendar day of the given year, month and day, or
/// nothing where there is no such day.
pub uninterp spec fn calendar_date_text(year: int, month: int, day: int) -> Option<Seq<char>>;

/// The year, month and day of the date that `chrono` reads from `text`, or
/// nothing where it reads none.
pub uninterp spec fn calendar_date_parsed(text: Seq<char>) -> Option<(int, int, int)>;

/// `chrono::NaiveDate::from_ymd_opt`, then the date's `Display` text: the day
/// written as year, month and day with hyphens between, or nothing where the
/// calendar has no such day.
#[verifier::external_body]
pub(crate) fn date_text(year: i32, month: u32, day: u32) -> (text: Option<String>)
    ensures
        text is Some <==> calendar_date_text(year as int, month as int, day as int) is Some,
        text matches Some(written) ==> calendar_date_text(year as int, month as int, day as int)
            == Some(written@),
{
    chrono::NaiveDate::from_ymd_opt(year, month, day).map(|date| date.to_string())
}

/// `str::parse::<chrono::NaiveDate>`, then the date's year, month and day. A
/// date that was read is a day of the calendar.
#[verifier::external_body]
pub(crate) fn parse_date(text: &str) -> (date: Option<(i32, u32, u32)>)
    ensures
        date is Some <==> calendar_date_parsed(text@) is Some,
        date matches Some(read) ==> calendar_date_parsed(text@) == Some(
            (read.0 as int, read.1 as int, read.2 as int),
        ) && calendar_date_text(read.0 as int, read.1 as int, read.2 as int) is Some,
{
    text.parse::<chrono::NaiveDate>().ok().map(
        |date|
            (
                chrono::Datelike::year(&date),
                chrono::Datelike::month(&date),
                chrono::Datelike::day(&date),
            ),
    )
}

/// A day, by year, month and day of the month.
#[derive(Clone, Copy, Debug, PartialEq, Eq, Structural)]
pub struct BirthDate {
    pub year: i32,
    pub month: u32,
    pub day: u32,
}

impl BirthDate {
    /// How the day is written, where it is a day of the calendar.
    pub open spec fn spec_text(&self) -> Option<Seq<char>> {
        calendar_date_text(self.year as int, self.month as int, self.day as int)
    }

    /// Whether this is a day of the calendar.
    pub open spec fn is_calendar_day(&self) -> bool {
        self.spec_text() is Some
    }

    /// The day that `text` writes, if it writes one.
    pub open spec fn spec_parse(text: Seq<char>) -> Option<BirthDate> {
        match calendar_date_parsed(text) {
            Some((year, month, day)) => if i32::MIN <= year <= i32::MAX && 0 <= month <= u32::MAX
                && 0 <= day <= u32::MAX {
                Some(BirthDate { year: year as i32, month: month as u32, day: day as u32 })
            } else {
                None
            },
            None => None,
        }
    }

    /// How the day is written, or nothing where it is no day of the
    /// calendar.
    pub fn text(&self) -> (text: Option<String>)
        ensures
            text is Some <==> self.spec_text() is Some,
            text matches Some(written) ==> self.spec_text() == Some(written@),
    {
        date_text(self.year, self.month, self.day)
    }

    /// The day that `text` writes, if it writes one.
    pub fn parse(text: &str) -> (date: Option<BirthDate>)
        ensures
            date == Self::spec_parse(text@),
            date matches Some(read) ==> read.is_calendar_day(),
    {
        match parse_date(text) {
            Some((year, month, day)) => Some(BirthDate { year, month, day }),
            None => None,
        }
    }
}

} // verus!
