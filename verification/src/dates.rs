//! Calendar dates and times of events, parsed and printed with `chrono`.
//!
//! Events are posted with a `YYYY/MM/DD` date, stored as
//! `YYYY-MM-DD 00:00:00`, and shown again as `YYYY/MM/DD`.

use vstd::prelude::*;
use chrono::{Datelike, Timelike};
use crate::decimal::{decimal, decimal_digit};

verus! {

/// A proleptic Gregorian calendar date.
#[derive(Clone, Copy, PartialEq, Eq, Structural, Debug)]
pub struct CalendarDate {
    pub year: i32,
    pub month: u32,
    pub day: u32,
}

/// A date with a time of day, to the second.
#[derive(Clone, Copy, PartialEq, Eq, Structural, Debug)]
pub struct DateTime {
    pub date: CalendarDate,
    pub hour: u32,
    pub minute: u32,
    pub second: u32,
}

/// Earliest and latest years a `chrono::NaiveDate` can hold.
pub open spec fn min_year() -> int {
    -262143
}

pub open spec fn max_year() -> int {
    262142
}

pub open spec fn is_leap_year(y: int) -> bool {
    y % 4 == 0 && (y % 100 != 0 || y % 400 == 0)
}

pub open spec fn days_in_month(y: int, m: int) -> int {
    if m == 2 {
        if is_leap_year(y) {
            29
        } else {
            28
        }
    } else if m == 4 || m == 6 || m == 9 || m == 11 {
        30
    } else {
        31
    }
}

/// A day that exists in the calendar and that `chrono` can represent.
pub open spec fn valid_date(y: int, m: int, d: int) -> bool {
    &&& min_year() <= y <= max_year()
    &&& 1 <= m <= 12
    &&& 1 <= d <= days_in_month(y, m)
}

impl CalendarDate {
    pub open spec fn valid(self) -> bool {
        valid_date(self.year as int, self.month as int, self.day as int)
    }

    pub open spec fn fields(self) -> (int, int, int) {
        (self.year as int, self.month as int, self.day as int)
    }
}

impl DateTime {
    /// A valid date and a time of day with hour below 24 and minute and second below 60.
    pub open spec fn valid(self) -> bool {
        self.date.valid() && self.hour < 24 && self.minute < 60 && self.second < 60
    }

    pub open spec fn fields(self) -> (int, int, int, int, int, int) {
        (
            self.date.year as int,
            self.date.month as int,
            self.date.day as int,
            self.hour as int,
            self.minute as int,
            self.second as int,
        )
    }
}

/// The format in which the database stores event times.
pub open spec fn storage_format() -> Seq<char> {
    "%Y-%m-%d %H:%M:%S"@
}

/// The format in which events are posted and shown.
pub open spec fn date_format() -> Seq<char> {
    "%Y/%m/%d"@
}

/// The decimal digits of `n`, with zeros in front up to `width` characters.
pub open spec fn zero_padded(n: nat, width: nat) -> Seq<char> {
    let digits = decimal(n);
    if digits.len() < width {
        Seq::new((width - digits.len()) as nat, |i: int| '0') + digits
    } else {
        digits
    }
}

/// `%Y`: four digits for years 0 to 9999, else a sign and at least four digits.
pub open spec fn year_text(y: int) -> Seq<char> {
    if 0 <= y <= 9999 {
        zero_padded(y as nat, 4)
    } else if y < 0 {
        seq!['-'] + zero_padded((-y) as nat, 4)
    } else {
        seq!['+'] + zero_padded(y as nat, 4)
    }
}

/// `%m`, `%d`, `%H`, `%M`, `%S`: two digits, zero-padded.
pub open spec fn two_digits(v: int) -> Seq<char> {
    seq![decimal_digit(v / 10), decimal_digit(v % 10)]
}

/// A date and time printed with `%Y-%m-%d %H:%M:%S`.
pub open spec fn storage_text(t: (int, int, int, int, int, int)) -> Seq<char> {
    year_text(t.0) + seq!['-'] + two_digits(t.1) + seq!['-'] + two_digits(t.2) + seq![' ']
        + two_digits(t.3) + seq![':'] + two_digits(t.4) + seq![':'] + two_digits(t.5)
}

/// A date printed with `%Y/%m/%d`.
pub open spec fn date_text(y: int, m: int, d: int) -> Seq<char> {
    year_text(y) + seq!['/'] + two_digits(m) + seq!['/'] + two_digits(d)
}

/// What `chrono::NaiveDate::parse_from_str` yields for a text and a format:
/// the year, month and day, or nothing where it fails.
pub uninterp spec fn chrono_parsed_date(text: Seq<char>, fmt: Seq<char>) -> Option<(int, int, int)>;

/// What `chrono::NaiveDateTime::parse_from_str` yields for a text and a format:
/// year, month, day, hour, minute and second, or nothing where it fails.
pub uninterp spec fn chrono_parsed_date_time(text: Seq<char>, fmt: Seq<char>) -> Option<
    (int, int, int, int, int, int),
>;

/// Parses a date with `chrono::NaiveDate::parse_from_str`.
///
/// Trusted: the result is named `chrono_parsed_date` of the text and format;
/// beside the name the contract states only that a `NaiveDate` is a valid
/// calendar date in chrono's year range, as chrono documents.
#[verifier::external_body]
pub(crate) fn parse_date(text: &str, fmt: &str) -> (date: Option<CalendarDate>)
    ensures
        match date {
            Some(d) => {
                &&& chrono_parsed_date(text@, fmt@) == Some(d.fields())
                &&& d.valid()
            },
            None => chrono_parsed_date(text@, fmt@) is None,
        },
{
    match chrono::NaiveDate::parse_from_str(text, fmt) {
        Ok(d) => Some(CalendarDate { year: d.year(), month: d.month(), day: d.day() }),
        Err(_) => None,
    }
}

/// Parses a date and time with `chrono::NaiveDateTime::parse_from_str`.
///
/// Trusted: the result is named `chrono_parsed_date_time` of the text and
/// format; beside the name the contract states only that the date is valid
/// and that hour, minute and second are in their documented ranges
/// (`Timelike::second` is below 60 also for a leap second).
#[verifier::external_body]
pub(crate) fn parse_date_time(text: &str, fmt: &str) -> (parsed: Option<DateTime>)
    ensures
        match parsed {
            Some(t) => {
                &&& chrono_parsed_date_time(text@, fmt@) == Some(t.fields())
                &&& t.valid()
            },
            None => chrono_parsed_date_time(text@, fmt@) is None,
        },
{
    match chrono::NaiveDateTime::parse_from_str(text, fmt) {
        Ok(t) => Some(
            DateTime {
                date: CalendarDate { year: t.year(), month: t.month(), day: t.day() },
                hour: t.hour(),
                minute: t.minute(),
                second: t.second(),
            },
        ),
        Err(_) => None,
    }
}

/// Prints a date and time with `chrono::NaiveDateTime::format`.
///
/// Trusted: for the two formats this crate uses, the contract states the text
/// that chrono documents for `%Y`, `%m`, `%d`, `%H`, `%M` and `%S` (zero-padded
/// numbers; a year outside 0 to 9999 gets a sign). Nothing is stated for
/// other formats, which `requires` excludes.
#[verifier::external_body]
pub(crate) fn format_date_time(value: &DateTime, fmt: &str) -> (text: String)
    requires
        value.valid(),
        fmt@ == storage_format() || fmt@ == date_format(),
    ensures
        fmt@ == storage_format() ==> text@ == storage_text(value.fields()),
        fmt@ == date_format() ==> text@ == date_text(
            value.date.year as int,
            value.date.month as int,
            value.date.day as int,
        ),
{
    let date = chrono::NaiveDate::from_ymd_opt(value.date.year, value.date.month, value.date.day)
        .unwrap();
    let time = date.and_hms_opt(value.hour, value.minute, value.second).unwrap();
    time.format(fmt).to_string()
}

/// Reads the local clock (`chrono::Local::now`) to the second.
///
/// Trusted: the result depends on the time and the time zone, so nothing is
/// stated of which moment it is; only that it is a valid date and time, as
/// for every value of chrono's date types.
#[verifier::external_body]
pub(crate) fn local_now() -> (now: DateTime)
    ensures
        now.valid(),
{
    let n = chrono::Local::now();
    DateTime {
        date: CalendarDate { year: n.year(), month: n.month(), day: n.day() },
        hour: n.hour(),
        minute: n.minute(),
        second: n.second(),
    }
}

/// The time text under which a posted event date is stored: the date at
/// midnight, printed with the storage format.
pub fn midnight_text(date: CalendarDate) -> (text: String)
    requires
        date.valid(),
    ensures
        text@ == storage_text((date.year as int, date.month as int, date.day as int, 0, 0, 0)),
{
    let at = DateTime { date, hour: 0, minute: 0, second: 0 };
    format_date_time(&at, "%Y-%m-%d %H:%M:%S")
}

/// The stored time of an event posted with `posted` as its date, or `None`
/// when chrono does not read it as `YYYY/MM/DD`.
pub open spec fn spec_stored_time(posted: Seq<char>) -> Option<Seq<char>> {
    match chrono_parsed_date(posted, date_format()) {
        Some(d) => Some(storage_text((d.0, d.1, d.2, 0, 0, 0))),
        None => None,
    }
}

/// Converts a posted `YYYY/MM/DD` date into the stored time text.
pub fn stored_time(posted: &str) -> (stored: Option<String>)
    ensures
        match stored {
            Some(s) => spec_stored_time(posted@) == Some(s@),
            None => spec_stored_time(posted@) is None,
        },
{
    match parse_date(posted, "%Y/%m/%d") {
        Some(d) => Some(midnight_text(d)),
        None => None,
    }
}

/// How a stored time is shown, given what chrono read from it.
pub open spec fn shown_time(stored: Seq<char>, parsed: Option<(int, int, int, int, int, int)>) -> Seq<char> {
    match parsed {
        Some(t) => date_text(t.0, t.1, t.2),
        None => stored,
    }
}

/// How a stored event time is shown: its date as `YYYY/MM/DD` where chrono
/// reads it with the storage format, else the stored text unchanged.
pub open spec fn spec_display_time(stored: Seq<char>) -> Seq<char> {
    shown_time(stored, chrono_parsed_date_time(stored, storage_format()))
}

/// Shows a stored time, given what parsing it with the storage format gave.
pub fn display_parsed_time(stored: &String, parsed: Option<DateTime>) -> (shown: String)
    requires
        parsed matches Some(t) ==> t.valid(),
    ensures
        shown@ == shown_time(
            stored@,
            match parsed {
                Some(t) => Some(t.fields()),
                None => None,
            },
        ),
        parsed matches Some(t) ==> shown@ == date_text(
            t.date.year as int,
            t.date.month as int,
            t.date.day as int,
        ),
        parsed is None ==> shown@ == stored@,
{
    match parsed {
        Some(t) => format_date_time(&t, "%Y/%m/%d"),
        None => stored.clone(),
    }
}

/// Shows a stored event time as the API returns it.
pub fn display_time(stored: &String) -> (shown: String)
    ensures
        shown@ == spec_display_time(stored@),
        chrono_parsed_date_time(stored@, storage_format()) matches Some(t) ==> shown@ == date_text(
            t.0,
            t.1,
            t.2,
        ),
        chrono_parsed_date_time(stored@, storage_format()) is None ==> shown@ == stored@,
{
    let parsed = parse_date_time(stored.as_str(), "%Y-%m-%d %H:%M:%S");
    display_parsed_time(stored, parsed)
}

/// Every stored time that chrono reads with the storage format is shown as
/// its date, `%Y/%m/%d`, whatever its time of day; every other text is shown
/// as it is.
pub proof fn lemma_display_is_date_of_parsed(stored: Seq<char>)
    ensures
        chrono_parsed_date_time(stored, storage_format()) matches Some(t) ==> spec_display_time(stored)
            == date_text(t.0, t.1, t.2),
        chrono_parsed_date_time(stored, storage_format()) is None ==> spec_display_time(stored)
            == stored,
{
}

proof fn lemma_decimal_len(n: nat)
    ensures
        decimal(n).len() >= 1,
        n < 10 ==> decimal(n).len() == 1,
        n < 100 ==> decimal(n).len() <= 2,
        n < 1000 ==> decimal(n).len() <= 3,
        n < 10000 ==> decimal(n).len() <= 4,
    decreases n,
{
    if n >= 10 {
        lemma_decimal_len(n / 10);
    }
}

/// For years 0 to 9999, a stored event time is 19 characters long:
/// `YYYY-MM-DD 00:00:00`, the posted date at midnight.
pub proof fn lemma_stored_time_shape(y: int, m: int, d: int)
    requires
        0 <= y <= 9999,
        valid_date(y, m, d),
    ensures
        storage_text((y, m, d, 0, 0, 0)).len() == 19,
        storage_text((y, m, d, 0, 0, 0)).subrange(0, 4) == zero_padded(y as nat, 4),
        storage_text((y, m, d, 0, 0, 0))[4] == '-',
        storage_text((y, m, d, 0, 0, 0)).subrange(5, 7) == two_digits(m),
        storage_text((y, m, d, 0, 0, 0))[7] == '-',
        storage_text((y, m, d, 0, 0, 0)).subrange(8, 10) == two_digits(d),
        storage_text((y, m, d, 0, 0, 0)).subrange(10, 19) == seq![' ', '0', '0', ':', '0', '0', ':', '0', '0'],
{
    lemma_decimal_len(y as nat);
    let year = zero_padded(y as nat, 4);
    assert(year.len() == 4);
    assert(decimal_digit(0) == '0');
    let t = storage_text((y, m, d, 0, 0, 0));
    assert(t.subrange(0, 4) =~= year);
    assert(t.subrange(5, 7) =~= two_digits(m));
    assert(t.subrange(8, 10) =~= two_digits(d));
    assert(t.subrange(10, 19) =~= seq![' ', '0', '0', ':', '0', '0', ':', '0', '0']);
}

/// Where chrono reads a stored time back as the date and midnight it was
/// printed from, the event is shown with the posted date as `YYYY/MM/DD`.
pub proof fn lemma_stored_date_is_shown(posted: Seq<char>, d: (int, int, int))
    requires
        chrono_parsed_date(posted, date_format()) == Some(d),
        chrono_parsed_date_time(storage_text((d.0, d.1, d.2, 0, 0, 0)), storage_format()) == Some(
            (d.0, d.1, d.2, 0int, 0int, 0int),
        ),
    ensures
        spec_stored_time(posted) matches Some(stored) && spec_display_time(stored) == date_text(
            d.0,
            d.1,
            d.2,
        ),
{
}

} // verus!
