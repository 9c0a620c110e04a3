//! Calendar days and the keys under which a day's records are kept.

use crate::record_store::time::{Timestamp, NANOS_PER_SEC};
use chrono::Datelike;
use vstd::prelude::*;

verus! {

/// The notation of a day key: year, month and day of month.
pub const DAY_KEY_FORMAT: &'static str = "%Y-%m-%d";

/// The last second of the clock for which the local day is asked of chrono:
/// the end of the year 9999, counted from the Unix epoch.
pub const LAST_CLOCK_SECOND: i64 = 253_402_300_799;

/// The first year of the calendar, which is that of chrono's `NaiveDate`.
pub const MIN_YEAR: i32 = -262_143;

/// The last year of the calendar, which is that of chrono's `NaiveDate`.
pub const MAX_YEAR: i32 = 262_142;

/// Whether a year has a 29th of February: every fourth year, but of the
/// years that end a century only every fourth.
pub open spec fn is_leap_year(year: int) -> bool {
    year % 4 == 0 && (year % 100 != 0 || year % 400 == 0)
}

/// The number of days of a month of a year.
pub open spec fn days_in_month(year: int, month: int) -> int {
    if month == 2 {
        if is_leap_year(year) {
            29
        } else {
            28
        }
    } else if month == 4 || month == 6 || month == 9 || month == 11 {
        30
    } else {
        31
    }
}

/// Whether the calendar has the day with the given year, month and day of
/// month: the year is one that the calendar covers, the month is one of the
/// twelve, and the month has the day. These are the days of which
/// `chrono::NaiveDate::from_ymd_opt` makes a date.
pub open spec fn calendar_has(year: i32, month: u32, day: u32) -> bool {
    &&& MIN_YEAR <= year <= MAX_YEAR
    &&& 1 <= month <= 12
    &&& 1 <= day <= days_in_month(year as int, month as int)
}

/// Whether a day is asked of chrono for the moment `now`: it is up to the
/// end of the year 9999.
pub open spec fn day_comes(now: Timestamp) -> bool {
    now.nanos / NANOS_PER_SEC <= LAST_CLOCK_SECOND
}

/// The text that `chrono::NaiveDate::format` gives for the date of the given
/// year, month and day in the notation `format`.
pub uninterp spec fn date_text(format: Seq<char>, year: i32, month: u32, day: u32) -> Seq<char>;

/// The year, month and day that `chrono::NaiveDate::parse_from_str` reads
/// from `text` in the notation `format`, or `None` where it rejects the text
/// or the notation.
pub uninterp spec fn parsed_date(format: Seq<char>, text: Seq<char>) -> Option<(i32, u32, u32)>;

/// The key of the day with the given year, month and day.
pub open spec fn day_key_text(year: i32, month: u32, day: u32) -> Seq<char> {
    date_text(DAY_KEY_FORMAT@, year, month, day)
}

/// The day that a key stands for, or `None` where it stands for none.
pub open spec fn day_key_date(key: Seq<char>) -> Option<(i32, u32, u32)> {
    parsed_date(DAY_KEY_FORMAT@, key)
}

/// The decimal digit for a number from 0 to 9.
pub open spec fn digit(n: int) -> char {
    if n == 0 {
        '0'
    } else if n == 1 {
        '1'
    } else if n == 2 {
        '2'
    } else if n == 3 {
        '3'
    } else if n == 4 {
        '4'
    } else if n == 5 {
        '5'
    } else if n == 6 {
        '6'
    } else if n == 7 {
        '7'
    } else if n == 8 {
        '8'
    } else {
        '9'
    }
}

/// A number below 100 in two digits, with a leading zero where it is below
/// 10.
pub open spec fn two_digits(n: int) -> Seq<char> {
    seq![digit(n / 10), digit(n % 10)]
}

/// A number below 10000 in four digits, with leading zeros.
pub open spec fn four_digits(n: int) -> Seq<char> {
    seq![digit(n / 1000), digit(n / 100 % 10), digit(n / 10 % 10), digit(n % 10)]
}

/// A day of the years 0 to 9999 in ten characters: the year in four digits,
/// the month in two and the day in two, with `-` between them.
pub open spec fn iso_text(year: i32, month: u32, day: u32) -> Seq<char> {
    four_digits(year as int) + seq!['-'] + two_digits(month as int) + seq!['-'] + two_digits(
        day as int,
    )
}

/// Asks chrono for the day that it is in the local time zone at the given
/// second after the Unix epoch: `chrono::DateTime::from_timestamp` makes the
/// moment and `DateTime::with_timezone` with `chrono::Local` moves it to
/// local time. The seconds are kept within the years 1970 to 9999, far
/// inside the range of `from_timestamp`, which gives `None` only outside its
/// range, so a day always comes. Which day comes depends on the time zone of
/// the machine; the contract claims of it only that it is a day of the
/// calendar.
#[verifier::external_body]
fn local_date_at(secs_since_epoch: i64) -> (date: Option<(i32, u32, u32)>)
    requires
        0 <= secs_since_epoch <= LAST_CLOCK_SECOND,
    ensures
        date is Some,
        date matches Some(d) ==> calendar_has(d.0, d.1, d.2),
{
    match chrono::DateTime::from_timestamp(secs_since_epoch, 0) {
        Some(moment) => {
            let date = moment.with_timezone(&chrono::Local).date_naive();
            Some((date.year(), date.month(), date.day()))
        },
        None => None,
    }
}

/// Writes a date of the calendar in the notation of a day key with
/// `chrono::NaiveDate::format`, on the date that
/// `chrono::NaiveDate::from_ymd_opt` makes of the three numbers, which it
/// does for every day of the calendar. The text is [`date_text`] by
/// definition. For
/// the years 0 to 9999 chrono documents what the three parts of the notation
/// write: the year padded with zeros to four digits, the month and the day
/// padded with zeros to two.
#[verifier::external_body]
fn format_date(year: i32, month: u32, day: u32, format: &str) -> (text: String)
    requires
        calendar_has(year, month, day),
        format@ == DAY_KEY_FORMAT@,
    ensures
        text@ == date_text(format@, year, month, day),
        0 <= year <= 9999 ==> text@ == iso_text(year, month, day),
{
    match chrono::NaiveDate::from_ymd_opt(year, month, day) {
        Some(date) => date.format(format).to_string(),
        None => String::new(),
    }
}

/// Reads a text in a notation with `chrono::NaiveDate::parse_from_str`. The
/// result is [`parsed_date`] by definition; a date that was read is a date
/// of the calendar. In the notation of a day key, the ten characters that
/// stand for a day of the years 0 to 9999 are read as that day.
#[verifier::external_body]
fn parse_date(text: &str, format: &str) -> (date: Option<(i32, u32, u32)>)
    ensures
        date == parsed_date(format@, text@),
        date matches Some(d) ==> calendar_has(d.0, d.1, d.2),
        format@ == DAY_KEY_FORMAT@ ==> forall|year: i32, month: u32, day: u32|
            0 <= year <= 9999 && calendar_has(year, month, day) && text@ == #[trigger] iso_text(
                year,
                month,
                day,
            ) ==> date == Some((year, month, day)),
{
    match chrono::NaiveDate::parse_from_str(text, format) {
        Ok(date) => Some((date.year(), date.month(), date.day())),
        Err(_) => None,
    }
}

/// A day of the calendar.
#[derive(Debug, Clone, Copy, PartialEq, Eq, Structural)]
pub struct Date {
    year: i32,
    month: u32,
    day: u32,
}

impl View for Date {
    type V = (i32, u32, u32);

    /// Year, month and day.
    closed spec fn view(&self) -> (i32, u32, u32) {
        (self.year, self.month, self.day)
    }
}

impl DeepView for Date {
    type V = (i32, u32, u32);

    open spec fn deep_view(&self) -> (i32, u32, u32) {
        self@
    }
}

impl Date {
    #[verifier::type_invariant]
    spec fn in_calendar(self) -> bool {
        calendar_has(self.year, self.month, self.day)
    }

    /// The key under which the records of this day are kept.
    pub open spec fn key_text(self) -> Seq<char> {
        day_key_text(self@.0, self@.1, self@.2)
    }

    /// Whether the year has a 29th of February.
    pub fn leap_year(year: i32) -> (leap: bool)
        ensures
            leap == is_leap_year(year as int),
    {
        // A multiple of 400 is added so that the remainders are taken of a
        // number that is not negative.
        let wide: i64 = year as i64;
        let shifted: i64 = wide + 2_147_484_000;
        assert(shifted as int % 4 == year as int % 4);
        assert(shifted as int % 100 == year as int % 100);
        assert(shifted as int % 400 == year as int % 400);
        shifted % 4 == 0 && (shifted % 100 != 0 || shifted % 400 == 0)
    }

    /// The day with the given year, month and day of month, if the calendar
    /// has it.
    pub fn from_ymd(year: i32, month: u32, day: u32) -> (date: Option<Date>)
        ensures
            date is Some <==> calendar_has(year, month, day),
            date matches Some(d) ==> d@ == (year, month, day),
    {
        if year < MIN_YEAR || year > MAX_YEAR || month < 1 || month > 12 || day < 1 {
            return None;
        }
        let last: u32 = if month == 2 {
            if Self::leap_year(year) {
                29
            } else {
                28
            }
        } else if month == 4 || month == 6 || month == 9 || month == 11 {
            30
        } else {
            31
        };
        if day <= last {
            Some(Date { year, month, day })
        } else {
            None
        }
    }

    /// The day that it is in the local time zone at `now`. A day is given
    /// for every moment up to the end of the year 9999 and for none after
    /// it.
    pub fn local_on(now: Timestamp) -> (date: Option<Date>)
        ensures
            date is Some <==> day_comes(now),
            date matches Some(d) ==> calendar_has(d@.0, d@.1, d@.2),
    {
        let secs: u128 = now.nanos / NANOS_PER_SEC;
        if secs > LAST_CLOCK_SECOND as u128 {
            return None;
        }
        match local_date_at(secs as i64) {
            Some((year, month, day)) => Some(Date { year, month, day }),
            None => None,
        }
    }

    /// Today by the system clock, in the local time zone: whatever the clock
    /// reads, the day that [`Date::local_on`] gives for that reading.
    pub fn today() -> (today: Option<Date>)
        ensures
            exists|now: Timestamp| (today is Some <==> #[trigger] day_comes(now)),
            today matches Some(d) ==> calendar_has(d@.0, d@.1, d@.2),
    {
        Self::local_on(Timestamp::now())
    }

    /// The year of the day.
    pub fn year(&self) -> (year: i32)
        ensures
            year == self@.0,
    {
        self.year
    }

    /// The month of the day, from 1.
    pub fn month(&self) -> (month: u32)
        ensures
            month == self@.1,
    {
        self.month
    }

    /// The day of the month, from 1.
    pub fn day(&self) -> (day: u32)
        ensures
            day == self@.2,
    {
        self.day
    }

    /// The key under which the records of this day are kept. For a day of
    /// the years 0 to 9999 it is the ten characters of [`iso_text`].
    pub fn day_key(&self) -> (key: String)
        ensures
            key@ == self.key_text(),
            calendar_has(self@.0, self@.1, self@.2),
            0 <= self@.0 <= 9999 ==> key@ == iso_text(self@.0, self@.1, self@.2),
    {
        proof {
            use_type_invariant(self);
        }
        format_date(self.year, self.month, self.day, DAY_KEY_FORMAT)
    }

    /// The day that a key stands for, if the key is the notation of one.
    /// The ten characters that stand for a day of the years 0 to 9999 are
    /// read as that day.
    pub fn from_day_key(key: &str) -> (date: Option<Date>)
        ensures
            date.deep_view() == day_key_date(key@),
            forall|year: i32, month: u32, day: u32|
                0 <= year <= 9999 && calendar_has(year, month, day) && key@ == #[trigger] iso_text(
                    year,
                    month,
                    day,
                ) ==> date.deep_view() == Some((year, month, day)),
    {
        match parse_date(key, DAY_KEY_FORMAT) {
            Some((year, month, day)) => Some(Date { year, month, day }),
            None => None,
        }
    }
}

} // verus!
