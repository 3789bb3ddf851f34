use vstd::prelude::*;
use vstd::string::*;
use vstd::std_specs::convert::{FromSpecImpl, TryFromSpecImpl};
use chrono::{Datelike, NaiveDate};
use crate::error::{ParseError, ParseResult};
use crate::parser_uint::{be_u32, parse_u32, too_short};
use crate::text::{decimal_string, decimal_text, digit_char};

verus! {

/// `chrono::NaiveDate`: a day of the calendar, opaque to the verifier.
#[verifier::external_type_specification]
#[verifier::external_body]
pub struct ExNaiveDate(NaiveDate);

/// A calendar date held as the number `YYYYMMDD`.
#[derive(Debug, Copy, Clone, Eq, PartialEq, Ord, PartialOrd, Structural)]
pub struct Date(pub u32);

/// The last year that a calendar date can have.
pub const MAX_YEAR: u32 = 262142;

/// Whether `year` is a leap year of the Gregorian calendar.
pub open spec fn is_leap_year(year: int) -> bool {
    year % 4 == 0 && (year % 100 != 0 || year % 400 == 0)
}

/// The number of days of a month; none for a month that does not exist.
pub open spec fn days_in_month(year: int, month: int) -> int {
    if month == 2 {
        if is_leap_year(year) {
            29
        } else {
            28
        }
    } else if month == 4 || month == 6 || month == 9 || month == 11 {
        30
    } else if 1 <= month <= 12 {
        31
    } else {
        0
    }
}

/// Whether year, month and day name a day of the Gregorian calendar that a
/// calendar date can hold, for a year that is not negative.
pub open spec fn is_calendar_date(year: int, month: int, day: int) -> bool {
    0 <= year <= MAX_YEAR && 1 <= month <= 12 && 1 <= day <= days_in_month(year, month)
}

/// The calendar date of a year, a month and a day, if there is such a day.
pub uninterp spec fn naive_date_of(year: i32, month: u32, day: u32) -> Option<NaiveDate>;

/// `NaiveDate::from_ymd_opt`: the calendar date, or `None` where the day
/// does not exist or the year is out of range. For a year that is not
/// negative the contract says which it is.
#[verifier::external_body]
pub(crate) fn naive_date_from_ymd(year: i32, month: u32, day: u32) -> (date: Option<NaiveDate>)
    ensures
        date == naive_date_of(year, month, day),
        year >= 0 ==> (date is Some <==> is_calendar_date(year as int, month as int, day as int)),
{
    NaiveDate::from_ymd_opt(year, month, day)
}

/// `Datelike::year`, `month` and `day` of a calendar date: the parts that it
/// was made of.
#[verifier::external_body]
pub(crate) fn calendar_parts(date: &NaiveDate) -> (parts: (i32, u32, u32))
    ensures
        forall|year: i32, month: u32, day: u32|
            #[trigger] naive_date_of(year, month, day) == Some(*date) ==> parts == (
                year,
                month,
                day,
            ),
        1 <= parts.1 <= 12,
        1 <= parts.2 <= 31,
{
    (date.year(), date.month(), date.day())
}

/// A number below 100 in two digits.
pub open spec fn two_digits(n: int) -> Seq<char> {
    seq![digit_char((n / 10) as nat), digit_char((n % 10) as nat)]
}

/// The text of a year that is not negative: four digits, or a plus sign
/// and all its digits where it has more than four.
pub open spec fn year_text(year: int) -> Seq<char> {
    if year <= 9999 {
        two_digits(year / 100) + two_digits(year % 100)
    } else {
        seq!['+'] + decimal_text(year as nat)
    }
}

/// The text of a date: year, month and day with hyphens between them.
pub open spec fn date_text(year: int, month: int, day: int) -> Seq<char> {
    year_text(year) + seq!['-'] + two_digits(month) + seq!['-'] + two_digits(day)
}

/// `NaiveDate::format` with `%Y-%m-%d`, as text: the year in four digits,
/// or signed where it has more, then month and day in two digits each.
#[verifier::external_body]
pub(crate) fn format_calendar_date(date: &NaiveDate) -> (text: String)
    ensures
        forall|year: i32, month: u32, day: u32|
            year >= 0 && #[trigger] naive_date_of(year, month, day) == Some(*date) ==> text@
                == date_text(year as int, month as int, day as int),
{
    date.format("%Y-%m-%d").to_string()
}

/// The four bytes of a number, big end first.
pub open spec fn be_bytes_u32(value: u32) -> Seq<u8> {
    seq![
        (value / 0x100_0000) as u8,
        (value / 0x1_0000 % 0x100) as u8,
        (value / 0x100 % 0x100) as u8,
        (value % 0x100) as u8,
    ]
}

/// The date that the first bytes of `bytes` hold, if they are four or more.
pub open spec fn date_of_bytes(bytes: Seq<u8>) -> Result<Date, ParseError> {
    if bytes.len() >= 4 {
        Ok(Date(be_u32(bytes) as u32))
    } else {
        Err(too_short(bytes, 4))
    }
}

impl Date {
    /// The year that the number holds.
    pub open spec fn year(self) -> int {
        self.0 as int / 10000
    }

    /// The month that the number holds.
    pub open spec fn month(self) -> int {
        self.0 as int / 100 % 100
    }

    /// The day that the number holds.
    pub open spec fn day(self) -> int {
        self.0 as int % 100
    }

    /// Whether the number names a day of the calendar.
    pub open spec fn is_valid(self) -> bool {
        is_calendar_date(self.year(), self.month(), self.day())
    }

    /// The text of the date: `YYYY-MM-DD`, or the number itself marked as
    /// invalid where it names no day.
    pub open spec fn text(self) -> Seq<char> {
        if self.is_valid() {
            date_text(self.year(), self.month(), self.day())
        } else {
            "Invalid("@ + decimal_text(self.0 as nat) + ")"@
        }
    }

    /// The calendar date, if the number names a day of the calendar.
    #[inline(always)]
    pub fn to_naive_date(&self) -> (date: Option<NaiveDate>)
        ensures
            date is Some <==> self.is_valid(),
            date == naive_date_of(self.year() as i32, self.month() as u32, self.day() as u32),
    {
        let year: i32 = (self.0 / 10_000) as i32;
        let month: u32 = (self.0 / 100) % 100;
        let day: u32 = self.0 % 100;
        naive_date_from_ymd(year, month, day)
    }

    /// The number in four bytes, big end first.
    #[inline(always)]
    pub fn to_bytes(&self) -> (bytes: [u8; 4])
        ensures
            bytes@ == be_bytes_u32(self.0),
    {
        let value: u32 = self.0;
        let bytes: [u8; 4] = [
            (value / 0x100_0000) as u8,
            (value / 0x1_0000 % 0x100) as u8,
            (value / 0x100 % 0x100) as u8,
            (value % 0x100) as u8,
        ];
        proof {
            assert(bytes@ =~= be_bytes_u32(self.0));
        }
        bytes
    }

    /// The date that the first four bytes hold, big end first. The caller
    /// sees to it that there are four.
    #[inline(always)]
    pub fn from_bytes_unchecked(bytes: &[u8]) -> (date: Self)
        requires
            bytes@.len() >= 4,
        ensures
            date.0 == be_u32(bytes@),
    {
        Date(
            (bytes[0] as u32) * 0x100_0000 + (bytes[1] as u32) * 0x1_0000 + (bytes[2] as u32)
                * 0x100 + (bytes[3] as u32),
        )
    }

    /// The text of the date: `YYYY-MM-DD`, or the number itself marked as
    /// invalid where it names no day.
    pub fn to_string(&self) -> (text: String)
        ensures
            text@ == self.text(),
    {
        match self.to_naive_date() {
            Some(date) => format_calendar_date(&date),
            None => {
                let mut text = String::from_str("Invalid(");
                text.append(decimal_string(self.0 as u128).as_str());
                text.append(")");
                text
            },
        }
    }
}

impl<'a> TryFrom<&'a [u8]> for Date {
    type Error = ParseError;

    #[inline(always)]
    fn try_from(bytes: &'a [u8]) -> (result: Result<Self, ParseError>) {
        match parse_u32(bytes) {
            Ok(raw) => Ok(Date(raw)),
            Err(error) => Err(error),
        }
    }
}

impl<'a> TryFromSpecImpl<&'a [u8]> for Date {
    open spec fn obeys_try_from_spec() -> bool {
        true
    }

    open spec fn try_from_spec(bytes: &'a [u8]) -> Result<Self, ParseError> {
        date_of_bytes(bytes@)
    }
}

impl From<u32> for Date {
    #[inline(always)]
    fn from(raw: u32) -> (date: Self) {
        Date(raw)
    }
}

impl FromSpecImpl<u32> for Date {
    open spec fn obeys_from_spec() -> bool {
        true
    }

    open spec fn from_spec(raw: u32) -> Self {
        Date(raw)
    }
}

impl From<Date> for u32 {
    #[inline(always)]
    fn from(date: Date) -> (raw: Self) {
        date.0
    }
}

impl FromSpecImpl<Date> for u32 {
    open spec fn obeys_from_spec() -> bool {
        true
    }

    open spec fn from_spec(date: Date) -> Self {
        date.0
    }
}

impl From<Date> for [u8; 4] {
    #[inline(always)]
    fn from(date: Date) -> (bytes: Self) {
        let value: u32 = date.0;
        [
            (value / 0x100_0000) as u8,
            (value / 0x1_0000 % 0x100) as u8,
            (value / 0x100 % 0x100) as u8,
            (value % 0x100) as u8,
        ]
    }
}

impl FromSpecImpl<Date> for [u8; 4] {
    open spec fn obeys_from_spec() -> bool {
        true
    }

    open spec fn from_spec(date: Date) -> Self {
        [
            (date.0 / 0x100_0000) as u8,
            (date.0 / 0x1_0000 % 0x100) as u8,
            (date.0 / 0x100 % 0x100) as u8,
            (date.0 % 0x100) as u8,
        ]
    }
}

impl From<NaiveDate> for Date {
    /// The number `YYYYMMDD` of a calendar date. For a date made of a year
    /// from 0 to `MAX_YEAR`, a month and a day, it is `year * 10000 + month
    /// * 100 + day`.
    #[inline(always)]
    fn from(date: NaiveDate) -> (number: Self)
        ensures
            forall|year: i32, month: u32, day: u32|
                0 <= year <= MAX_YEAR && #[trigger] naive_date_of(year, month, day) == Some(date)
                    ==> number.0 == year * 10000 + month * 100 + day,
    {
        let (year, month, day) = calendar_parts(&date);
        // A year before the year 0 wraps round, as it does in a cast.
        let year_number: u32 = if year >= 0 {
            year as u32
        } else {
            (year as i64 + 0x1_0000_0000) as u32
        };
        Date(year_number.wrapping_mul(10_000).wrapping_add(month * 100).wrapping_add(day))
    }
}

impl FromSpecImpl<NaiveDate> for Date {
    open spec fn obeys_from_spec() -> bool {
        false
    }

    open spec fn from_spec(date: NaiveDate) -> Self {
        Date(0)
    }
}

impl TryFrom<Date> for NaiveDate {
    type Error = ParseError;

    /// The calendar date, or `InvalidDate` where the number names no day.
    #[inline(always)]
    fn try_from(date: Date) -> (result: ParseResult<NaiveDate>)
        ensures
            result is Ok <==> date.is_valid(),
            result is Err ==> result == Err::<NaiveDate, ParseError>(ParseError::InvalidDate),
    {
        match date.to_naive_date() {
            Some(naive) => Ok(naive),
            None => Err(ParseError::InvalidDate),
        }
    }
}

impl TryFromSpecImpl<Date> for NaiveDate {
    open spec fn obeys_try_from_spec() -> bool {
        true
    }

    open spec fn try_from_spec(date: Date) -> Result<Self, ParseError> {
        match naive_date_of(date.year() as i32, date.month() as u32, date.day() as u32) {
            Some(naive) => Ok(naive),
            None => Err(ParseError::InvalidDate),
        }
    }
}

} // verus!
