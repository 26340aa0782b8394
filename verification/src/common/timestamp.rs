//! UTC instants at millisecond precision, as the wire format carries them.

use crate::common::text::{
    all_digits, decimal_text, decimal_value, digit_char, is_digit, lemma_decimal_text,
    lemma_decimal_text_len, lemma_digit_char, lemma_leading_zeros, padded_decimal, parse_unsigned,
    soh_char,
};
use time::{Date, Duration, Month, OffsetDateTime, PrimitiveDateTime, Time};
use vstd::prelude::*;

verus! {

/// A date and a time of day in the proleptic Gregorian calendar, UTC.
pub struct Civil {
    pub year: int,
    pub month: int,
    pub day: int,
    pub hour: int,
    pub minute: int,
    pub second: int,
    pub millisecond: int,
}

/// Whether a year of the Gregorian calendar has a 29th of February.
pub open spec fn is_leap_year(year: int) -> bool {
    year % 4 == 0 && (year % 100 != 0 || year % 400 == 0)
}

/// How many days a month has in a given year.
pub open spec fn days_in_month(year: int, month: int) -> int {
    if month == 2 {
        if is_leap_year(year) {
            29
        } else {
            28
        }
    } else if month == 4 || month == 6 || month == 9 || month == 11 {
        30
    } else {
        31
    }
}

/// The dates that the calendar has, within the years that can be represented.
pub open spec fn is_calendar_date(year: int, month: int, day: int) -> bool {
    &&& -9999 <= year <= 9999
    &&& 1 <= month <= 12
    &&& 1 <= day <= days_in_month(year, month)
}

/// The times that a day has, leap seconds apart.
pub open spec fn is_time_of_day(hour: int, minute: int, second: int, millisecond: int) -> bool {
    &&& 0 <= hour < 24
    &&& 0 <= minute < 60
    &&& 0 <= second < 60
    &&& 0 <= millisecond < 1000
}

/// Days from the first day of year 0 to the first day of `year`.
pub open spec fn days_before_year(year: int) -> int {
    365 * year + (year + 3) / 4 - (year + 99) / 100 + (year + 399) / 400
}

/// Days from the first day of `year` to the first day of `month` in it.
pub open spec fn days_before_month(year: int, month: int) -> int {
    let common = if month == 1 {
        0int
    } else if month == 2 {
        31
    } else if month == 3 {
        59
    } else if month == 4 {
        90
    } else if month == 5 {
        120
    } else if month == 6 {
        151
    } else if month == 7 {
        181
    } else if month == 8 {
        212
    } else if month == 9 {
        243
    } else if month == 10 {
        273
    } else if month == 11 {
        304
    } else {
        334
    };
    if month > 2 && is_leap_year(year) {
        common + 1
    } else {
        common
    }
}

impl Civil {
    /// The values that a timestamp on the wire can hold: a date of the
    /// calendar in a year of four digits, and a time of day.
    pub open spec fn wf(self) -> bool {
        &&& 0 <= self.year
        &&& is_calendar_date(self.year, self.month, self.day)
        &&& is_time_of_day(self.hour, self.minute, self.second, self.millisecond)
    }

    /// Milliseconds from the start of year 0 to this instant.
    pub open spec fn millis(self) -> int {
        let days = days_before_year(self.year) + days_before_month(self.year, self.month) + (
        self.day - 1);
        (((days * 24 + self.hour) * 60 + self.minute) * 60 + self.second) * 1000
            + self.millisecond
    }

    /// The last second that can be represented: nothing comes after it.
    pub open spec fn in_last_second(self) -> bool {
        &&& self.year == 9999
        &&& self.month == 12
        &&& self.day == 31
        &&& self.hour == 23
        &&& self.minute == 59
        &&& self.second == 59
    }

    /// The instant one second later.
    pub open spec fn next_second(self) -> Civil {
        if self.second < 59 {
            Civil { second: self.second + 1, ..self }
        } else if self.minute < 59 {
            Civil { minute: self.minute + 1, second: 0, ..self }
        } else if self.hour < 23 {
            Civil { hour: self.hour + 1, minute: 0, second: 0, ..self }
        } else if self.day < days_in_month(self.year, self.month) {
            Civil { day: self.day + 1, hour: 0, minute: 0, second: 0, ..self }
        } else if self.month < 12 {
            Civil { month: self.month + 1, day: 1, hour: 0, minute: 0, second: 0, ..self }
        } else {
            Civil { year: self.year + 1, month: 1, day: 1, hour: 0, minute: 0, second: 0, ..self }
        }
    }

    /// The wire text without the milliseconds: `YYYYMMDD-HH:MM:SS`.
    pub open spec fn seconds_text(self) -> Seq<char> {
        padded_decimal(self.year as nat, 4)
            + padded_decimal(self.month as nat, 2)
            + padded_decimal(self.day as nat, 2).push('-')
            + padded_decimal(self.hour as nat, 2).push(':')
            + padded_decimal(self.minute as nat, 2).push(':')
            + padded_decimal(self.second as nat, 2)
    }

    /// The wire text: `YYYYMMDD-HH:MM:SS.sss`.
    pub open spec fn text(self) -> Seq<char> {
        self.seconds_text().push('.') + padded_decimal(self.millisecond as nat, 3)
    }
}

/// One second later is one thousand milliseconds later, and still a value
/// that the wire can hold.
pub proof fn lemma_next_second(t: Civil)
    requires
        t.wf(),
        !t.in_last_second(),
    ensures
        t.next_second().wf(),
        t.next_second().millis() == t.millis() + 1000,
{
    let y = t.year;
    assert(days_before_year(y + 1) - days_before_year(y) == if is_leap_year(y) {
        366int
    } else {
        365int
    });
}

/// The wire text of a timestamp has 21 characters, 17 of them without the
/// milliseconds, and none of them is the field separator.
pub proof fn lemma_text_shape(t: Civil)
    requires
        t.wf(),
    ensures
        t.text().len() == 21,
        t.seconds_text().len() == 17,
        t.seconds_text() == t.text().take(17),
        forall|i: int| 0 <= i < 21 ==> #[trigger] t.text()[i] != soh_char(),
{
    lemma_padded(t.year as nat, 4);
    lemma_padded(t.month as nat, 2);
    lemma_padded(t.day as nat, 2);
    lemma_padded(t.hour as nat, 2);
    lemma_padded(t.minute as nat, 2);
    lemma_padded(t.second as nat, 2);
    lemma_padded(t.millisecond as nat, 3);
    assert(t.seconds_text() =~= t.text().take(17));
}

/// A number that fits its width is padded to exactly that many digits.
pub proof fn lemma_padded(n: nat, width: nat)
    requires
        (width == 2 && n < 100) || (width == 3 && n < 1000) || (width == 4 && n < 10000),
    ensures
        padded_decimal(n, width).len() == width,
        all_digits(padded_decimal(n, width)),
        decimal_value(padded_decimal(n, width)) == n,
{
    lemma_decimal_text_len(n);
    lemma_decimal_text(n);
    let digits = decimal_text(n);
    let zeros = Seq::new((width - digits.len()) as nat, |i: int| '0');
    lemma_leading_zeros(zeros, digits);
}

/// Whether the calendar has this date: `time::Date::from_calendar_date`
/// accepts a year from -9999 to 9999, a month from 1 to 12 (through
/// `time::Month::try_from`) and a day from 1 to the length of that month in
/// that year, and refuses everything else.
#[verifier::external_body]
pub(crate) fn is_valid_date(year: i32, month: u8, day: u8) -> (r: bool)
    ensures
        r == is_calendar_date(year as int, month as int, day as int),
{
    match Month::try_from(month) {
        Ok(m) => Date::from_calendar_date(year, m, day).is_ok(),
        Err(_) => false,
    }
}

/// Whether this is a time of day: `time::Time::from_hms_milli` accepts an
/// hour below 24, a minute and a second below 60 and a millisecond below
/// 1000, and refuses everything else.
#[verifier::external_body]
pub(crate) fn is_valid_time(hour: u8, minute: u8, second: u8, millisecond: u16) -> (r: bool)
    ensures
        r == is_time_of_day(hour as int, minute as int, second as int, millisecond as int),
{
    Time::from_hms_milli(hour, minute, second, millisecond).is_ok()
}

/// The current date and time in UTC, read with
/// `time::OffsetDateTime::now_utc`: whatever the clock says, the reading is
/// a date of the calendar and a time of day.
#[verifier::external_body]
pub(crate) fn utc_clock() -> (r: (i32, u8, u8, u8, u8, u8, u16))
    ensures
        is_calendar_date(r.0 as int, r.1 as int, r.2 as int),
        is_time_of_day(r.3 as int, r.4 as int, r.5 as int, r.6 as int),
{
    let t = OffsetDateTime::now_utc();
    (t.year(), u8::from(t.month()), t.day(), t.hour(), t.minute(), t.second(), t.millisecond())
}

/// The instant one second after the given one: `time::OffsetDateTime` plus
/// `time::Duration::SECOND` carries into the minute, the hour, the day, the
/// month and the year as the calendar has them, and keeps the millisecond.
/// The addition fails past the last second of year 9999, which the
/// precondition leaves out.
#[verifier::external_body]
pub(crate) fn second_after(t: (u16, u8, u8, u8, u8, u8, u16)) -> (r: (i32, u8, u8, u8, u8, u8, u16))
    requires
        civil_of(t).wf(),
        !civil_of(t).in_last_second(),
    ensures
        civil_of_signed(r) == civil_of(t).next_second(),
{
    let month = Month::try_from(t.1).unwrap();
    let date = Date::from_calendar_date(i32::from(t.0), month, t.2).unwrap();
    let time = Time::from_hms_milli(t.3, t.4, t.5, t.6).unwrap();
    let n = PrimitiveDateTime::new(date, time).assume_utc() + Duration::SECOND;
    (n.year(), u8::from(n.month()), n.day(), n.hour(), n.minute(), n.second(), n.millisecond())
}

/// The date and time with these components: year, month, day, hour,
/// minute, second, millisecond.
pub open spec fn civil_of(t: (u16, u8, u8, u8, u8, u8, u16)) -> Civil {
    Civil {
        year: t.0 as int,
        month: t.1 as int,
        day: t.2 as int,
        hour: t.3 as int,
        minute: t.4 as int,
        second: t.5 as int,
        millisecond: t.6 as int,
    }
}

/// The date and time with these components, the year with its sign.
pub open spec fn civil_of_signed(t: (i32, u8, u8, u8, u8, u8, u16)) -> Civil {
    Civil {
        year: t.0 as int,
        month: t.1 as int,
        day: t.2 as int,
        hour: t.3 as int,
        minute: t.4 as int,
        second: t.5 as int,
        millisecond: t.6 as int,
    }
}

/// An instant in UTC at millisecond precision, always a value that the wire
/// format can carry.
#[derive(Clone, Copy, Debug, PartialEq, Eq, PartialOrd, Ord, Hash)]
pub struct UtcTimestamp {
    year: u16,
    month: u8,
    day: u8,
    hour: u8,
    minute: u8,
    second: u8,
    millisecond: u16,
}

impl View for UtcTimestamp {
    type V = Civil;

    closed spec fn view(&self) -> Civil {
        Civil {
            year: self.year as int,
            month: self.month as int,
            day: self.day as int,
            hour: self.hour as int,
            minute: self.minute as int,
            second: self.second as int,
            millisecond: self.millisecond as int,
        }
    }
}

impl UtcTimestamp {
    /// Every timestamp is a value that the wire can hold.
    #[verifier::type_invariant]
    pub open spec fn inv(self) -> bool {
        self@.wf()
    }

    /// The timestamp with these components, where they name an instant.
    pub fn new(
        year: u16,
        month: u8,
        day: u8,
        hour: u8,
        minute: u8,
        second: u8,
        millisecond: u16,
    ) -> (r: Option<UtcTimestamp>)
        ensures
            r is Some <==> civil_of((year, month, day, hour, minute, second, millisecond)).wf(),
            r is Some ==> r->0@ == civil_of((year, month, day, hour, minute, second, millisecond)),
    {
        if is_valid_date(year as i32, month, day) && is_valid_time(
            hour,
            minute,
            second,
            millisecond,
        ) {
            Some(UtcTimestamp { year, month, day, hour, minute, second, millisecond })
        } else {
            None
        }
    }

    /// The timestamp of a reading whose components are known to name an instant.
    pub(crate) fn from_parts(t: (u16, u8, u8, u8, u8, u8, u16)) -> (r: UtcTimestamp)
        requires
            civil_of(t).wf(),
        ensures
            r@ == civil_of(t),
    {
        UtcTimestamp {
            year: t.0,
            month: t.1,
            day: t.2,
            hour: t.3,
            minute: t.4,
            second: t.5,
            millisecond: t.6,
        }
    }

    /// Midnight at the start of 1970.
    pub fn epoch() -> (r: UtcTimestamp)
        ensures
            r@ == civil_of((1970, 1, 1, 0, 0, 0, 0)),
    {
        UtcTimestamp { year: 1970, month: 1, day: 1, hour: 0, minute: 0, second: 0, millisecond: 0 }
    }

    /// The current instant, cut to the millisecond. A clock set before
    /// year 0 reads as the epoch.
    pub fn now() -> (r: UtcTimestamp)
        ensures
            r@.wf(),
    {
        let c = utc_clock();
        if c.0 >= 0 {
            UtcTimestamp {
                year: c.0 as u16,
                month: c.1,
                day: c.2,
                hour: c.3,
                minute: c.4,
                second: c.5,
                millisecond: c.6,
            }
        } else {
            UtcTimestamp::epoch()
        }
    }

    /// The instant one second later, where there is one.
    pub fn next_second(&self) -> (r: Option<UtcTimestamp>)
        ensures
            self@.wf(),
            r is None <==> self@.in_last_second(),
            r is Some ==> r->0@ == self@.next_second(),
    {
        proof {
            use_type_invariant(self);
        }
        if self.year == 9999 && self.month == 12 && self.day == 31 && self.hour == 23
            && self.minute == 59 && self.second == 59 {
            None
        } else {
            let n = second_after(
                (
                    self.year,
                    self.month,
                    self.day,
                    self.hour,
                    self.minute,
                    self.second,
                    self.millisecond,
                ),
            );
            proof {
                lemma_next_second(self@);
            }
            Some(
                UtcTimestamp {
                    year: n.0 as u16,
                    month: n.1,
                    day: n.2,
                    hour: n.3,
                    minute: n.4,
                    second: n.5,
                    millisecond: n.6,
                },
            )
        }
    }

    /// The year, from 0 to 9999.
    pub fn year(&self) -> (r: u16)
        ensures
            r == self@.year,
            self@.wf(),
    {
        proof {
            use_type_invariant(self);
        }
        self.year
    }

    /// The month, from 1 to 12.
    pub fn month(&self) -> (r: u8)
        ensures
            r == self@.month,
            self@.wf(),
    {
        proof {
            use_type_invariant(self);
        }
        self.month
    }

    /// The day of the month, from 1.
    pub fn day(&self) -> (r: u8)
        ensures
            r == self@.day,
            self@.wf(),
    {
        proof {
            use_type_invariant(self);
        }
        self.day
    }

    /// The hour, from 0 to 23.
    pub fn hour(&self) -> (r: u8)
        ensures
            r == self@.hour,
            self@.wf(),
    {
        proof {
            use_type_invariant(self);
        }
        self.hour
    }

    /// The minute, from 0 to 59.
    pub fn minute(&self) -> (r: u8)
        ensures
            r == self@.minute,
            self@.wf(),
    {
        proof {
            use_type_invariant(self);
        }
        self.minute
    }

    /// The second, from 0 to 59.
    pub fn second(&self) -> (r: u8)
        ensures
            r == self@.second,
            self@.wf(),
    {
        proof {
            use_type_invariant(self);
        }
        self.second
    }

    /// The millisecond, from 0 to 999.
    pub fn millisecond(&self) -> (r: u16)
        ensures
            r == self@.millisecond,
            self@.wf(),
    {
        proof {
            use_type_invariant(self);
        }
        self.millisecond
    }
}

/// Whether a timestamp text carries milliseconds: a point after the
/// seconds and three more characters at least.
pub open spec fn has_millisecond_part(text: Seq<char>) -> bool {
    text.len() >= 21 && text[17] == '.'
}

/// The components of a timestamp text as they are read, before any check of
/// their ranges: year, month, day, hour, minute, second, millisecond.
pub open spec fn timestamp_numbers(text: Seq<char>) -> Result<
    (nat, nat, nat, nat, nat, nat, nat),
    Seq<char>,
>
    recommends
        text.len() >= 17,
{
    let year = parse_unsigned(text.subrange(0, 4), 9999);
    let month = parse_unsigned(text.subrange(4, 6), 99);
    let day = parse_unsigned(text.subrange(6, 8), 99);
    let hour = parse_unsigned(text.subrange(9, 11), 99);
    let minute = parse_unsigned(text.subrange(12, 14), 99);
    let second = parse_unsigned(text.subrange(15, 17), 99);
    let millisecond = if has_millisecond_part(text) {
        parse_unsigned(text.subrange(18, 21), 999)
    } else {
        Some(0nat)
    };
    if year is None {
        Err("Invalid year: "@ + text)
    } else if month is None {
        Err("Invalid month: "@ + text)
    } else if day is None {
        Err("Invalid day: "@ + text)
    } else if hour is None {
        Err("Invalid hour: "@ + text)
    } else if minute is None {
        Err("Invalid minute: "@ + text)
    } else if second is None {
        Err("Invalid second: "@ + text)
    } else if millisecond is None {
        Err("Invalid milliseconds: "@ + text)
    } else {
        Ok((year->0, month->0, day->0, hour->0, minute->0, second->0, millisecond->0))
    }
}

/// The instant that a timestamp text names, or why it names none.
///
/// The text is `YYYYMMDD-HH:MM:SS`, with `.sss` after it or not; what stands
/// between the numbers, and after them, is not looked at. A seconds field of
/// 60 is a leap second: it names the instant one second after second 59.
pub open spec fn parse_timestamp(text: Seq<char>) -> Result<Civil, Seq<char>> {
    if text.len() < 17 {
        Err("Timestamp too short: "@ + text)
    } else {
        match timestamp_numbers(text) {
            Err(e) => Err(e),
            Ok(n) => {
                let leap = n.5 == 60;
                let t = Civil {
                    year: n.0 as int,
                    month: n.1 as int,
                    day: n.2 as int,
                    hour: n.3 as int,
                    minute: n.4 as int,
                    second: if leap {
                        59
                    } else {
                        n.5 as int
                    },
                    millisecond: n.6 as int,
                };
                if !(1 <= t.month <= 12) {
                    Err("Invalid month: "@ + text)
                } else if !is_calendar_date(t.year, t.month, t.day) {
                    Err("Invalid date: "@ + text)
                } else if !is_time_of_day(t.hour, t.minute, t.second, t.millisecond) {
                    Err("Invalid time: "@ + text)
                } else if !leap {
                    Ok(t)
                } else if t.in_last_second() {
                    Err("Invalid date: "@ + text)
                } else {
                    Ok(t.next_second())
                }
            },
        }
    }
}

/// What reading gives is a value that the wire can hold.
pub proof fn lemma_parse_timestamp_wf(text: Seq<char>)
    ensures
        parse_timestamp(text) is Ok ==> parse_timestamp(text)->Ok_0.wf(),
{
    if parse_timestamp(text) is Ok {
        let n = timestamp_numbers(text)->Ok_0;
        if n.5 == 60 {
            let t = Civil {
                year: n.0 as int,
                month: n.1 as int,
                day: n.2 as int,
                hour: n.3 as int,
                minute: n.4 as int,
                second: 59,
                millisecond: n.6 as int,
            };
            lemma_next_second(t);
        }
    }
}

/// A number of `width` digits reads as itself.
pub proof fn lemma_parse_padded(n: nat, width: nat, max: nat)
    requires
        (width == 2 && n < 100) || (width == 3 && n < 1000) || (width == 4 && n < 10000),
        n <= max,
    ensures
        parse_unsigned(padded_decimal(n, width), max) == Some(n),
{
    lemma_padded(n, width);
    let s = padded_decimal(n, width);
    assert(is_digit(s[0]));
}

/// A timestamp reads back from its own text.
pub proof fn lemma_timestamp_round_trip(t: Civil)
    requires
        t.wf(),
    ensures
        parse_timestamp(t.text()) == Ok::<Civil, Seq<char>>(t),
{
    let text = t.text();
    let year = padded_decimal(t.year as nat, 4);
    let month = padded_decimal(t.month as nat, 2);
    let day = padded_decimal(t.day as nat, 2);
    let hour = padded_decimal(t.hour as nat, 2);
    let minute = padded_decimal(t.minute as nat, 2);
    let second = padded_decimal(t.second as nat, 2);
    let milli = padded_decimal(t.millisecond as nat, 3);
    lemma_padded(t.year as nat, 4);
    lemma_padded(t.month as nat, 2);
    lemma_padded(t.day as nat, 2);
    lemma_padded(t.hour as nat, 2);
    lemma_padded(t.minute as nat, 2);
    lemma_padded(t.second as nat, 2);
    lemma_padded(t.millisecond as nat, 3);
    lemma_parse_padded(t.year as nat, 4, 9999);
    lemma_parse_padded(t.month as nat, 2, 99);
    lemma_parse_padded(t.day as nat, 2, 99);
    lemma_parse_padded(t.hour as nat, 2, 99);
    lemma_parse_padded(t.minute as nat, 2, 99);
    lemma_parse_padded(t.second as nat, 2, 99);
    lemma_parse_padded(t.millisecond as nat, 3, 999);
    assert(text.len() == 21);
    assert(text.subrange(0, 4) =~= year);
    assert(text.subrange(4, 6) =~= month);
    assert(text.subrange(6, 8) =~= day);
    assert(text.subrange(9, 11) =~= hour);
    assert(text.subrange(12, 14) =~= minute);
    assert(text.subrange(15, 17) =~= second);
    assert(text[17] == '.');
    assert(text.subrange(18, 21) =~= milli);
    assert(timestamp_numbers(text) == Ok::<(nat, nat, nat, nat, nat, nat, nat), Seq<char>>(
        (
            t.year as nat,
            t.month as nat,
            t.day as nat,
            t.hour as nat,
            t.minute as nat,
            t.second as nat,
            t.millisecond as nat,
        ),
    ));
}

/// The text of a timestamp without its milliseconds reads as the
/// timestamp at the start of its second.
pub proof fn lemma_seconds_text_round_trip(t: Civil)
    requires
        t.wf(),
    ensures
        parse_timestamp(t.seconds_text()) == Ok::<Civil, Seq<char>>(Civil { millisecond: 0, ..t }),
{
    let text = t.seconds_text();
    lemma_padded(t.year as nat, 4);
    lemma_padded(t.month as nat, 2);
    lemma_padded(t.day as nat, 2);
    lemma_padded(t.hour as nat, 2);
    lemma_padded(t.minute as nat, 2);
    lemma_padded(t.second as nat, 2);
    lemma_parse_padded(t.year as nat, 4, 9999);
    lemma_parse_padded(t.month as nat, 2, 99);
    lemma_parse_padded(t.day as nat, 2, 99);
    lemma_parse_padded(t.hour as nat, 2, 99);
    lemma_parse_padded(t.minute as nat, 2, 99);
    lemma_parse_padded(t.second as nat, 2, 99);
    assert(text.len() == 17);
    assert(text.subrange(0, 4) =~= padded_decimal(t.year as nat, 4));
    assert(text.subrange(4, 6) =~= padded_decimal(t.month as nat, 2));
    assert(text.subrange(6, 8) =~= padded_decimal(t.day as nat, 2));
    assert(text.subrange(9, 11) =~= padded_decimal(t.hour as nat, 2));
    assert(text.subrange(12, 14) =~= padded_decimal(t.minute as nat, 2));
    assert(text.subrange(15, 17) =~= padded_decimal(t.second as nat, 2));
    assert(timestamp_numbers(text) == Ok::<(nat, nat, nat, nat, nat, nat, nat), Seq<char>>(
        (
            t.year as nat,
            t.month as nat,
            t.day as nat,
            t.hour as nat,
            t.minute as nat,
            t.second as nat,
            0nat,
        ),
    ));
}

/// A leap second is exactly one second after second 59.
///
/// Take two timestamp texts that differ in their seconds alone, `59` in one
/// and `60` in the other. Where the first names an instant, and that is
/// not the last second that can be represented, the second names the
/// instant one thousand milliseconds later.
pub proof fn lemma_leap_second(at_59: Seq<char>, at_60: Seq<char>)
    requires
        at_59.len() == at_60.len(),
        at_59.len() >= 17,
        forall|i: int| 0 <= i < at_59.len() && i != 15 && i != 16 ==> at_59[i] == at_60[i],
        at_59[15] == '5' && at_59[16] == '9',
        at_60[15] == '6' && at_60[16] == '0',
        parse_timestamp(at_59) is Ok,
        !parse_timestamp(at_59)->Ok_0.in_last_second(),
    ensures
        parse_timestamp(at_60) is Ok,
        parse_timestamp(at_60)->Ok_0 == parse_timestamp(at_59)->Ok_0.next_second(),
        parse_timestamp(at_60)->Ok_0.millis() == parse_timestamp(at_59)->Ok_0.millis() + 1000,
{
    assert(at_59.subrange(0, 4) =~= at_60.subrange(0, 4));
    assert(at_59.subrange(4, 6) =~= at_60.subrange(4, 6));
    assert(at_59.subrange(6, 8) =~= at_60.subrange(6, 8));
    assert(at_59.subrange(9, 11) =~= at_60.subrange(9, 11));
    assert(at_59.subrange(12, 14) =~= at_60.subrange(12, 14));
    if at_59.len() >= 21 {
        assert(at_59.subrange(18, 21) =~= at_60.subrange(18, 21));
    }
    lemma_two_digits(at_59.subrange(15, 17), 5, 9);
    lemma_two_digits(at_60.subrange(15, 17), 6, 0);
    let t = parse_timestamp(at_59)->Ok_0;
    lemma_parse_timestamp_wf(at_59);
    lemma_next_second(t);
}

/// What a text of two given digits reads as.
pub proof fn lemma_two_digits(s: Seq<char>, tens: nat, ones: nat)
    requires
        s.len() == 2,
        tens < 10,
        ones < 10,
        s[0] == digit_char(tens),
        s[1] == digit_char(ones),
    ensures
        parse_unsigned(s, 99) == Some(tens * 10 + ones),
{
    lemma_digit_char(tens);
    lemma_digit_char(ones);
    assert(s.drop_last().drop_last() =~= Seq::<char>::empty());
    assert(decimal_value(s.drop_last().drop_last()) == 0);
    assert(s.drop_last().last() == s[0]);
    assert(decimal_value(s.drop_last()) == tens);
    assert(s.last() == s[1]);
    assert(decimal_value(s) == tens * 10 + ones);
}

} // verus!
