//! Wall-clock times and how they are shown.

use crate::text::{decimal, law_decimal_is_plain, law_padding_keeps_the_number, padded, spells};
use chrono::NaiveDate;
use vstd::prelude::*;

verus! {

/// The years that can be shown.
pub const FIRST_YEAR: i32 = -262_143;

pub const LAST_YEAR: i32 = 262_142;

/// A date and a time of day, to the nanosecond. A second 59 with a billion nanoseconds or
/// more is a leap second.
pub struct CivilTime {
    pub year: int,
    pub month: int,
    pub day: int,
    pub hour: int,
    pub minute: int,
    pub second: int,
    pub nanosecond: int,
}

/// Whether a year of the Gregorian calendar is a leap year.
pub open spec fn leap_year(year: int) -> bool {
    year % 4 == 0 && (year % 100 != 0 || year % 400 == 0)
}

pub open spec fn days_in_month(year: int, month: int) -> int {
    if month == 2 {
        if leap_year(year) {
            29
        } else {
            28
        }
    } else if month == 4 || month == 6 || month == 9 || month == 11 {
        30
    } else {
        31
    }
}

/// A year as it is shown: four digits, or a sign and at least four.
pub open spec fn year_text(year: int) -> Seq<char> {
    if 0 <= year <= 9999 {
        padded(year as nat, 4)
    } else if year > 0 {
        seq!['+'] + padded(year as nat, 4)
    } else {
        seq!['-'] + padded((-year) as nat, 4)
    }
}

impl CivilTime {
    /// Whether the calendar has the day and the clock the time.
    pub open spec fn exists_on_calendar(self) -> bool {
        &&& FIRST_YEAR <= self.year <= LAST_YEAR
        &&& 1 <= self.month <= 12
        &&& 1 <= self.day <= days_in_month(self.year, self.month)
        &&& 0 <= self.hour < 24
        &&& 0 <= self.minute < 60
        &&& 0 <= self.second < 60
        &&& 0 <= self.nanosecond < if self.second == 59 {
            2_000_000_000int
        } else {
            1_000_000_000int
        }
    }

    /// Year, month, day, hours, minutes, seconds and milliseconds.
    pub open spec fn text(self) -> Seq<char> {
        year_text(self.year) + seq!['-'] + padded(self.month as nat, 2) + seq!['-'] + padded(
            self.day as nat,
            2,
        ) + seq![' '] + padded(self.hour as nat, 2) + seq![':'] + padded(self.minute as nat, 2)
            + seq![':'] + padded((self.second + self.nanosecond / 1_000_000_000) as nat, 2)
            + seq!['.'] + padded((self.nanosecond / 1_000_000 % 1000) as nat, 3)
    }
}

/// A time on some wall clock.
#[derive(Debug, Clone, Copy)]
pub struct LocalTime {
    year: i32,
    month: u32,
    day: u32,
    hour: u32,
    minute: u32,
    second: u32,
    nanosecond: u32,
}

impl View for LocalTime {
    type V = CivilTime;

    closed spec fn view(&self) -> CivilTime {
        CivilTime {
            year: self.year as int,
            month: self.month as int,
            day: self.day as int,
            hour: self.hour as int,
            minute: self.minute as int,
            second: self.second as int,
            nanosecond: self.nanosecond as int,
        }
    }
}

impl LocalTime {
    #[verifier::type_invariant]
    closed spec fn exists_on_calendar(self) -> bool {
        self@.exists_on_calendar()
    }

    /// The time with the given parts, if there is one.
    pub fn new(
        year: i32,
        month: u32,
        day: u32,
        hour: u32,
        minute: u32,
        second: u32,
        nanosecond: u32,
    ) -> (result: Option<LocalTime>)
        ensures
            ({
                let civil = CivilTime {
                    year: year as int,
                    month: month as int,
                    day: day as int,
                    hour: hour as int,
                    minute: minute as int,
                    second: second as int,
                    nanosecond: nanosecond as int,
                };
                match result {
                    Some(time) => civil.exists_on_calendar() && time@ == civil,
                    None => !civil.exists_on_calendar(),
                }
            }),
    {
        if year < FIRST_YEAR || year > LAST_YEAR || month < 1 || month > 12 {
            return None;
        }
        if day < 1 || day > month_length(year, month) || hour >= 24 || minute >= 60 || second >= 60 {
            return None;
        }
        if nanosecond >= 2_000_000_000 || (nanosecond >= 1_000_000_000 && second != 59) {
            return None;
        }
        Some(LocalTime { year, month, day, hour, minute, second, nanosecond })
    }

    /// The time as it is shown, to the millisecond.
    pub fn text(&self) -> (text: String)
        ensures
            text@ == self@.text(),
    {
        proof {
            use_type_invariant(self);
        }
        format_time(
            self.year,
            self.month,
            self.day,
            self.hour,
            self.minute,
            self.second,
            self.nanosecond,
            "%Y-%m-%d %H:%M:%S.%3f",
        )
    }
}

fn month_length(year: i32, month: u32) -> (days: u32)
    requires
        FIRST_YEAR <= year <= LAST_YEAR,
        1 <= month <= 12,
    ensures
        days == days_in_month(year as int, month as int),
{
    if month == 2 {
        // Counted from a multiple of 400 years, to keep the remainders positive.
        let year_of_cycle: i32 = year + 400_000;
        if year_of_cycle % 4 == 0 && (year_of_cycle % 100 != 0 || year_of_cycle % 400 == 0) {
            29
        } else {
            28
        }
    } else if month == 4 || month == 6 || month == 9 || month == 11 {
        30
    } else {
        31
    }
}

/// Calls `chrono::NaiveDateTime::format` on the date and time with the given parts, which
/// `NaiveDate::from_ymd_opt` and `and_hms_nano_opt` make of them, and turns what it returns
/// into a string. Trusted to show, in the one format that is asked for, the parts in decimal,
/// padded with zeros; a year outside 0 to 9999 with its sign; and a leap second as second 60.
#[verifier::external_body]
fn format_time(
    year: i32,
    month: u32,
    day: u32,
    hour: u32,
    minute: u32,
    second: u32,
    nanosecond: u32,
    format: &str,
) -> (text: String)
    requires
        (CivilTime {
            year: year as int,
            month: month as int,
            day: day as int,
            hour: hour as int,
            minute: minute as int,
            second: second as int,
            nanosecond: nanosecond as int,
        }).exists_on_calendar(),
        format@ == "%Y-%m-%d %H:%M:%S.%3f"@,
    ensures
        text@ == (CivilTime {
            year: year as int,
            month: month as int,
            day: day as int,
            hour: hour as int,
            minute: minute as int,
            second: second as int,
            nanosecond: nanosecond as int,
        }).text(),
{
    let date = NaiveDate::from_ymd_opt(year, month, day).unwrap();
    let time = date.and_hms_nano_opt(hour, minute, second, nanosecond).unwrap();
    time.format(format).to_string()
}

/// A number below 10, 100, 1000 or 10000 is shown in as many digits as it is padded to.
proof fn lemma_padded_len(n: nat, width: nat)
    requires
        n < 10 && width == 1 || n < 100 && width == 2 || n < 1000 && width == 3 || n < 10000
            && width == 4,
    ensures
        padded(n, width).len() == width,
{
    reveal_with_fuel(decimal, 4);
}

/// The times of four-digit years are all shown in 23 characters.
pub proof fn law_text_width(time: CivilTime)
    requires
        time.exists_on_calendar(),
        0 <= time.year <= 9999,
    ensures
        time.text().len() == 23,
{
    lemma_padded_len(time.year as nat, 4);
    lemma_padded_len(time.month as nat, 2);
    lemma_padded_len(time.day as nat, 2);
    lemma_padded_len(time.hour as nat, 2);
    lemma_padded_len(time.minute as nat, 2);
    lemma_padded_len((time.second + time.nanosecond / 1_000_000_000) as nat, 2);
    lemma_padded_len((time.nanosecond / 1_000_000 % 1000) as nat, 3);
}

/// Every fourth year is a leap year, but of those that end a century only every fourth; and the
/// calendar repeats itself every 400 years.
pub proof fn law_leap_years(year: int)
    ensures
        year % 4 != 0 ==> !leap_year(year),
        year % 4 == 0 && year % 100 != 0 ==> leap_year(year),
        year % 100 == 0 ==> (leap_year(year) <==> year % 400 == 0),
        leap_year(year + 400) == leap_year(year),
{
}

/// The months have the lengths of the Gregorian calendar: a year has 365 days, and a leap year
/// one more, at the end of February.
pub proof fn law_month_lengths(year: int)
    ensures
        ({
            let days = |month: int| days_in_month(year, month);
            &&& days(1) == 31 && days(3) == 31 && days(5) == 31 && days(7) == 31
            &&& days(8) == 31 && days(10) == 31 && days(12) == 31
            &&& days(4) == 30 && days(6) == 30 && days(9) == 30 && days(11) == 30
            &&& days(2) == (if leap_year(year) { 29int } else { 28int })
        }),
{
}

/// A time exists exactly when its year can be shown, its month has its day and the clock has its
/// hour, minute, second and nanosecond; only the last second of a minute can be doubled, by a
/// leap second.
pub proof fn law_times_that_exist(time: CivilTime)
    ensures
        time.exists_on_calendar() <==> {
            &&& -262_143 <= time.year <= 262_142
            &&& 1 <= time.month <= 12
            &&& 1 <= time.day <= days_in_month(time.year, time.month)
            &&& 0 <= time.hour <= 23
            &&& 0 <= time.minute <= 59
            &&& 0 <= time.second <= 59
            &&& 0 <= time.nanosecond <= 1_999_999_999
            &&& time.nanosecond >= 1_000_000_000 ==> time.second == 59
        },
{
}

/// A shown year spells the year: four digits from 0 to 9999; beyond, a sign and at least four
/// digits, without zeros that four digits do not need.
pub proof fn law_year_is_spelled(year: int)
    ensures
        ({
            let text = year_text(year);
            &&& 0 <= year <= 9999 ==> text.len() == 4 && spells(text, year)
            &&& year > 9999 ==> text[0] == '+' && spells(text.skip(1), year) && text.len() >= 6
                && text[1] != '0'
            &&& year < 0 ==> text[0] == '-' && spells(text.skip(1), -year) && text.len() >= 5 && (
            text.len() > 5 ==> text[1] != '0')
        }),
{
    if 0 <= year <= 9999 {
        law_padding_keeps_the_number(year as nat, 4);
        lemma_padded_len(year as nat, 4);
    } else if year > 0 {
        law_padding_keeps_the_number(year as nat, 4);
        law_decimal_is_plain(year as nat);
        assert(year_text(year).skip(1) =~= padded(year as nat, 4));
        assert(decimal(year as nat).len() >= 5) by {
            reveal_with_fuel(decimal, 5);
        }
    } else {
        law_padding_keeps_the_number((-year) as nat, 4);
        assert(year_text(year).skip(1) =~= padded((-year) as nat, 4));
    }
}

/// A shown time spells its parts: the year, then month, day, hour, minute and second in two digits
/// each, a leap second as one second more, and the whole milliseconds of the second in three.
pub proof fn law_text_spells_the_time(time: CivilTime)
    requires
        time.exists_on_calendar(),
    ensures
        ({
            let text = time.text();
            let n = text.len() - 19;
            let leap: int = if time.nanosecond >= 1_000_000_000 {
                1
            } else {
                0
            };
            &&& n >= 4
            &&& text.take(n) == year_text(time.year)
            &&& text[n] == '-' && text[n + 3] == '-' && text[n + 6] == ' '
            &&& text[n + 9] == ':' && text[n + 12] == ':' && text[n + 15] == '.'
            &&& spells(text.subrange(n + 1, n + 3), time.month)
            &&& spells(text.subrange(n + 4, n + 6), time.day)
            &&& spells(text.subrange(n + 7, n + 9), time.hour)
            &&& spells(text.subrange(n + 10, n + 12), time.minute)
            &&& spells(text.subrange(n + 13, n + 15), time.second + leap)
            &&& spells(
                text.subrange(n + 16, n + 19),
                (time.nanosecond - leap * 1_000_000_000) / 1_000_000,
            )
        }),
{
    let text = time.text();
    let n = text.len() - 19;
    let year = year_text(time.year);
    let month = time.month as nat;
    let day = time.day as nat;
    let hour = time.hour as nat;
    let minute = time.minute as nat;
    let second = (time.second + time.nanosecond / 1_000_000_000) as nat;
    let milli = (time.nanosecond / 1_000_000 % 1000) as nat;
    law_year_is_spelled(time.year);
    lemma_two_digits(month);
    lemma_two_digits(day);
    lemma_two_digits(hour);
    lemma_two_digits(minute);
    lemma_two_digits(second);
    lemma_padded_len(milli, 3);
    law_padding_keeps_the_number(milli, 3);
    assert(n == year.len());
    assert(text.take(n) =~= year);
    assert(text.subrange(n + 1, n + 3) =~= padded(month, 2));
    assert(text.subrange(n + 4, n + 6) =~= padded(day, 2));
    assert(text.subrange(n + 7, n + 9) =~= padded(hour, 2));
    assert(text.subrange(n + 10, n + 12) =~= padded(minute, 2));
    assert(text.subrange(n + 13, n + 15) =~= padded(second, 2));
    assert(text.subrange(n + 16, n + 19) =~= padded(milli, 3));
}

proof fn lemma_two_digits(n: nat)
    requires
        n < 100,
    ensures
        padded(n, 2).len() == 2,
        spells(padded(n, 2), n as int),
{
    lemma_padded_len(n, 2);
    law_padding_keeps_the_number(n, 2);
}

} // verus!
