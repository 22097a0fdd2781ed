//! Moments in time, and the packed dates and times of the camera's file system.

use vstd::prelude::*;
use crate::error::Error;

verus! {

/// A calendar date with a time of day, to the second, without a time zone.
pub struct CivilTime {
    pub year: int,
    pub month: int,
    pub day: int,
    pub hour: int,
    pub minute: int,
    pub second: int,
}

pub open spec fn is_leap_year(year: int) -> bool {
    year % 4 == 0 && (year % 100 != 0 || year % 400 == 0)
}

pub open spec fn days_in_month(year: int, month: int) -> int {
    if month == 2 {
        if is_leap_year(year) { 29 } else { 28 }
    } else if month == 4 || month == 6 || month == 9 || month == 11 {
        30
    } else {
        31
    }
}

/// The day exists in the proleptic Gregorian calendar.
pub open spec fn is_calendar_date(year: int, month: int, day: int) -> bool {
    1 <= month <= 12 && 1 <= day <= days_in_month(year, month)
}

impl CivilTime {
    /// A date that exists, in a year of four digits, with a time of day that exists.
    pub open spec fn valid(self) -> bool {
        &&& 0 <= self.year <= 9999
        &&& is_calendar_date(self.year, self.month, self.day)
        &&& 0 <= self.hour < 24
        &&& 0 <= self.minute < 60
        &&& 0 <= self.second < 60
    }

    /// `self` is strictly earlier than `other`: the fields are compared from
    /// the year down to the second, and the first that differs decides.
    pub open spec fn before(self, other: CivilTime) -> bool {
        ||| self.year < other.year
        ||| self.year == other.year && self.month < other.month
        ||| self.year == other.year && self.month == other.month && self.day < other.day
        ||| self.year == other.year && self.month == other.month && self.day == other.day
            && self.hour < other.hour
        ||| self.year == other.year && self.month == other.month && self.day == other.day
            && self.hour == other.hour && self.minute < other.minute
        ||| self.year == other.year && self.month == other.month && self.day == other.day
            && self.hour == other.hour && self.minute == other.minute && self.second
            < other.second
    }

    /// The fields written as one number in mixed radix, the year leading.
    pub open spec fn ordinal(self) -> int {
        ((((self.year * 13 + self.month) * 32 + self.day) * 24 + self.hour) * 60 + self.minute) * 60
            + self.second
    }
}

/// Time is ordered like a line: no moment is before itself, of two different
/// moments one is before the other, and what is not later than something not
/// later than a third is not later than the third.
pub proof fn lemma_before_orders(a: CivilTime, b: CivilTime, c: CivilTime)
    ensures
        !a.before(a),
        a.before(b) ==> !b.before(a),
        a.before(b) && b.before(c) ==> a.before(c),
        !b.before(a) && !c.before(b) ==> !c.before(a),
        a.before(b) && !c.before(b) ==> a.before(c),
        !b.before(a) && b.before(c) ==> a.before(c),
        a.before(b) || b.before(a) || a == b,
{
}

/// On moments that exist, the ordinal grows exactly as time does, and two
/// moments share an ordinal only if they are the same.
pub proof fn lemma_ordinal_follows_time(a: CivilTime, b: CivilTime)
    requires
        a.valid(),
        b.valid(),
    ensures
        a.before(b) <==> a.ordinal() < b.ordinal(),
        a == b <==> a.ordinal() == b.ordinal(),
        0 <= a.ordinal() < 359_424_000_000,
{
}

/// A point in time as the camera and the state file know it.
#[derive(Debug, Clone, Copy, PartialEq, Eq, Structural)]
pub struct Timestamp {
    year: u16,
    month: u8,
    day: u8,
    hour: u8,
    minute: u8,
    second: u8,
}

impl View for Timestamp {
    type V = CivilTime;

    closed spec fn view(&self) -> CivilTime {
        CivilTime {
            year: self.year as int,
            month: self.month as int,
            day: self.day as int,
            hour: self.hour as int,
            minute: self.minute as int,
            second: self.second as int,
        }
    }
}

/// `chrono::NaiveDate::from_ymd_opt`: whether the proleptic Gregorian
/// calendar has this day. The claim is made for years of at most four digits.
#[verifier::external_body]
fn calendar_date_exists(year: i32, month: u32, day: u32) -> (exists: bool)
    requires
        0 <= year <= 9999,
    ensures
        exists == is_calendar_date(year as int, month as int, day as int),
{
    chrono::NaiveDate::from_ymd_opt(year, month, day).is_some()
}

impl Timestamp {
    #[verifier::type_invariant]
    closed spec fn well_formed(self) -> bool {
        self@.valid()
    }

    /// The timestamp with these fields, if they name a moment that exists.
    pub fn new(year: i32, month: u32, day: u32, hour: u32, minute: u32, second: u32) -> (made: Option<Timestamp>)
        ensures
            made is Some <==> (CivilTime {
                year: year as int,
                month: month as int,
                day: day as int,
                hour: hour as int,
                minute: minute as int,
                second: second as int,
            }).valid(),
            made matches Some(t) ==> t@ == (CivilTime {
                year: year as int,
                month: month as int,
                day: day as int,
                hour: hour as int,
                minute: minute as int,
                second: second as int,
            }),
    {
        if year < 0 || year > 9999 || hour >= 24 || minute >= 60 || second >= 60 {
            return None;
        }
        if !calendar_date_exists(year, month, day) {
            return None;
        }
        Some(Timestamp {
            year: year as u16,
            month: month as u8,
            day: day as u8,
            hour: hour as u8,
            minute: minute as u8,
            second: second as u8,
        })
    }

    pub fn year(&self) -> (year: i32)
        ensures
            year == self@.year,
    {
        self.year as i32
    }

    pub fn month(&self) -> (month: u32)
        ensures
            month == self@.month,
    {
        self.month as u32
    }

    pub fn day(&self) -> (day: u32)
        ensures
            day == self@.day,
    {
        self.day as u32
    }

    pub fn hour(&self) -> (hour: u32)
        ensures
            hour == self@.hour,
    {
        self.hour as u32
    }

    pub fn minute(&self) -> (minute: u32)
        ensures
            minute == self@.minute,
    {
        self.minute as u32
    }

    pub fn second(&self) -> (second: u32)
        ensures
            second == self@.second,
    {
        self.second as u32
    }

    /// The timestamp as one number that grows with time.
    pub fn ordinal(&self) -> (n: u64)
        ensures
            n == self@.ordinal(),
            self@.valid(),
    {
        proof {
            use_type_invariant(self);
        }
        let days: u64 = (self.year as u64 * 13 + self.month as u64) * 32 + self.day as u64;
        ((days * 24 + self.hour as u64) * 60 + self.minute as u64) * 60 + self.second as u64
    }

    /// Whether `self` is strictly later than `other`.
    pub fn is_after(&self, other: &Timestamp) -> (later: bool)
        ensures
            later == other@.before(self@),
    {
        let mine = self.ordinal();
        let theirs = other.ordinal();
        proof {
            lemma_ordinal_follows_time(other@, self@);
        }
        mine > theirs
    }
}

/// The day of the month in a packed date: its lowest five bits.
pub open spec fn fat_day(date: u16) -> int {
    (date & 0x1F) as int
}

/// The month in a packed date: the four bits above the day.
pub open spec fn fat_month(date: u16) -> int {
    ((date >> 5) & 0x0F) as int
}

/// The year in a packed date: the top seven bits, counted from 1980.
pub open spec fn fat_year(date: u16) -> int {
    ((date >> 9) & 0x7F) as int + 1980
}

/// The seconds in a packed time: the lowest five bits count two seconds each.
pub open spec fn fat_second(time: u16) -> int {
    (time & 0x1F) as int * 2
}

/// The minutes in a packed time: the six bits above the seconds.
pub open spec fn fat_minute(time: u16) -> int {
    ((time >> 5) & 0x3F) as int
}

/// The hours in a packed time: the top five bits.
pub open spec fn fat_hour(time: u16) -> int {
    ((time >> 11) & 0x1F) as int
}

/// The calendar fields that a packed date and a packed time spell out,
/// whether or not such a moment exists.
pub open spec fn fat_fields(date: u16, time: u16) -> CivilTime {
    CivilTime {
        year: fat_year(date),
        month: fat_month(date),
        day: fat_day(date),
        hour: fat_hour(time),
        minute: fat_minute(time),
        second: fat_second(time),
    }
}

/// The packed date and time whose bit fields hold the given calendar fields.
pub open spec fn fat_pack(fields: CivilTime) -> (int, int) {
    (
        (fields.year - 1980) * 512 + fields.month * 32 + fields.day,
        fields.hour * 2048 + fields.minute * 32 + fields.second / 2,
    )
}

/// Decodes the packed date and time of a listing row. The words are taken
/// apart bit field by bit field; a combination that names no real moment
/// (a thirtieth of February, sixty seconds or more, month zero) is refused.
pub fn parse_fat_datetime(date: u16, time: u16) -> (decoded: Result<Timestamp, Error>)
    ensures
        decoded is Ok <==> fat_fields(date, time).valid(),
        decoded matches Ok(t) ==> t@ == fat_fields(date, time),
        decoded matches Err(e) ==> e == Error::ProtocolError,
{
    let day: u16 = date & 0x1F;
    let month: u16 = (date >> 5) & 0x0F;
    let year_offset: u16 = (date >> 9) & 0x7F;
    let half_seconds: u16 = time & 0x1F;
    let minutes: u16 = (time >> 5) & 0x3F;
    let hours: u16 = (time >> 11) & 0x1F;
    assert(year_offset <= 127) by (bit_vector)
        requires
            year_offset == (date >> 9) & 0x7F,
    ;
    assert(half_seconds <= 31) by (bit_vector)
        requires
            half_seconds == time & 0x1F,
    ;
    let year: u16 = year_offset + 1980;
    let seconds: u16 = half_seconds * 2;
    match Timestamp::new(
        year as i32,
        month as u32,
        day as u32,
        hours as u32,
        minutes as u32,
        seconds as u32,
    ) {
        Some(t) => Ok(t),
        None => Err(Error::ProtocolError),
    }
}

/// Decoding loses nothing: the fields that come out of a packed date and time
/// pack back into the same two words.
pub proof fn lemma_fat_fields_pack_back(date: u16, time: u16)
    ensures
        fat_pack(fat_fields(date, time)) == (date as int, time as int),
{
    assert(((date >> 9) & 0x7F) * 512 + ((date >> 5) & 0x0F) * 32 + (date & 0x1F) == date)
        by (bit_vector);
    assert(((time >> 11) & 0x1F) * 2048 + ((time >> 5) & 0x3F) * 32 + (time & 0x1F) == time)
        by (bit_vector);
}

/// The decoded fields in plain arithmetic: each is a quotient of the packed
/// word, reduced to the width of its bit field.
pub proof fn lemma_fat_fields_arithmetic(date: u16, time: u16)
    ensures
        fat_day(date) == date % 32,
        fat_month(date) == (date / 32) % 16,
        fat_year(date) == date / 512 + 1980,
        fat_second(time) == (time % 32) * 2,
        fat_minute(time) == (time / 32) % 64,
        fat_hour(time) == time / 2048,
{
    assert(date & 0x1F == date % 32) by (bit_vector);
    assert((date >> 5) & 0x0F == (date / 32) % 16) by (bit_vector);
    assert((date >> 9) & 0x7F == date / 512) by (bit_vector);
    assert(time & 0x1F == time % 32) by (bit_vector);
    assert((time >> 5) & 0x3F == (time / 32) % 64) by (bit_vector);
    assert((time >> 11) & 0x1F == time / 2048) by (bit_vector);
}

} // verus!
