//! The sync state: the date of the last entry that was fetched, as it is
//! kept in a file between runs.

use vstd::prelude::*;
use chrono::{Datelike, Timelike};
use crate::error::Error;
use crate::timestamp::{CivilTime, Timestamp};

verus! {

/// How the sync state is written down: year, month and day with hyphens, a
/// `T`, then hours, minutes and seconds with colons.
pub const DATE_FORMAT: &'static str = "%Y-%m-%dT%H:%M:%S";

/// The name of the file under the download directory that holds the sync state.
pub const STATE_FILE_NAME: &'static str = "omd-downloader.state";

/// The character that writes a number below ten.
pub open spec fn decimal_digit(n: int) -> char {
    seq!['0', '1', '2', '3', '4', '5', '6', '7', '8', '9'][n]
}

/// The last two decimal digits of a number.
pub open spec fn two_digits(n: int) -> Seq<char> {
    seq![decimal_digit((n / 10) % 10), decimal_digit(n % 10)]
}

/// The last four decimal digits of a number.
pub open spec fn four_digits(n: int) -> Seq<char> {
    two_digits(n / 100) + two_digits(n)
}

/// A moment in the form `YYYY-MM-DDTHH:MM:SS`.
pub open spec fn state_text(t: CivilTime) -> Seq<char> {
    four_digits(t.year) + seq!['-'] + two_digits(t.month) + seq!['-'] + two_digits(t.day)
        + seq!['T'] + two_digits(t.hour) + seq![':'] + two_digits(t.minute) + seq![':']
        + two_digits(t.second)
}

/// What `str::trim` leaves of a text.
pub uninterp spec fn trimmed(text: Seq<char>) -> Seq<char>;

/// `str::trim`: the text without the white space at its two ends. The result
/// depends on the text alone.
pub assume_specification[ str::trim ](text: &str) -> (inner: &str)
    ensures
        inner@ == trimmed(text@),
;

/// The moment that `chrono::NaiveDateTime::parse_from_str` reads from a text
/// under a pattern, to the second; nothing where it reports an error.
pub uninterp spec fn chrono_parsed(text: Seq<char>, pattern: Seq<char>) -> Option<CivilTime>;

/// `chrono::NaiveDateTime::parse_from_str`, and the calendar fields of what
/// it returns. The result depends on the text and the pattern alone.
#[verifier::external_body]
fn parse_civil(text: &str, pattern: &str) -> (fields: Option<(i32, u32, u32, u32, u32, u32)>)
    ensures
        fields_view(fields) == chrono_parsed(text@, pattern@),
{
    match chrono::NaiveDateTime::parse_from_str(text, pattern) {
        Ok(at) => Some((at.year(), at.month(), at.day(), at.hour(), at.minute(), at.second())),
        Err(_) => None,
    }
}

/// `chrono::NaiveDateTime::format` with the state's pattern, on the moment
/// that `NaiveDate::from_ymd_opt` and `NaiveDate::and_hms_opt` build from the
/// timestamp's fields: four digits for the year and two for every other
/// field, each padded with zeros.
#[verifier::external_body]
fn format_civil(t: &Timestamp, pattern: &str) -> (text: String)
    requires
        pattern@ == DATE_FORMAT@,
    ensures
        text@ == state_text(t@),
{
    chrono::NaiveDate::from_ymd_opt(t.year(), t.month(), t.day())
        .unwrap()
        .and_hms_opt(t.hour(), t.minute(), t.second())
        .unwrap()
        .format(pattern)
        .to_string()
}

/// Calendar fields as they come out of a parser, as a moment.
pub open spec fn fields_view(fields: Option<(i32, u32, u32, u32, u32, u32)>) -> Option<CivilTime> {
    match fields {
        Some(f) => Some(
            CivilTime {
                year: f.0 as int,
                month: f.1 as int,
                day: f.2 as int,
                hour: f.3 as int,
                minute: f.4 as int,
                second: f.5 as int,
            },
        ),
        None => None,
    }
}

/// Whether what a parser made of the state file is a sync state: it read a
/// moment, and the moment is one that a timestamp can hold.
pub open spec fn is_state(parsed: Option<CivilTime>) -> bool {
    parsed matches Some(t) && t.valid()
}

/// The sync state that a parser's result stands for. Nothing read, or a
/// moment that no timestamp can hold, is a corrupt state.
pub fn state_from_fields(fields: Option<(i32, u32, u32, u32, u32, u32)>) -> (state: Result<Timestamp, Error>)
    ensures
        state is Ok <==> is_state(fields_view(fields)),
        state matches Ok(t) ==> Some(t@) == fields_view(fields),
        state matches Err(e) ==> e == Error::CorruptState,
{
    match fields {
        Some((year, month, day, hour, minute, second)) => {
            match Timestamp::new(year, month, day, hour, minute, second) {
                Some(t) => Ok(t),
                None => Err(Error::CorruptState),
            }
        },
        None => Err(Error::CorruptState),
    }
}

/// Reads the sync state from the text of the state file. White space around
/// the timestamp is passed over.
pub fn parse_state(text: &str) -> (state: Result<Timestamp, Error>)
    ensures
        state is Ok <==> is_state(chrono_parsed(trimmed(text@), DATE_FORMAT@)),
        state matches Ok(t) ==> Some(t@) == chrono_parsed(trimmed(text@), DATE_FORMAT@),
        state matches Err(e) ==> e == Error::CorruptState,
{
    let fields = parse_civil(text.trim(), DATE_FORMAT);
    state_from_fields(fields)
}

/// The sync state that the state file holds: no file means no history.
pub fn load_state(contents: Option<&str>) -> (state: Result<Option<Timestamp>, Error>)
    ensures
        contents is None ==> state == Ok::<Option<Timestamp>, Error>(None),
        contents matches Some(text) ==> {
            let parsed = chrono_parsed(trimmed(text@), DATE_FORMAT@);
            &&& state is Ok <==> is_state(parsed)
            &&& state matches Ok(found) ==> found matches Some(t) && Some(t@) == parsed
            &&& state matches Err(e) ==> e == Error::CorruptState
        },
{
    match contents {
        None => Ok(None),
        Some(text) => match parse_state(text) {
            Ok(t) => Ok(Some(t)),
            Err(e) => Err(e),
        },
    }
}

/// The text that is written to the state file for a sync state.
pub fn format_state(state: &Timestamp) -> (text: String)
    ensures
        text@ == state_text(state@),
{
    format_civil(state, DATE_FORMAT)
}

/// The state is always written with nineteen characters.
pub proof fn lemma_state_text_length(t: CivilTime)
    ensures
        state_text(t).len() == 19,
{
}

} // verus!
