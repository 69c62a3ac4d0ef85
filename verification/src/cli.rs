//! What the user asks for: a provider to configure, or a date to look up.

use vstd::prelude::*;
use crate::error::Error;

verus! {

/// The weather services that can be configured.
#[derive(Clone, Copy, Debug, PartialEq, Eq, Structural)]
pub enum Provider {
    /// OpenWeather provider.
    OpenWeather,
    /// WeatherAPI provider.
    WeatherApi,
}

/// The time that a lookup is about: now, or a past instant in seconds since the Unix
/// epoch.
#[derive(Clone, Copy, Debug, PartialEq, Eq, Structural)]
pub enum DateVariant {
    /// The current date.
    Now,
    /// A specific historical date.
    HistoryDate(i64),
}

/// chrono's `ParseError`, which says why a text was not read as a date and time. It is
/// taken from the parser and mapped to an error kind; nothing is known of what it holds.
#[verifier::external_type_specification]
#[verifier::external_body]
pub struct ExParseError(chrono::ParseError);

/// What chrono reads in `text` under `format`, taken as a time in UTC: `None` where the
/// text does not parse, `Some(None)` where it parses to a local time that names no
/// instant, else the instant in seconds since the Unix epoch.
pub uninterp spec fn utc_reading(text: Seq<char>, format: Seq<char>) -> Option<Option<i64>>;

/// Parses a date and time with chrono's `NaiveDateTime::parse_from_str`, places the
/// result in UTC with `and_local_timezone` and `latest`, and takes its `timestamp`.
/// Nothing is claimed of what chrono reads, only that it depends on the text and the
/// format alone: the outcome is `utc_reading` of the two, and a parse error stands for
/// its `None`. The format is held to the one that dates are written in: it names no
/// field that chrono's parser would have to reconcile with another, and with it the
/// parser returns on every text.
#[verifier::external_body]
fn read_utc(text: &str, format: &str) -> (reading: Result<Option<i64>, chrono::ParseError>)
    requires
        format@ == "%Y-%m-%d %H:%M:%S"@,
    ensures
        utc_reading(text@, format@) == reading_outcome(reading),
{
    let naive = match chrono::NaiveDateTime::parse_from_str(text, format) {
        Ok(naive) => naive,
        Err(e) => return Err(e),
    };
    match naive.and_local_timezone(chrono::Utc).latest() {
        Some(instant) => Ok(Some(instant.timestamp())),
        None => Ok(None),
    }
}

/// A reading without the details of a parse error.
pub open spec fn reading_outcome(reading: Result<Option<i64>, chrono::ParseError>) -> Option<
    Option<i64>,
> {
    match reading {
        Ok(instant) => Some(instant),
        Err(_) => None,
    }
}

/// The date that a reading stands for, or the error that it amounts to.
pub open spec fn date_of(outcome: Option<Option<i64>>) -> Result<DateVariant, Error> {
    match outcome {
        Some(Some(timestamp)) => Ok(DateVariant::HistoryDate(timestamp)),
        Some(None) => Err(Error::InvalidTimezoneTime),
        None => Err(Error::DateTimeParse),
    }
}

/// What `parse_date` makes of an argument: the word "now" is the present, and anything
/// else is a date and time written as `%Y-%m-%d %H:%M:%S` and meant in UTC.
pub open spec fn parsed_date(arg: Seq<char>) -> Result<DateVariant, Error> {
    if arg == "now"@ {
        Ok(DateVariant::Now)
    } else {
        date_of(utc_reading(arg, "%Y-%m-%d %H:%M:%S"@))
    }
}

/// Turns a reading of a date into the date, or into the error that it amounts to: a
/// parse error into `DateTimeParse`, a local time that names no instant into
/// `InvalidTimezoneTime`.
pub fn date_from_reading(reading: Result<Option<i64>, chrono::ParseError>) -> (date: Result<
    DateVariant,
    Error,
>)
    ensures
        date == date_of(reading_outcome(reading)),
{
    match reading {
        Ok(Some(timestamp)) => Ok(DateVariant::HistoryDate(timestamp)),
        Ok(None) => Err(Error::InvalidTimezoneTime),
        Err(_) => Err(Error::DateTimeParse),
    }
}

/// Whether the argument is the word "now".
fn is_now(arg: &str) -> (yes: bool)
    ensures
        yes == (arg@ == "now"@),
{
    proof {
        reveal_strlit("now");
    }
    let yes = arg.unicode_len() == 3 && arg.get_char(0) == 'n' && arg.get_char(1) == 'o'
        && arg.get_char(2) == 'w';
    assert(yes ==> arg@ =~= "now"@);
    yes
}

/// Reads the date argument of a lookup: "now", or a date and time written as
/// `%Y-%m-%d %H:%M:%S`, which is taken as UTC.
pub fn parse_date(arg: &str) -> (date: Result<DateVariant, Error>)
    ensures
        date == parsed_date(arg@),
{
    if is_now(arg) {
        Ok(DateVariant::Now)
    } else {
        date_from_reading(read_utc(arg, "%Y-%m-%d %H:%M:%S"))
    }
}

} // verus!
