use weather_lib::cli::{date_from_reading, parse_date, DateVariant};
use weather_lib::error::Error;

#[test]
fn now_is_the_present() {
    assert_eq!(parse_date("now"), Ok(DateVariant::Now));
}

#[test]
fn words_close_to_now_are_dates_and_fail() {
    assert_eq!(parse_date("Now"), Err(Error::DateTimeParse));
    assert_eq!(parse_date("now "), Err(Error::DateTimeParse));
    assert_eq!(parse_date("no"), Err(Error::DateTimeParse));
    assert_eq!(parse_date("nowadays"), Err(Error::DateTimeParse));
    assert_eq!(parse_date(""), Err(Error::DateTimeParse));
}

#[test]
fn a_date_and_time_is_read_as_utc() {
    assert_eq!(parse_date("2023-05-01 12:00:00"), Ok(DateVariant::HistoryDate(1682942400)));
    assert_eq!(parse_date("1970-01-01 00:00:00"), Ok(DateVariant::HistoryDate(0)));
    assert_eq!(parse_date("1970-01-01 00:00:01"), Ok(DateVariant::HistoryDate(1)));
    assert_eq!(parse_date("1969-12-31 23:59:59"), Ok(DateVariant::HistoryDate(-1)));
    assert_eq!(parse_date("2001-09-09 01:46:40"), Ok(DateVariant::HistoryDate(1000000000)));
}

#[test]
fn a_date_without_time_is_an_error() {
    assert_eq!(parse_date("2023-05-01"), Err(Error::DateTimeParse));
}

#[test]
fn a_date_that_does_not_exist_is_an_error() {
    assert_eq!(parse_date("2023-02-30 12:00:00"), Err(Error::DateTimeParse));
    assert_eq!(parse_date("2023-05-01 24:00:00"), Err(Error::DateTimeParse));
    assert_eq!(parse_date("2023-05-01T12:00:00"), Err(Error::DateTimeParse));
    assert_eq!(parse_date("yesterday"), Err(Error::DateTimeParse));
}

#[test]
fn readings_become_dates_or_errors() {
    assert_eq!(date_from_reading(Ok(Some(1682942400))), Ok(DateVariant::HistoryDate(1682942400)));
    assert_eq!(date_from_reading(Ok(Some(-7))), Ok(DateVariant::HistoryDate(-7)));
    assert_eq!(date_from_reading(Ok(None)), Err(Error::InvalidTimezoneTime));
    let failure = chrono::NaiveDateTime::parse_from_str("x", "%Y-%m-%d %H:%M:%S").unwrap_err();
    assert_eq!(date_from_reading(Err(failure)), Err(Error::DateTimeParse));
}
