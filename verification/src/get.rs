//! What a lookup decides: which request to make, whether the answer's status lets it
//! go on, and the symbol that draws a wind direction.

use vstd::prelude::*;
use crate::cli::DateVariant;
use crate::error::Error;
use crate::providers::openweather::OpenWeather;
use crate::providers::weatherapi::WeatherApi;
use crate::providers::WeatherClient;

verus! {

/// The shape of the answer that a request expects, which is also the normalisation that
/// the answer is to go through.
#[derive(Clone, Copy, Debug, PartialEq, Eq, Structural)]
pub enum Payload {
    /// An OpenWeather report of the current weather.
    OpenWeatherCurrent,
    /// An OpenWeather series of past reports, asked for from the given instant on.
    OpenWeatherHistory(i64),
    /// A WeatherApi reading of the current weather.
    WeatherApiCurrent,
    /// A WeatherApi day of past hours, of which the one closest to the given instant
    /// is meant.
    WeatherApiHistory(i64),
}

/// One request to a weather service: the address to GET, and what comes back.
#[derive(Debug)]
pub struct Request {
    pub url: String,
    pub payload: Payload,
}

/// The shape of the answer for a service and a date.
pub open spec fn payload_for(client: WeatherClient, date: DateVariant) -> Payload {
    match (client, date) {
        (WeatherClient::OpenWeather(_), DateVariant::Now) => Payload::OpenWeatherCurrent,
        (WeatherClient::OpenWeather(_), DateVariant::HistoryDate(timestamp)) => {
            Payload::OpenWeatherHistory(timestamp)
        },
        (WeatherClient::WeatherApi(_), DateVariant::Now) => Payload::WeatherApiCurrent,
        (WeatherClient::WeatherApi(_), DateVariant::HistoryDate(timestamp)) => {
            Payload::WeatherApiHistory(timestamp)
        },
    }
}

/// The address to ask a service for the weather of a place at a date.
pub open spec fn url_for(client: WeatherClient, address: Seq<char>, date: DateVariant) -> Seq<
    char,
> {
    match (client, date) {
        (WeatherClient::OpenWeather(service), DateVariant::Now) => OpenWeather::addr(
            service.key(),
            OpenWeather::city_query(address),
        ),
        (WeatherClient::OpenWeather(service), DateVariant::HistoryDate(timestamp)) => {
            OpenWeather::addr(service.key(), OpenWeather::history_query(address, timestamp as int))
        },
        (WeatherClient::WeatherApi(service), DateVariant::Now) => WeatherApi::current_addr(
            service.key(),
            address,
        ),
        (WeatherClient::WeatherApi(service), DateVariant::HistoryDate(timestamp)) => {
            WeatherApi::history_addr(service.key(), address, timestamp as int)
        },
    }
}

/// The one request that a lookup makes: to the configured service, for the current
/// weather where the date is now and for the past weather where it is an instant.
pub fn request(client: &WeatherClient, address: &str, date: &DateVariant) -> (request: Request)
    ensures
        request.url@ == url_for(*client, address@, *date),
        request.payload == payload_for(*client, *date),
{
    match client {
        WeatherClient::OpenWeather(service) => match date {
            DateVariant::Now => Request {
                url: service.current_weather_city_addr(address),
                payload: Payload::OpenWeatherCurrent,
            },
            DateVariant::HistoryDate(timestamp) => Request {
                url: service.history_weather_addr(address, *timestamp),
                payload: Payload::OpenWeatherHistory(*timestamp),
            },
        },
        WeatherClient::WeatherApi(service) => match date {
            DateVariant::Now => Request {
                url: service.current_weather_city_addr(address),
                payload: Payload::WeatherApiCurrent,
            },
            DateVariant::HistoryDate(timestamp) => Request {
                url: service.history_weather_addr(address, *timestamp),
                payload: Payload::WeatherApiHistory(*timestamp),
            },
        },
    }
}

/// Whether a status code reports success: the codes from 200 to 299 do.
pub open spec fn is_success(status: u16) -> bool {
    200 <= status <= 299
}

/// Judges the status of an answer. Any status that does not report success ends the
/// lookup with a request error, whatever the answer's body holds.
pub fn check_status(status: u16) -> (outcome: Result<(), Error>)
    ensures
        is_success(status) ==> outcome == Ok::<(), Error>(()),
        !is_success(status) ==> outcome == Err::<(), Error>(Error::Request),
{
    if 200 <= status && status <= 299 {
        Ok(())
    } else {
        Err(Error::Request)
    }
}

/// The octant of the compass that an angle in degrees falls into: the nearest multiple
/// of 45 degrees, counted from north (0) to north-west (7). Angles are taken modulo a
/// full turn.
pub open spec fn octant(degrees: int) -> int {
    ((degrees % 360 + 22) / 45) % 8
}

/// The arrow drawn for each octant.
pub open spec fn arrow(octant: int) -> char {
    if octant == 0 {
        '\u{2191}'
    } else if octant == 1 {
        '\u{2196}'
    } else if octant == 2 {
        '\u{2190}'
    } else if octant == 3 {
        '\u{2199}'
    } else if octant == 4 {
        '\u{2193}'
    } else if octant == 5 {
        '\u{2198}'
    } else if octant == 6 {
        '\u{2192}'
    } else {
        '\u{2197}'
    }
}

/// The arrow for a wind direction in compass degrees.
pub fn wind_direction_symbol(degrees: i64) -> (symbol: char)
    ensures
        symbol == arrow(octant(degrees as int)),
{
    let turn: i64 = match degrees.checked_rem_euclid(360) {
        Some(r) => r,
        None => 0,
    };
    let index: i64 = ((turn + 22) / 45) % 8;
    if index == 0 {
        '\u{2191}'
    } else if index == 1 {
        '\u{2196}'
    } else if index == 2 {
        '\u{2190}'
    } else if index == 3 {
        '\u{2199}'
    } else if index == 4 {
        '\u{2193}'
    } else if index == 5 {
        '\u{2198}'
    } else if index == 6 {
        '\u{2192}'
    } else {
        '\u{2197}'
    }
}

/// Each octant is centred on its multiple of 45 degrees and reaches 22 degrees to either
/// side: every angle is counted to the nearest of the eight directions.
pub proof fn lemma_octant_reach(k: int, off_centre: int)
    requires
        0 <= k < 8,
        -22 <= off_centre <= 22,
    ensures
        octant(45 * k + off_centre) == k,
{
}

/// A full turn changes nothing: an angle and the same angle plus 360 degrees are drawn
/// with the same arrow.
pub proof fn lemma_full_turn_keeps_symbol(degrees: int)
    ensures
        octant(degrees + 360) == octant(degrees),
        arrow(octant(degrees + 360)) == arrow(octant(degrees)),
{
}

} // verus!
