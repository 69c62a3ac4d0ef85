//! The OpenWeather service: what its answers hold.

use vstd::prelude::*;
use crate::measure::Measure;
use crate::text::{decimal, push_decimal};

verus! {

/// The OpenWeather service, with the key that it knows the user by.
pub struct OpenWeather {
    api_key: String,
}

impl OpenWeather {
    /// The key that every request carries.
    pub closed spec fn key(&self) -> Seq<char> {
        self.api_key@
    }

    /// The service as used with `api_key`.
    pub fn new(api_key: String) -> (service: Self)
        ensures
            service.key() == api_key@,
    {
        Self { api_key }
    }

    /// The address of a request: the fixed base, the query, the key, and the demand for
    /// metric units.
    pub open spec fn addr(key: Seq<char>, query: Seq<char>) -> Seq<char> {
        "https://api.openweathermap.org/data/2.5/"@ + query + "&appid="@ + key
            + "&units=metric"@
    }

    /// The query for the current weather of a city.
    pub open spec fn city_query(city: Seq<char>) -> Seq<char> {
        "weather?q="@ + city
    }

    /// The query for the current weather at a latitude and a longitude, each given as
    /// it is to be written.
    pub open spec fn coordinates_query(lat: Seq<char>, lon: Seq<char>) -> Seq<char> {
        "weather?lat="@ + lat + "&lon="@ + lon
    }

    /// The query for the weather of a city at a past instant, given in seconds since
    /// the Unix epoch: one hourly report from that instant on.
    pub open spec fn history_query(city: Seq<char>, timestamp: int) -> Seq<char> {
        "history/city?q="@ + city + "&type=hour&start="@ + decimal(timestamp) + "&cnt=1"@
    }

    /// Writes the address of the request that `query` stands for.
    pub fn format_addr(&self, query: &str) -> (addr: String)
        ensures
            addr@ == Self::addr(self.key(), query@),
    {
        let mut addr = String::from_str("https://api.openweathermap.org/data/2.5/");
        addr.append(query);
        addr.append("&appid=");
        addr.append(self.api_key.as_str());
        addr.append("&units=metric");
        addr
    }

    /// The address to ask for the current weather of a city.
    pub fn current_weather_city_addr(&self, city: &str) -> (addr: String)
        ensures
            addr@ == Self::addr(self.key(), Self::city_query(city@)),
    {
        let mut query = String::from_str("weather?q=");
        query.append(city);
        self.format_addr(query.as_str())
    }

    /// The address to ask for the current weather at a latitude and a longitude.
    pub fn current_weather_addr(&self, lat: &str, lon: &str) -> (addr: String)
        ensures
            addr@ == Self::addr(self.key(), Self::coordinates_query(lat@, lon@)),
    {
        let mut query = String::from_str("weather?lat=");
        query.append(lat);
        query.append("&lon=");
        query.append(lon);
        self.format_addr(query.as_str())
    }

    /// The address to ask for the weather of a city at a past instant.
    pub fn history_weather_addr(&self, city: &str, timestamp: i64) -> (addr: String)
        ensures
            addr@ == Self::addr(self.key(), Self::history_query(city@, timestamp as int)),
    {
        let mut query = String::from_str("history/city?q=");
        query.append(city);
        query.append("&type=hour&start=");
        push_decimal(&mut query, timestamp);
        query.append("&cnt=1");
        self.format_addr(query.as_str())
    }
}

/// The weather at one place and time, as OpenWeather reports it.
#[derive(Default, Debug, Clone, PartialEq)]
pub struct CurrentWeather {
    pub coord: Coord,
    pub weather: Vec<Weather>,
    pub base: String,
    pub main: Main,
    pub visibility: i64,
    pub wind: Wind,
    pub rain: Option<Rain>,
    pub clouds: Clouds,
    pub dt: i64,
    pub sys: Sys,
    pub timezone: i64,
    pub id: i64,
    pub name: String,
    pub cod: i64,
}

/// Where the report was taken.
#[derive(Default, Debug, Clone, PartialEq)]
pub struct Coord {
    pub lon: Measure,
    pub lat: Measure,
}

/// One weather condition of a report.
#[derive(Default, Debug, Clone, PartialEq)]
pub struct Weather {
    pub id: i64,
    pub main: String,
    pub description: String,
    pub icon: String,
}

/// Temperature, pressure and humidity. Temperatures are in degrees Celsius, since every
/// request asks for metric units.
#[derive(Default, Debug, Clone, PartialEq)]
pub struct Main {
    pub temp: Measure,
    pub feels_like: Measure,
    pub temp_min: Measure,
    pub temp_max: Measure,
    pub pressure: i64,
    pub humidity: i64,
    pub sea_level: Option<i64>,
    pub grnd_level: Option<i64>,
}

/// Wind speed in metres per second and direction in compass degrees.
#[derive(Default, Debug, Clone, PartialEq)]
pub struct Wind {
    pub speed: Measure,
    pub deg: i64,
    pub gust: Option<Measure>,
}

/// Rain volume in millimetres over the last hour and the last three hours. Either may
/// be missing, as may the whole record.
#[derive(Default, Debug, Clone, PartialEq)]
pub struct Rain {
    pub n1h: Option<Measure>,
    pub n3h: Option<Measure>,
}

/// Cloud cover in percent.
#[derive(Default, Debug, Clone, PartialEq)]
pub struct Clouds {
    pub all: i64,
}

/// Country and sun times.
#[derive(Default, Debug, Clone, PartialEq)]
pub struct Sys {
    pub country: String,
    pub sunrise: i64,
    pub sunset: i64,
}

/// The answer to a historical lookup: a series of reports, earliest first.
#[derive(Default, Debug, Clone, PartialEq)]
pub struct HistoryWeather {
    pub list: Vec<CurrentWeather>,
}

} // verus!
