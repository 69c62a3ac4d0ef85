//! The credential record, the two weather services, and the one model that both
//! services' answers are brought to.

pub mod openweather;
pub mod weatherapi;

use vstd::prelude::*;
use crate::error::Error;
use crate::measure::Measure;
use crate::providers::openweather::OpenWeather;
use crate::providers::weatherapi::{closest, closest_hour, epochs, WeatherApi};

verus! {

/// The stored credential: which service the user chose, and the key for it. It is the
/// one thing that is kept between runs, and it is replaced whole, never changed.
#[derive(Debug)]
pub enum ProviderUserInfo {
    /// The user chose OpenWeather.
    OpenWeather {
        /// The key for OpenWeather.
        api_key: String,
    },
    /// The user chose WeatherApi.
    WeatherApi {
        /// The key for WeatherApi.
        api_key: String,
    },
}

/// A weather service ready to be asked: one of the two, with its key.
pub enum WeatherClient {
    OpenWeather(OpenWeather),
    WeatherApi(WeatherApi),
}

impl WeatherClient {
    /// The key that the service is asked with.
    pub open spec fn key(&self) -> Seq<char> {
        match self {
            WeatherClient::OpenWeather(service) => service.key(),
            WeatherClient::WeatherApi(service) => service.key(),
        }
    }
}

impl ProviderUserInfo {
    /// The stored key.
    pub open spec fn key(&self) -> Seq<char> {
        match self {
            ProviderUserInfo::OpenWeather { api_key } => api_key@,
            ProviderUserInfo::WeatherApi { api_key } => api_key@,
        }
    }

    /// The service that the credential is for, ready to be asked with the stored key.
    pub fn build_provider(self) -> (client: WeatherClient)
        ensures
            self is OpenWeather <==> client is OpenWeather,
            self is WeatherApi <==> client is WeatherApi,
            client.key() == self.key(),
    {
        match self {
            ProviderUserInfo::OpenWeather { api_key } => WeatherClient::OpenWeather(
                OpenWeather::new(api_key),
            ),
            ProviderUserInfo::WeatherApi { api_key } => WeatherClient::WeatherApi(
                WeatherApi::new(api_key),
            ),
        }
    }
}

/// The weather at one place, in units that do not depend on the service it came from:
/// degrees Celsius, metres per second, millimetres, metres and percent.
#[derive(Debug)]
pub struct Weather {
    /// The share of the sky that clouds cover, in percent.
    pub cloudiness: i64,
    /// The condition in words; empty where the service gave none.
    pub description: String,
    /// The temperature in degrees Celsius.
    pub temperature: Measure,
    /// Wind speed and direction.
    pub wind: Wind,
    /// The rain volume in millimetres; zero where the service gave none.
    pub rain_volume: Measure,
    /// The visibility in metres.
    pub visibility: i64,
    /// The place in words: city and country, with the region between them where the
    /// service names one.
    pub location: String,
}

/// Wind speed in metres per second, and the direction the wind comes from in compass
/// degrees: 0 is north, 180 south.
#[derive(Clone, Copy, Debug, PartialEq, Eq, Structural)]
pub struct Wind {
    pub speed: Measure,
    pub deg: i64,
}

/// A [`Weather`] as a mathematical value.
pub struct WeatherView {
    pub cloudiness: int,
    pub description: Seq<char>,
    pub temperature: Measure,
    pub wind: Wind,
    pub rain_volume: Measure,
    pub visibility: int,
    pub location: Seq<char>,
}

impl View for Weather {
    type V = WeatherView;

    open spec fn view(&self) -> WeatherView {
        WeatherView {
            cloudiness: self.cloudiness as int,
            description: self.description@,
            temperature: self.temperature,
            wind: self.wind,
            rain_volume: self.rain_volume,
            visibility: self.visibility as int,
            location: self.location@,
        }
    }
}

/// What the two unit conversions of a WeatherApi reading gave: the wind speed in metres
/// per second, which is the reading's `wind_kph` divided by 3.6 as a binary64 number,
/// and the visibility in whole metres, which is its `vis_km` times 1000 with the
/// fraction cut off. The caller computes both; the library places them.
#[derive(Clone, Copy, Debug, PartialEq, Eq, Structural)]
pub struct Metric {
    pub wind_speed: Measure,
    pub visibility: i64,
}

/// The rain volume of an OpenWeather report: that of the last hour, or zero where the
/// report has no rain record or the record has no such entry.
pub open spec fn openweather_rain(rain: Option<openweather::Rain>) -> Measure {
    match rain {
        Some(record) => match record.n1h {
            Some(volume) => volume,
            None => Measure::spec_zero(),
        },
        None => Measure::spec_zero(),
    }
}

/// The description of an OpenWeather report: that of its first condition, or nothing.
pub open spec fn openweather_description(conditions: Seq<openweather::Weather>) -> Seq<char> {
    if conditions.len() > 0 {
        conditions[0].description@
    } else {
        Seq::empty()
    }
}

/// What an OpenWeather report says, in the common model.
pub open spec fn openweather_weather(w: openweather::CurrentWeather) -> WeatherView {
    WeatherView {
        cloudiness: w.clouds.all as int,
        description: openweather_description(w.weather@),
        temperature: w.main.temp,
        wind: Wind { speed: w.wind.speed, deg: w.wind.deg },
        rain_volume: openweather_rain(w.rain),
        visibility: w.visibility as int,
        location: w.name@ + ", "@ + w.sys.country@,
    }
}

/// Brings an OpenWeather report to the common model. Every quantity is passed on as it
/// is, since the report is already metric.
pub fn openweather_extract_weather_data(w: openweather::CurrentWeather) -> (weather: Weather)
    ensures
        weather@ == openweather_weather(w),
{
    let description = if w.weather.len() > 0 {
        w.weather[0].description.clone()
    } else {
        String::new()
    };
    let rain_volume = match w.rain {
        Some(record) => match record.n1h {
            Some(volume) => volume,
            None => Measure::zero(),
        },
        None => Measure::zero(),
    };
    let mut location = w.name;
    location.append(", ");
    location.append(w.sys.country.as_str());
    Weather {
        cloudiness: w.clouds.all,
        description,
        temperature: w.main.temp,
        wind: Wind { speed: w.wind.speed, deg: w.wind.deg },
        rain_volume,
        visibility: w.visibility,
        location,
    }
}

/// Brings the answer to a historical OpenWeather lookup to the common model: the first
/// report of the series counts. An empty series is an error, never a made-up weather.
pub fn openweather_extract_history_data(w: openweather::HistoryWeather) -> (outcome: Result<
    Weather,
    Error,
>)
    ensures
        w.list@.len() == 0 ==> outcome == Err::<Weather, Error>(Error::WeatherNoHistory),
        w.list@.len() > 0 ==> outcome is Ok && outcome->Ok_0@ == openweather_weather(w.list@[0]),
{
    let mut list = w.list;
    if list.len() == 0 {
        Err(Error::WeatherNoHistory)
    } else {
        let first = list.remove(0);
        Ok(openweather_extract_weather_data(first))
    }
}

/// A WeatherApi place in words.
pub open spec fn weatherapi_place(location: weatherapi::Location) -> Seq<char> {
    location.name@ + ", "@ + location.region@ + ", "@ + location.country@
}

/// What a current WeatherApi reading says, in the common model.
pub open spec fn weatherapi_weather(w: weatherapi::CurrentWeather, metric: Metric) -> WeatherView {
    WeatherView {
        cloudiness: w.current.cloud as int,
        description: w.current.condition.text@,
        temperature: w.current.temp_c,
        wind: Wind { speed: metric.wind_speed, deg: w.current.wind_degree },
        rain_volume: w.current.precip_mm,
        visibility: metric.visibility as int,
        location: weatherapi_place(w.location),
    }
}

/// What one hour of a WeatherApi history says, in the common model.
pub open spec fn weatherapi_hour_weather(
    location: weatherapi::Location,
    hour: weatherapi::Hour,
    metric: Metric,
) -> WeatherView {
    WeatherView {
        cloudiness: hour.cloud as int,
        description: hour.condition.text@,
        temperature: hour.temp_c,
        wind: Wind { speed: metric.wind_speed, deg: hour.wind_degree },
        rain_volume: hour.precip_mm,
        visibility: metric.visibility as int,
        location: weatherapi_place(location),
    }
}

/// Writes a WeatherApi place as "city, region, country".
fn weatherapi_location(location: &weatherapi::Location) -> (place: String)
    ensures
        place@ == weatherapi_place(*location),
{
    let mut place = location.name.clone();
    place.append(", ");
    place.append(location.region.as_str());
    place.append(", ");
    place.append(location.country.as_str());
    place
}

/// Brings a current WeatherApi reading to the common model. Temperature, rain volume,
/// cloud cover, wind direction and description are passed on; wind speed and
/// visibility are taken from `metric`, which holds them in metric units.
pub fn weatherapi_extract_weather_data(w: weatherapi::CurrentWeather, metric: Metric) -> (weather:
    Weather)
    ensures
        weather@ == weatherapi_weather(w, metric),
{
    let location = weatherapi_location(&w.location);
    Weather {
        cloudiness: w.current.cloud,
        description: w.current.condition.text,
        temperature: w.current.temp_c,
        wind: Wind { speed: metric.wind_speed, deg: w.current.wind_degree },
        rain_volume: w.current.precip_mm,
        visibility: metric.visibility,
        location,
    }
}

/// The hours among which a historical WeatherApi answer is searched: those of its first
/// day, or none where it has no day.
pub open spec fn weatherapi_hours(w: weatherapi::HistoryWeather) -> Seq<weatherapi::Hour> {
    if w.forecast.forecastday@.len() > 0 {
        w.forecast.forecastday@[0].hour@
    } else {
        Seq::empty()
    }
}

/// The place, among the hours that are searched, of the hour that starts closest to
/// `timestamp`: the first of several equally close ones.
pub open spec fn weatherapi_hour_index(w: weatherapi::HistoryWeather, timestamp: int) -> int {
    closest(epochs(weatherapi_hours(w)), timestamp)
}

/// Which hour of a historical WeatherApi answer is meant: of the first day's hours the
/// one that starts closest to `timestamp`, and of several equally close ones the first.
/// Its place in that day's list is returned. An answer without a day, or whose first
/// day has no hour, is an error.
pub fn weatherapi_history_hour(w: &weatherapi::HistoryWeather, timestamp: i64) -> (outcome: Result<
    usize,
    Error,
>)
    ensures
        weatherapi_hours(*w).len() == 0 ==> outcome == Err::<usize, Error>(
            Error::WeatherNoHistory,
        ),
        weatherapi_hours(*w).len() > 0 ==> outcome is Ok && outcome->Ok_0 == weatherapi_hour_index(
            *w,
            timestamp as int,
        ),
        outcome matches Ok(index) ==> index < weatherapi_hours(*w).len(),
{
    if w.forecast.forecastday.len() == 0 {
        return Err(Error::WeatherNoHistory);
    }
    match closest_hour(&w.forecast.forecastday[0].hour, timestamp) {
        Some(index) => Ok(index),
        None => Err(Error::WeatherNoHistory),
    }
}

/// Brings the answer to a historical WeatherApi lookup to the common model. The hour
/// that [`weatherapi_history_hour`] names counts; `metric` holds that hour's wind speed
/// and visibility in metric units. An answer without a day, or whose first day has no
/// hour, is an error, never a made-up weather.
pub fn weatherapi_extract_history_data(
    w: &weatherapi::HistoryWeather,
    timestamp: i64,
    metric: Metric,
) -> (outcome: Result<Weather, Error>)
    ensures
        weatherapi_hours(*w).len() == 0 ==> outcome == Err::<Weather, Error>(
            Error::WeatherNoHistory,
        ),
        weatherapi_hours(*w).len() > 0 ==> outcome is Ok && outcome->Ok_0@
            == weatherapi_hour_weather(
            w.location,
            weatherapi_hours(*w)[weatherapi_hour_index(*w, timestamp as int)],
            metric,
        ),
{
    match weatherapi_history_hour(w, timestamp) {
        Err(e) => Err(e),
        Ok(index) => {
            let hour = &w.forecast.forecastday[0].hour[index];
            let location = weatherapi_location(&w.location);
            let weather = Weather {
                cloudiness: hour.cloud,
                description: hour.condition.text.clone(),
                temperature: hour.temp_c,
                wind: Wind { speed: metric.wind_speed, deg: hour.wind_degree },
                rain_volume: hour.precip_mm,
                visibility: metric.visibility,
                location,
            };
            Ok(weather)
        },
    }
}

} // verus!
