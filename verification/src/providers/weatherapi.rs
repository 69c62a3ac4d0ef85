//! The WeatherApi service: what its answers hold, and which hour of a day is meant.

use vstd::prelude::*;
use crate::measure::Measure;
use crate::text::{decimal, push_decimal};

verus! {

/// The WeatherApi service, with the key that it knows the user by.
pub struct WeatherApi {
    api_key: String,
}

impl WeatherApi {
    /// The key that every request carries.
    pub closed spec fn key(&self) -> Seq<char> {
        self.api_key@
    }

    /// The service as used with `api_key`.
    pub fn new(api_key: String) -> (service: Self)
        ensures
            service.key() == api_key@,
    {
        Self { api_key }
    }

    /// The address of a request: the fixed base, the endpoint, the key and the city.
    pub open spec fn addr(key: Seq<char>, endpoint: Seq<char>, city: Seq<char>) -> Seq<char> {
        "https://api.weatherapi.com/v1/"@ + endpoint + "?key="@ + key + "&q="@ + city
    }

    /// The address to ask for the current weather of a city.
    pub open spec fn current_addr(key: Seq<char>, city: Seq<char>) -> Seq<char> {
        Self::addr(key, "current.json"@, city)
    }

    /// The address to ask for the hours of the day that holds a past instant, given in
    /// seconds since the Unix epoch.
    pub open spec fn history_addr(key: Seq<char>, city: Seq<char>, timestamp: int) -> Seq<char> {
        Self::addr(key, "history.json"@, city) + "&unixdt="@ + decimal(timestamp)
    }

    /// Writes the address of a request to `endpoint` about `city`.
    pub fn format_addr(&self, endpoint: &str, city: &str) -> (addr: String)
        ensures
            addr@ == Self::addr(self.key(), endpoint@, city@),
    {
        let mut addr = String::from_str("https://api.weatherapi.com/v1/");
        addr.append(endpoint);
        addr.append("?key=");
        addr.append(self.api_key.as_str());
        addr.append("&q=");
        addr.append(city);
        addr
    }

    /// The address to ask for the current weather of a city.
    pub fn current_weather_city_addr(&self, city: &str) -> (addr: String)
        ensures
            addr@ == Self::current_addr(self.key(), city@),
    {
        self.format_addr("current.json", city)
    }

    /// The address to ask for the hours of the day that holds a past instant.
    pub fn history_weather_addr(&self, city: &str, timestamp: i64) -> (addr: String)
        ensures
            addr@ == Self::history_addr(self.key(), city@, timestamp as int),
    {
        let mut addr = self.format_addr("history.json", city);
        addr.append("&unixdt=");
        push_decimal(&mut addr, timestamp);
        addr
    }
}

/// The place that an answer is about.
#[derive(Default, Debug, Clone, PartialEq)]
pub struct Location {
    pub name: String,
    pub region: String,
    pub country: String,
}

/// A weather condition in words.
#[derive(Default, Debug, Clone, PartialEq)]
pub struct Condition {
    pub text: String,
}

/// The weather right now. Wind speed is in kilometres per hour and visibility in
/// kilometres: the service's own units.
#[derive(Default, Debug, Clone, PartialEq)]
pub struct Current {
    pub temp_c: Measure,
    pub condition: Condition,
    pub wind_kph: Measure,
    pub wind_degree: i64,
    pub precip_mm: Measure,
    pub vis_km: Measure,
    pub cloud: i64,
}

/// The weather of one hour of a past day, in the units of [`Current`]. `time_epoch` is
/// the hour's start in seconds since the Unix epoch.
#[derive(Default, Debug, Clone, PartialEq)]
pub struct Hour {
    pub time_epoch: i64,
    pub temp_c: Measure,
    pub condition: Condition,
    pub wind_kph: Measure,
    pub wind_degree: i64,
    pub precip_mm: Measure,
    pub vis_km: Measure,
    pub cloud: i64,
}

/// One day of a historical answer, hour by hour.
#[derive(Default, Debug, Clone, PartialEq)]
pub struct ForecastDay {
    pub hour: Vec<Hour>,
}

/// The days of a historical answer.
#[derive(Default, Debug, Clone, PartialEq)]
pub struct Forecast {
    pub forecastday: Vec<ForecastDay>,
}

/// The answer to a lookup of the current weather.
#[derive(Default, Debug, Clone, PartialEq)]
pub struct CurrentWeather {
    pub location: Location,
    pub current: Current,
}

/// The answer to a historical lookup.
#[derive(Default, Debug, Clone, PartialEq)]
pub struct HistoryWeather {
    pub location: Location,
    pub forecast: Forecast,
}

/// How far apart two instants are, in seconds.
pub open spec fn distance(a: int, b: int) -> int {
    if a >= b {
        a - b
    } else {
        b - a
    }
}

/// The start times of a day's hours, in order.
pub open spec fn epochs(hours: Seq<Hour>) -> Seq<int> {
    Seq::new(hours.len(), |i: int| hours[i].time_epoch as int)
}

/// `index` names the instant of `epochs` that is closest to `timestamp`. Where several
/// are equally close it names the first of them.
pub open spec fn is_closest(epochs: Seq<int>, timestamp: int, index: int) -> bool {
    &&& 0 <= index < epochs.len()
    &&& forall|j: int|
        0 <= j < epochs.len() ==> distance(epochs[index], timestamp) <= distance(
            #[trigger] epochs[j],
            timestamp,
        )
    &&& forall|j: int|
        0 <= j < index ==> distance(epochs[index], timestamp) < distance(
            #[trigger] epochs[j],
            timestamp,
        )
}

/// The place of the instant of `epochs` that is closest to `timestamp`, the first of
/// several equally close ones. It means something only where `epochs` is not empty.
pub open spec fn closest(epochs: Seq<int>, timestamp: int) -> int {
    choose|index: int| is_closest(epochs, timestamp, index)
}

/// Only one index is the closest.
pub proof fn lemma_closest_is_unique(epochs: Seq<int>, timestamp: int, i: int, j: int)
    requires
        is_closest(epochs, timestamp, i),
        is_closest(epochs, timestamp, j),
    ensures
        i == j,
{
    if i < j {
        // `j` is strictly closer than everything before it, `i` included
        assert(distance(epochs[j], timestamp) < distance(epochs[i], timestamp));
    } else if j < i {
        assert(distance(epochs[i], timestamp) < distance(epochs[j], timestamp));
    }
}

/// The distance between two instants, which always fits in 64 bits without a sign.
pub fn gap(a: i64, b: i64) -> (d: u64)
    ensures
        d == distance(a as int, b as int),
{
    let wide: i128 = a as i128 - b as i128;
    if wide >= 0 {
        wide as u64
    } else {
        (-wide) as u64
    }
}

/// The hour of a day that is closest to `timestamp`, by its place in the list; `None`
/// for a day without hours.
pub fn closest_hour(hours: &Vec<Hour>, timestamp: i64) -> (found: Option<usize>)
    ensures
        found is None <==> hours.len() == 0,
        found matches Some(index) ==> is_closest(epochs(hours@), timestamp as int, index as int),
        found matches Some(index) ==> index == closest(epochs(hours@), timestamp as int),
{
    if hours.len() == 0 {
        return None;
    }
    let mut best: usize = 0;
    let mut best_distance: u64 = gap(hours[0].time_epoch, timestamp);
    let mut i: usize = 1;
    while i < hours.len()
        invariant
            1 <= i <= hours.len(),
            best < i,
            best_distance == distance(hours[best as int].time_epoch as int, timestamp as int),
            forall|j: int|
                0 <= j < i ==> best_distance <= distance(
                    (#[trigger] hours[j]).time_epoch as int,
                    timestamp as int,
                ),
            forall|j: int|
                0 <= j < best ==> best_distance < distance(
                    (#[trigger] hours[j]).time_epoch as int,
                    timestamp as int,
                ),
        decreases hours.len() - i,
    {
        let d: u64 = gap(hours[i].time_epoch, timestamp);
        if d < best_distance {
            best = i;
            best_distance = d;
        }
        i += 1;
    }
    proof {
        let all = epochs(hours@);
        lemma_closest_is_unique(all, timestamp as int, best as int, closest(all, timestamp as int));
    }
    Some(best)
}

} // verus!
