use weather_lib::error::Error;
use weather_lib::measure::Measure;
use weather_lib::providers::openweather::{
    Clouds, CurrentWeather, HistoryWeather, Main, Rain, Sys, Weather as Condition, Wind,
};
use weather_lib::providers::{openweather_extract_history_data, openweather_extract_weather_data};

fn measure(x: f64) -> Measure {
    Measure::from_bits(x.to_bits())
}

fn value(m: Measure) -> f64 {
    f64::from_bits(m.to_bits())
}

fn london() -> CurrentWeather {
    CurrentWeather {
        weather: vec![
            Condition { id: 500, main: "Rain".into(), description: "light rain".into(), icon: "10d".into() },
            Condition { id: 701, main: "Mist".into(), description: "mist".into(), icon: "50d".into() },
        ],
        main: Main { temp: measure(11.5), feels_like: measure(10.9), ..Default::default() },
        visibility: 9000,
        wind: Wind { speed: measure(4.12), deg: 250, gust: None },
        rain: Some(Rain { n1h: Some(measure(2.5)), n3h: None }),
        clouds: Clouds { all: 75 },
        sys: Sys { country: "GB".into(), sunrise: 1, sunset: 2 },
        name: "London".into(),
        ..Default::default()
    }
}

#[test]
fn openweather_report_is_passed_on_field_by_field() {
    let w = openweather_extract_weather_data(london());
    assert_eq!(w.cloudiness, 75);
    assert_eq!(w.description, "light rain");
    assert_eq!(value(w.temperature), 11.5);
    assert_eq!(value(w.wind.speed), 4.12);
    assert_eq!(w.wind.deg, 250);
    assert_eq!(value(w.rain_volume), 2.5);
    assert_eq!(w.visibility, 9000);
    assert_eq!(w.location, "London, GB");
}

#[test]
fn rain_of_the_last_hour_is_the_rain_volume() {
    let mut report = london();
    report.rain = Some(Rain { n1h: Some(measure(2.5)), n3h: Some(measure(7.0)) });
    let w = openweather_extract_weather_data(report);
    assert_eq!(value(w.rain_volume), 2.5);
}

#[test]
fn absent_rain_is_zero() {
    let mut report = london();
    report.rain = None;
    let w = openweather_extract_weather_data(report);
    assert_eq!(value(w.rain_volume), 0.0);
    assert_eq!(w.rain_volume.to_bits(), 0);
}

#[test]
fn rain_record_without_last_hour_is_zero() {
    let mut report = london();
    report.rain = Some(Rain { n1h: None, n3h: Some(measure(7.0)) });
    let w = openweather_extract_weather_data(report);
    assert_eq!(value(w.rain_volume), 0.0);
}

#[test]
fn report_without_conditions_has_empty_description() {
    let mut report = london();
    report.weather = vec![];
    let w = openweather_extract_weather_data(report);
    assert_eq!(w.description, "");
    assert_eq!(w.location, "London, GB");
}

#[test]
fn empty_names_still_give_the_separator() {
    let w = openweather_extract_weather_data(CurrentWeather::default());
    assert_eq!(w.location, ", ");
    assert_eq!(w.cloudiness, 0);
    assert_eq!(w.visibility, 0);
}

#[test]
fn first_report_of_a_series_counts() {
    let mut second = london();
    second.name = "Paris".into();
    second.clouds = Clouds { all: 1 };
    let history = HistoryWeather { list: vec![london(), second] };
    let w = openweather_extract_history_data(history).unwrap();
    assert_eq!(w.location, "London, GB");
    assert_eq!(w.cloudiness, 75);
    assert_eq!(value(w.rain_volume), 2.5);
}

#[test]
fn empty_openweather_series_is_no_history() {
    let outcome = openweather_extract_history_data(HistoryWeather { list: vec![] });
    assert_eq!(outcome.unwrap_err(), Error::WeatherNoHistory);
}
