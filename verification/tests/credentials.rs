use weather_lib::cli::Provider;
use weather_lib::configure::{credential, openweather, prompt, weatherapi};
use weather_lib::error::Error;
use weather_lib::measure::Measure;
use weather_lib::providers::ProviderUserInfo;
use weather_lib::text::{push_decimal, push_digits, trim};

fn key_of(info: &ProviderUserInfo) -> &str {
    match info {
        ProviderUserInfo::OpenWeather { api_key } => api_key,
        ProviderUserInfo::WeatherApi { api_key } => api_key,
    }
}

#[test]
fn the_typed_line_is_trimmed_to_the_key() {
    let info = credential(&Provider::OpenWeather, "  abc123 \n");
    assert!(matches!(info, ProviderUserInfo::OpenWeather { .. }));
    assert_eq!(key_of(&info), "abc123");

    let info = credential(&Provider::WeatherApi, "\tabc 123\r\n");
    assert!(matches!(info, ProviderUserInfo::WeatherApi { .. }));
    assert_eq!(key_of(&info), "abc 123");
}

#[test]
fn each_provider_has_its_own_credential_and_prompt() {
    assert!(matches!(openweather("k\n"), ProviderUserInfo::OpenWeather { .. }));
    assert!(matches!(weatherapi("k\n"), ProviderUserInfo::WeatherApi { .. }));
    assert_eq!(key_of(&openweather("k\n")), "k");
    assert_eq!(key_of(&weatherapi("k\n")), "k");
    assert_eq!(prompt(&Provider::OpenWeather), "OpenWeather api key:");
    assert_eq!(prompt(&Provider::WeatherApi), "Weather API api key:");
}

#[test]
fn an_empty_line_gives_an_empty_key() {
    assert_eq!(key_of(&credential(&Provider::OpenWeather, "")), "");
    assert_eq!(key_of(&credential(&Provider::OpenWeather, "\n")), "");
    assert_eq!(key_of(&credential(&Provider::OpenWeather, " \t \r\n")), "");
}

#[test]
fn trimming_agrees_with_the_standard_library() {
    let samples = [
        "",
        " ",
        "a",
        " a",
        "a ",
        "  a b  ",
        "\n\nkey\n\n",
        "\u{a0}key\u{3000}",
        "\u{2003}k e y\u{2028}\u{2029}",
        "ключ \n",
        " \u{200b}key",
        "\u{feff}key ",
        "\u{1680}\u{85}x\u{202f}\u{205f}",
    ];
    for s in samples {
        assert_eq!(trim(s), s.trim());
    }
    assert_eq!(trim("  a b  "), "a b");
    assert_eq!(trim("\u{a0}key\u{3000}"), "key");
}

#[test]
fn whole_numbers_are_written_in_decimal() {
    for n in [0i64, 1, 7, 9, 10, 11, 99, 100, 101, 1682942400, -1, -10, -86400, i64::MAX, i64::MIN]
    {
        let mut text = String::from("t=");
        push_decimal(&mut text, n);
        assert_eq!(text, format!("t={}", n));
    }
    let mut text = String::new();
    push_decimal(&mut text, -9223372036854775808);
    assert_eq!(text, "-9223372036854775808");
    let mut text = String::new();
    push_digits(&mut text, u64::MAX);
    assert_eq!(text, "18446744073709551615");
    let mut text = String::new();
    push_digits(&mut text, 0);
    assert_eq!(text, "0");
}

#[test]
fn every_error_has_its_message() {
    assert_eq!(Error::Request.message(), "request error");
    assert_eq!(Error::File.message(), "io error");
    assert_eq!(Error::Serialization.message(), "serialization error");
    assert_eq!(Error::DateTimeParse.message(), "date time parse error");
    assert_eq!(Error::InvalidTimezoneTime.message(), "invalid timezone time error");
    assert_eq!(Error::WeatherNoHistory.message(), "no weather history error");
}

#[test]
fn a_measure_keeps_its_bits() {
    for x in [0.0f64, -0.0, 1.0, 2.5, -273.15, f64::MAX, f64::MIN_POSITIVE, f64::INFINITY] {
        let m = Measure::from_bits(x.to_bits());
        assert_eq!(m.to_bits(), x.to_bits());
        assert_eq!(m.bits, x.to_bits());
        assert_eq!(f64::from_bits(m.to_bits()), x);
    }
    assert_eq!(Measure::from_bits(f64::NAN.to_bits()).to_bits(), f64::NAN.to_bits());
}

#[test]
fn zero_is_positive_zero() {
    assert_eq!(Measure::zero().to_bits(), 0);
    assert_eq!(f64::from_bits(Measure::zero().to_bits()), 0.0);
    assert!(f64::from_bits(Measure::zero().to_bits()).is_sign_positive());
    assert_eq!(Measure::zero(), Measure::default());
}
