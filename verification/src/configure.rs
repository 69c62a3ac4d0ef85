//! The credential record that configuring a provider stores.

use vstd::prelude::*;
use crate::cli::Provider;
use crate::providers::ProviderUserInfo;
use crate::text::{trim, trimmed};

verus! {

/// The question that asks the user for the key of a provider.
pub open spec fn spec_prompt(provider: Provider) -> Seq<char> {
    match provider {
        Provider::OpenWeather => "OpenWeather api key:"@,
        Provider::WeatherApi => "Weather API api key:"@,
    }
}

/// The question that asks the user for the key of a provider.
pub fn prompt(provider: &Provider) -> (question: &'static str)
    ensures
        question@ == spec_prompt(*provider),
{
    match provider {
        Provider::OpenWeather => "OpenWeather api key:",
        Provider::WeatherApi => "Weather API api key:",
    }
}

/// The OpenWeather credential for what the user typed: the line without the white
/// space around it is the key.
pub fn openweather(typed: &str) -> (info: ProviderUserInfo)
    ensures
        info is OpenWeather,
        info.key() == trimmed(typed@),
{
    ProviderUserInfo::OpenWeather { api_key: trim(typed).to_owned() }
}

/// The WeatherApi credential for what the user typed: the line without the white space
/// around it is the key.
pub fn weatherapi(typed: &str) -> (info: ProviderUserInfo)
    ensures
        info is WeatherApi,
        info.key() == trimmed(typed@),
{
    ProviderUserInfo::WeatherApi { api_key: trim(typed).to_owned() }
}

/// The credential to store for `provider`, given the line that the user typed when
/// asked for the key.
pub fn credential(provider: &Provider, typed: &str) -> (info: ProviderUserInfo)
    ensures
        *provider is OpenWeather <==> info is OpenWeather,
        *provider is WeatherApi <==> info is WeatherApi,
        info.key() == trimmed(typed@),
{
    match provider {
        Provider::OpenWeather => openweather(typed),
        Provider::WeatherApi => weatherapi(typed),
    }
}

} // verus!
