//! Service configuration: the upstream endpoints and keys, with the
//! defaults that apply when a setting is absent.  Reading the process
//! environment is the caller's business; this module only settles values.

use vstd::prelude::*;

verus! {

/// The weather service's endpoint and key.
#[derive(Debug, PartialEq)]
pub struct WeatherConfig {
    pub base_url: String,
    pub api_key: String,
}

/// The language-model service's key.
#[derive(Debug, PartialEq)]
pub struct OpenaiConfig {
    pub api_key: String,
}

/// The voice platform's endpoint and key.
#[derive(Debug, PartialEq)]
pub struct VapiConfig {
    pub base_url: String,
    pub api_key: String,
}

/// The whole service configuration.
#[derive(Debug, PartialEq)]
pub struct EnvConfig {
    pub weather: WeatherConfig,
    pub openai: OpenaiConfig,
    pub vapi: VapiConfig,
}

/// The default weather endpoint.
pub open spec fn spec_default_weather_base_url() -> Seq<char> {
    "https://api.openweathermap.org/data/2.5"@
}

/// The default voice-platform endpoint.
pub open spec fn spec_default_vapi_base_url() -> Seq<char> {
    "https://api.vapi.ai"@
}

/// A setting, or its default when unset.
pub open spec fn spec_setting(given: Option<Seq<char>>, default: Seq<char>) -> Seq<char> {
    match given {
        Some(s) => s,
        None => default,
    }
}

/// Settles one setting against its default.
fn setting(given: Option<String>, default: &str) -> (r: String)
    ensures
        r@ == spec_setting(given.deep_view(), default@),
{
    match given {
        Some(s) => s,
        None => default.to_owned(),
    }
}

/// Builds the configuration from the settings the caller found, applying
/// the defaults: endpoints fall back to the services' public ones, keys
/// fall back to empty.
pub fn env_config_from(
    weather_base_url: Option<String>,
    weather_api_key: Option<String>,
    openai_api_key: Option<String>,
    vapi_base_url: Option<String>,
    vapi_api_key: Option<String>,
) -> (c: EnvConfig)
    ensures
        c.weather.base_url@ == spec_setting(
            weather_base_url.deep_view(),
            spec_default_weather_base_url(),
        ),
        c.weather.api_key@ == spec_setting(weather_api_key.deep_view(), ""@),
        c.openai.api_key@ == spec_setting(openai_api_key.deep_view(), ""@),
        c.vapi.base_url@ == spec_setting(vapi_base_url.deep_view(), spec_default_vapi_base_url()),
        c.vapi.api_key@ == spec_setting(vapi_api_key.deep_view(), ""@),
{
    EnvConfig {
        weather: WeatherConfig {
            base_url: setting(weather_base_url, "https://api.openweathermap.org/data/2.5"),
            api_key: setting(weather_api_key, ""),
        },
        openai: OpenaiConfig { api_key: setting(openai_api_key, "") },
        vapi: VapiConfig {
            base_url: setting(vapi_base_url, "https://api.vapi.ai"),
            api_key: setting(vapi_api_key, ""),
        },
    }
}

} // verus!
