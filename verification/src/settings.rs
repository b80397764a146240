//! The settings that the HTTP server runs with.

use vstd::prelude::*;

verus! {

/// How many requests a caller may make.
#[derive(Debug, Clone, Copy, PartialEq, Eq, Structural)]
pub struct RateLimitSettings {
    /// How many requests may come at once.
    pub burst_size: u32,
    /// After how many milliseconds one more request is allowed.
    pub per_duration_millis: u64,
}

impl RateLimitSettings {
    /// True when the settings describe a limit: at least one request at once
    /// and a period above zero.
    pub fn is_usable(&self) -> (res: bool)
        ensures
            res == (self.burst_size != 0 && self.per_duration_millis != 0),
    {
        self.burst_size != 0 && self.per_duration_millis != 0
    }
}

/// The settings of the HTTP API.
#[derive(Debug, Clone, PartialEq, Eq)]
pub struct HttpApiSettings {
    pub host: String,
    pub port: u16,
    /// After how many milliseconds a request is given up.
    pub timeout_millis: u64,
    pub rate_limit: RateLimitSettings,
}

/// The settings of the service.
#[derive(Debug, Clone, PartialEq, Eq)]
pub struct Settings {
    pub api: HttpApiSettings,
}

/// What the HTTP server is run with.
#[derive(Debug, Clone, PartialEq, Eq)]
pub struct RunParameters {
    pub http_api: HttpApiSettings,
}

impl RunParameters {
    /// The parameters that `settings` ask for: the settings of the HTTP API.
    pub fn from_settings(settings: &Settings) -> (res: Self)
        ensures
            res.http_api.host@ == settings.api.host@,
            res.http_api.port == settings.api.port,
            res.http_api.timeout_millis == settings.api.timeout_millis,
            res.http_api.rate_limit == settings.api.rate_limit,
    {
        RunParameters {
            http_api: HttpApiSettings {
                host: settings.api.host.clone(),
                port: settings.api.port,
                timeout_millis: settings.api.timeout_millis,
                rate_limit: settings.api.rate_limit,
            },
        }
    }
}

} // verus!
