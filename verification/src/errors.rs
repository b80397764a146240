//! Failures of the weather provider and of reading what it sent.

use vstd::prelude::*;

verus! {

/// Why a report of the provider could not be read.
#[derive(Debug, Clone, PartialEq, Eq)]
pub enum WeatherError {
    /// The report is no GeoJson feature of the kind expected.
    GeoJson(String),
    /// Nothing was measured.
    EmptyAggregation,
    /// The feature lacks the member named.
    MissingFeature(String),
    /// A member of the feature holds no value of the kind expected.
    Json(String),
    /// The feature lacks the property that `target` needs.
    MissingGeoJsonProperty { target: String, property: String },
    /// The URL names no zone.
    UrlNotZoneIdentifier(String),
    /// Anything else.
    Unexpected(String),
}

/// Why a call of the provider failed.
#[derive(Debug, Clone, PartialEq, Eq)]
pub enum NoaaWeatherError {
    /// The URL given as the provider's base cannot be a base.
    NotABaseUrl(String),
    /// The request failed.
    HttpRequest(String),
    /// The request failed on its way out.
    HttpMiddleware(String),
    /// The answer is no GeoJson.
    GeoJson(String),
    /// The answer could not be read.
    Weather(WeatherError),
}

} // verus!
