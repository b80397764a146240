//! The weather provider's side of things: where its reports are found, what
//! a URL says of a zone, and how a forecast is put together from what a
//! report holds.

use crate::errors::{NoaaWeatherError, WeatherError};
use crate::keyed::texts;
use crate::seq_facts::reversed;
use crate::weather::{ForecastDetail, Timestamp, ZoneForecast};
use crate::zone_code::{LocationZoneCode, LocationZoneType};
use vstd::prelude::*;
use vstd::string::StringExecFns;

verus! {

/// Shortest pause before a call of the provider is tried again.
pub const RETRY_MIN_MILLIS: u64 = 1000;

/// Longest pause before a call of the provider is tried again.
pub const RETRY_MAX_SECONDS: u64 = 300;

/// How often a call of the provider is tried again at most.
pub const MAX_RETRIES: u32 = 3;

/// How long an idle connection to the provider is kept.
pub const POOL_IDLE_TIMEOUT_SECONDS: u64 = 60;

/// How many idle connections to the provider are kept.
pub const POOL_MAX_IDLE_PER_HOST: usize = 5;

/// Gathers the values of `results`, or gives the first error among them.
pub fn transpose_result<T, E>(results: Vec<Result<T, E>>) -> (res: Result<Vec<T>, E>)
    ensures
        match res {
            Ok(values) => {
                &&& values.len() == results.len()
                &&& forall|i: int| 0 <= i < results.len() ==> results[i] == Ok::<T, E>(values[i])
            },
            Err(error) => exists|i: int|
                {
                    &&& 0 <= i < results.len()
                    &&& results[i] == Err::<T, E>(error)
                    &&& forall|j: int| 0 <= j < i ==> (#[trigger] results[j]) is Ok
                },
        },
{
    let mut acc: Vec<T> = Vec::new();
    let mut rest = reversed(results);
    while rest.len() > 0
        invariant
            rest.len() + acc.len() == results.len(),
            forall|k: int| 0 <= k < rest.len() ==> rest[k] == results[results.len() - 1 - k],
            forall|i: int| 0 <= i < acc.len() ==> results[i] == Ok::<T, E>(acc[i]),
        decreases rest.len(),
    {
        let ghost at = acc.len() as int;
        let value = rest.pop().unwrap();
        match value {
            Ok(v) => {
                acc.push(v);
            },
            Err(error) => {
                proof {
                    assert forall|j: int| 0 <= j < at implies (#[trigger] results[j]) is Ok by {}
                }
                return Err(error);
            },
        }
    }
    Ok(acc)
}

/// The forecast for a zone from what a report of the provider holds: the
/// zone's code, the periods as far as each could be read, and the time
/// `updated` at which the report was read.
///
/// A report without a zone or without periods is refused, the zone first; so
/// is one with a period that could not be read, with the first such period's
/// error.
pub fn zone_forecast_from_parts(
    zone: Option<String>,
    periods: Option<Vec<Result<ForecastDetail, WeatherError>>>,
    updated: Timestamp,
) -> (res: Result<ZoneForecast, WeatherError>)
    ensures
        match (zone, periods) {
            (None, _) => res matches Err(WeatherError::MissingFeature(name)) && name@ == "zone"@,
            (Some(_), None) => res matches Err(WeatherError::MissingFeature(name)) && name@
                == "periods"@,
            (Some(zone_code), Some(read)) => match res {
                Ok(forecast) => {
                    &&& forecast.zone_code == zone_code
                    &&& forecast.updated == updated
                    &&& forecast.periods.len() == read.len()
                    &&& forall|i: int|
                        0 <= i < read.len() ==> read[i] == Ok::<ForecastDetail, WeatherError>(
                            forecast.periods[i],
                        )
                },
                Err(error) => exists|i: int|
                    {
                        &&& 0 <= i < read.len()
                        &&& read[i] == Err::<ForecastDetail, WeatherError>(error)
                        &&& forall|j: int| 0 <= j < i ==> (#[trigger] read[j]) is Ok
                    },
            },
        },
{
    let zone_code = match zone {
        Some(code) => code,
        None => {
            return Err(WeatherError::MissingFeature(String::from_str("zone")));
        },
    };
    let read = match periods {
        Some(read) => read,
        None => {
            return Err(WeatherError::MissingFeature(String::from_str("periods")));
        },
    };
    match transpose_result(read) {
        Ok(periods) => Ok(ZoneForecast { zone_code, updated, periods }),
        Err(error) => Err(error),
    }
}

/// The path segments of the URL that `url` spells, as the `url` crate's
/// `Url::parse` and `Url::path_segments` give them; `None` where the text is
/// no URL or the URL cannot be a base.
pub uninterp spec fn url_path_segments(url: Seq<char>) -> Option<Seq<Seq<char>>>;

/// The URL that `base` spells with `segments` appended to its path, as the
/// `url` crate's `Url::parse` and `PathSegmentsMut::extend` give it; `None`
/// where the text is no URL or the URL cannot be a base.
pub uninterp spec fn url_with_segments(base: Seq<char>, segments: Seq<Seq<char>>) -> Option<
    Seq<char>,
>;

/// Calls `url::Url::path_segments` on the URL that `url` spells; the text is
/// turned into a URL by `url::Url::parse`. The result is what
/// `url_path_segments` names: nothing more is claimed of it.
#[verifier::external_body]
fn path_segments(url: &str) -> (res: Option<Vec<String>>)
    ensures
        match res {
            Some(segments) => url_path_segments(url@) == Some(texts(segments@)),
            None => url_path_segments(url@) is None,
        },
{
    let parsed = url::Url::parse(url).ok()?;
    let segments = parsed.path_segments()?;
    Some(segments.map(String::from).collect())
}

/// Calls `url::PathSegmentsMut::extend` with `segments` on the URL that
/// `base` spells, and gives the URL's text back; the text is turned into a
/// URL by `url::Url::parse`. The result is what `url_with_segments` names:
/// nothing more is claimed of it.
#[verifier::external_body]
fn with_segments(base: &str, segments: &Vec<String>) -> (res: Option<String>)
    ensures
        match res {
            Some(url) => url_with_segments(base@, texts(segments@)) == Some(url@),
            None => url_with_segments(base@, texts(segments@)) is None,
        },
{
    let mut url = url::Url::parse(base).ok()?;
    url.path_segments_mut().ok()?.extend(segments.iter());
    Some(String::from(url))
}

/// What the path segments of a URL say of a zone: the last segment is the
/// zone's code, and the one before it names the zone's kind where it names
/// any. Fewer than two segments name no zone.
pub open spec fn zone_of_segments(segments: Option<Seq<Seq<char>>>) -> Option<
    (Option<LocationZoneType>, Seq<char>),
> {
    match segments {
        Some(segments) => if segments.len() < 2 {
            None
        } else {
            Some((LocationZoneType::named(segments[segments.len() - 2]), segments.last()))
        },
        None => None,
    }
}

/// Reads the zone that `segments`, the path segments of `url`, name; the URL
/// is the error where they name none.
pub fn zone_from_segments(url: &str, segments: Option<Vec<String>>) -> (res: Result<
    (Option<LocationZoneType>, LocationZoneCode),
    WeatherError,
>)
    ensures
        match res {
            Ok((zone_type, zone_code)) => zone_of_segments(segments_texts(segments)) == Some(
                (zone_type, zone_code@),
            ),
            Err(error) => {
                &&& zone_of_segments(segments_texts(segments)) is None
                &&& error matches WeatherError::UrlNotZoneIdentifier(text)
                &&& text@ == url@
            },
        },
{
    match segments {
        Some(segments) => {
            let nr_segments = segments.len();
            if nr_segments < 2 {
                Err(WeatherError::UrlNotZoneIdentifier(String::from_str(url)))
            } else {
                let zone_code = LocationZoneCode::new(segments[nr_segments - 1].clone());
                let zone_type = LocationZoneType::from_str(segments[nr_segments - 2].as_str());
                Ok((zone_type, zone_code))
            }
        },
        None => Err(WeatherError::UrlNotZoneIdentifier(String::from_str(url))),
    }
}

/// The texts of the segments, where there are any.
pub open spec fn segments_texts(segments: Option<Vec<String>>) -> Option<Seq<Seq<char>>> {
    match segments {
        Some(segments) => Some(texts(segments@)),
        None => None,
    }
}

impl LocationZoneCode {
    /// Reads a zone's kind and code from the URL under which the provider
    /// lists the zone: the code is the last segment of the URL's path, the
    /// kind the one before it. The URL is the error where its path is shorter
    /// or it is no URL with a path.
    pub fn from_url(url: &str) -> (res: Result<
        (Option<LocationZoneType>, LocationZoneCode),
        WeatherError,
    >)
        ensures
            match res {
                Ok((zone_type, zone_code)) => zone_of_segments(url_path_segments(url@)) == Some(
                    (zone_type, zone_code@),
                ),
                Err(error) => {
                    &&& zone_of_segments(url_path_segments(url@)) is None
                    &&& error matches WeatherError::UrlNotZoneIdentifier(text)
                    &&& text@ == url@
                },
            },
    {
        zone_from_segments(url, path_segments(url))
    }
}

/// The path under which the provider reports the observations of `zone`.
pub open spec fn observation_path(zone: Seq<char>) -> Seq<Seq<char>> {
    seq!["zones"@, "forecast"@, zone, "observations"@]
}

/// The path under which the provider reports the forecast for the zone of
/// kind `zone_type` and code `zone`.
pub open spec fn forecast_path(zone_type: LocationZoneType, zone: Seq<char>) -> Seq<Seq<char>> {
    seq!["zones"@, zone_type.name(), zone, "forecast"@]
}

/// The path under which the provider lists the active alerts.
pub open spec fn alerts_path() -> Seq<Seq<char>> {
    seq!["alerts"@, "active"@]
}

/// The segments of `observation_path`.
pub fn observation_segments(zone: &LocationZoneCode) -> (res: Vec<String>)
    ensures
        texts(res@) == observation_path(zone@),
{
    let segments = vec![
        String::from_str("zones"),
        String::from_str("forecast"),
        zone.to_text(),
        String::from_str("observations"),
    ];
    segments
}

/// The segments of `forecast_path`.
pub fn forecast_segments(zone_type: LocationZoneType, zone: &LocationZoneCode) -> (res: Vec<String>)
    ensures
        texts(res@) == forecast_path(zone_type, zone@),
{
    let segments = vec![
        String::from_str("zones"),
        String::from_str(zone_type.as_str()),
        zone.to_text(),
        String::from_str("forecast"),
    ];
    segments
}

/// The segments of `alerts_path`.
pub fn alerts_segments() -> (res: Vec<String>)
    ensures
        texts(res@) == alerts_path(),
{
    let segments = vec![String::from_str("alerts"), String::from_str("active")];
    segments
}

/// The URL of a report: `joined` where the base took the path, else the
/// refusal of `base` as no base.
pub fn endpoint(base: &str, joined: Option<String>) -> (res: Result<String, NoaaWeatherError>)
    ensures
        match joined {
            Some(url) => res == Ok::<String, NoaaWeatherError>(url),
            None => res matches Err(NoaaWeatherError::NotABaseUrl(text)) && text@ == base@,
        },
{
    match joined {
        Some(url) => Ok(url),
        None => Err(NoaaWeatherError::NotABaseUrl(String::from_str(base))),
    }
}

/// What `endpoint` gives for the path `segments` under `base`, by texts.
pub open spec fn endpoint_of(base: Seq<char>, segments: Seq<Seq<char>>) -> Result<
    Seq<char>,
    Seq<char>,
> {
    match url_with_segments(base, segments) {
        Some(url) => Ok(url),
        None => Err(base),
    }
}

/// True when `res` is the URL or the refusal that `owed` asks for.
pub open spec fn is_endpoint(
    res: Result<String, NoaaWeatherError>,
    owed: Result<Seq<char>, Seq<char>>,
) -> bool {
    match res {
        Ok(url) => owed == Ok::<Seq<char>, Seq<char>>(url@),
        Err(NoaaWeatherError::NotABaseUrl(text)) => owed == Err::<Seq<char>, Seq<char>>(text@),
        Err(_) => false,
    }
}

/// The weather provider as the service knows it: the base URL under which
/// its reports are found.
#[derive(Debug, Clone, PartialEq, Eq)]
pub struct NoaaWeatherApi {
    base_url: String,
}

impl NoaaWeatherApi {
    /// The text of the base URL.
    pub closed spec fn base(&self) -> Seq<char> {
        self.base_url@
    }

    /// The provider under `base_url`; a text that is no URL or a URL that
    /// cannot be a base is refused.
    pub fn new(base_url: String) -> (res: Result<Self, NoaaWeatherError>)
        ensures
            match res {
                Ok(api) => api.base() == base_url@ && url_with_segments(base_url@, seq![])
                    is Some,
                Err(error) => {
                    &&& url_with_segments(base_url@, seq![]) is None
                    &&& error matches NoaaWeatherError::NotABaseUrl(text)
                    &&& text@ == base_url@
                },
            },
    {
        let none: Vec<String> = Vec::new();
        proof {
            assert(texts(none@) =~= seq![]);
        }
        match with_segments(base_url.as_str(), &none) {
            Some(_) => Ok(NoaaWeatherApi { base_url }),
            None => Err(NoaaWeatherError::NotABaseUrl(base_url)),
        }
    }

    /// The base URL.
    pub fn base_url(&self) -> (res: &String)
        ensures
            res@ == self.base(),
    {
        &self.base_url
    }

    /// The URL of the observations of `zone`.
    pub fn observation_url(&self, zone: &LocationZoneCode) -> (res: Result<String, NoaaWeatherError>)
        ensures
            is_endpoint(res, endpoint_of(self.base(), observation_path(zone@))),
    {
        let segments = observation_segments(zone);
        endpoint(self.base_url.as_str(), with_segments(self.base_url.as_str(), &segments))
    }

    /// The URL of the forecast for the zone of kind `zone_type` and code
    /// `zone`.
    pub fn forecast_url(&self, zone_type: LocationZoneType, zone: &LocationZoneCode) -> (res: Result<
        String,
        NoaaWeatherError,
    >)
        ensures
            is_endpoint(res, endpoint_of(self.base(), forecast_path(zone_type, zone@))),
    {
        let segments = forecast_segments(zone_type, zone);
        endpoint(self.base_url.as_str(), with_segments(self.base_url.as_str(), &segments))
    }

    /// The URL of the list of active alerts.
    pub fn alerts_url(&self) -> (res: Result<String, NoaaWeatherError>)
        ensures
            is_endpoint(res, endpoint_of(self.base(), alerts_path())),
    {
        let segments = alerts_segments();
        endpoint(self.base_url.as_str(), with_segments(self.base_url.as_str(), &segments))
    }
}

} // verus!
