use weather::errors::{NoaaWeatherError, WeatherError};
use weather::provider::{
    alerts_segments, endpoint, forecast_segments, observation_segments, transpose_result,
    zone_forecast_from_parts, zone_from_segments, NoaaWeatherApi, MAX_RETRIES, RETRY_MAX_SECONDS,
    RETRY_MIN_MILLIS,
};
use weather::weather::{ForecastDetail, Timestamp, ZoneForecast};
use weather::zone_code::{find_code, Location, LocationZoneCode, LocationZoneType};

fn pv_zone(code: &str) -> LocationZoneCode {
    LocationZoneCode::new(code.to_string())
}

fn pv_detail(name: &str) -> ForecastDetail {
    ForecastDetail { name: name.to_string(), forecast: "Mild.".to_string() }
}

#[test]
fn zone_code_keeps_its_text() {
    let zone = pv_zone("WAZ558");
    assert_eq!(zone.as_str(), "WAZ558");
    assert_eq!(zone.text(), "WAZ558");
    assert_eq!(zone.to_text(), "WAZ558".to_string());
    assert!(zone.same_as(&pv_zone("WAZ558")));
    assert!(!zone.same_as(&pv_zone("MDC031")));
    assert_eq!(zone.clone(), zone);
    assert_ne!(Location::Chicago, Location::Seattle);
}

#[test]
fn find_code_gives_the_first_position() {
    let zones = vec![pv_zone("A"), pv_zone("B"), pv_zone("A")];
    assert_eq!(find_code(&zones, &pv_zone("A")), Some(0));
    assert_eq!(find_code(&zones, &pv_zone("B")), Some(1));
    assert_eq!(find_code(&zones, &pv_zone("C")), None);
}

#[test]
fn zone_type_names_round_trip() {
    for kind in [LocationZoneType::Public, LocationZoneType::County, LocationZoneType::Forecast] {
        assert_eq!(LocationZoneType::from_str(kind.as_str()), Some(kind));
    }
    assert_eq!(LocationZoneType::Public.as_str(), "Public");
    assert_eq!(LocationZoneType::County.as_str(), "County");
    assert_eq!(LocationZoneType::Forecast.as_str(), "Forecast");
    assert_eq!(LocationZoneType::from_str("forecast"), None);
    assert_eq!(LocationZoneType::from_str(""), None);
}

#[test]
fn transpose_gathers_values_or_gives_the_first_error() {
    let all: Vec<Result<u8, String>> = vec![Ok(1), Ok(2), Ok(3)];
    assert_eq!(transpose_result(all), Ok(vec![1, 2, 3]));
    let some: Vec<Result<u8, String>> = vec![Ok(1), Err("b".to_string()), Ok(3), Err("d".to_string())];
    assert_eq!(transpose_result(some), Err("b".to_string()));
    let none: Vec<Result<u8, String>> = vec![];
    assert_eq!(transpose_result(none), Ok(vec![]));
}

#[test]
fn forecast_needs_its_zone_and_its_periods() {
    let at = Timestamp { seconds: 1700000000, nanos: 5 };
    assert_eq!(
        zone_forecast_from_parts(None, None, at),
        Err(WeatherError::MissingFeature("zone".to_string()))
    );
    assert_eq!(
        zone_forecast_from_parts(None, Some(vec![Ok(pv_detail("Today"))]), at),
        Err(WeatherError::MissingFeature("zone".to_string()))
    );
    assert_eq!(
        zone_forecast_from_parts(Some("WAZ558".to_string()), None, at),
        Err(WeatherError::MissingFeature("periods".to_string()))
    );
    assert_eq!(
        zone_forecast_from_parts(
            Some("WAZ558".to_string()),
            Some(vec![
                Ok(pv_detail("Today")),
                Err(WeatherError::Json("no name".to_string())),
                Err(WeatherError::Json("no text".to_string())),
            ]),
            at
        ),
        Err(WeatherError::Json("no name".to_string()))
    );
    assert_eq!(
        zone_forecast_from_parts(
            Some("WAZ558".to_string()),
            Some(vec![Ok(pv_detail("Today")), Ok(pv_detail("Tonight"))]),
            at
        ),
        Ok(ZoneForecast {
            zone_code: "WAZ558".to_string(),
            updated: at,
            periods: vec![pv_detail("Today"), pv_detail("Tonight")],
        })
    );
}

#[test]
fn segments_name_a_zone_by_their_last_two() {
    let url = "https://api.weather.gov/zones/County/MDC031";
    assert_eq!(
        zone_from_segments(
            url,
            Some(vec!["zones".to_string(), "County".to_string(), "MDC031".to_string()])
        ),
        Ok((Some(LocationZoneType::County), pv_zone("MDC031")))
    );
    assert_eq!(
        zone_from_segments(url, Some(vec!["fire".to_string(), "WAZ558".to_string()])),
        Ok((None, pv_zone("WAZ558")))
    );
    assert_eq!(
        zone_from_segments(url, Some(vec!["WAZ558".to_string()])),
        Err(WeatherError::UrlNotZoneIdentifier(url.to_string()))
    );
    assert_eq!(
        zone_from_segments(url, None),
        Err(WeatherError::UrlNotZoneIdentifier(url.to_string()))
    );
}

#[test]
fn from_url_reads_the_path_of_a_real_url() {
    assert_eq!(
        LocationZoneCode::from_url("https://api.weather.gov/zones/Forecast/WAZ558"),
        Ok((Some(LocationZoneType::Forecast), pv_zone("WAZ558")))
    );
    assert_eq!(
        LocationZoneCode::from_url("https://api.weather.gov/zones/forecast/WAZ558?x=1#top"),
        Ok((None, pv_zone("WAZ558")))
    );
    assert_eq!(
        LocationZoneCode::from_url("https://api.weather.gov/WAZ558"),
        Err(WeatherError::UrlNotZoneIdentifier("https://api.weather.gov/WAZ558".to_string()))
    );
    assert_eq!(
        LocationZoneCode::from_url("data:text/plain,Public/WAZ558"),
        Err(WeatherError::UrlNotZoneIdentifier("data:text/plain,Public/WAZ558".to_string()))
    );
    assert_eq!(
        LocationZoneCode::from_url("not a url"),
        Err(WeatherError::UrlNotZoneIdentifier("not a url".to_string()))
    );
}

#[test]
fn report_paths_are_as_the_provider_lists_them() {
    assert_eq!(
        observation_segments(&pv_zone("WAZ558")),
        vec!["zones".to_string(), "forecast".to_string(), "WAZ558".to_string(), "observations".to_string()]
    );
    assert_eq!(
        forecast_segments(LocationZoneType::County, &pv_zone("MDC031")),
        vec!["zones".to_string(), "County".to_string(), "MDC031".to_string(), "forecast".to_string()]
    );
    assert_eq!(alerts_segments(), vec!["alerts".to_string(), "active".to_string()]);
}

#[test]
fn endpoints_extend_the_base_url() {
    let api = NoaaWeatherApi::new("https://api.weather.gov".to_string()).unwrap();
    assert_eq!(api.base_url(), "https://api.weather.gov");
    assert_eq!(
        api.observation_url(&pv_zone("WAZ558")),
        Ok("https://api.weather.gov/zones/forecast/WAZ558/observations".to_string())
    );
    assert_eq!(
        api.forecast_url(LocationZoneType::Public, &pv_zone("WAZ558")),
        Ok("https://api.weather.gov/zones/Public/WAZ558/forecast".to_string())
    );
    assert_eq!(api.alerts_url(), Ok("https://api.weather.gov/alerts/active".to_string()));
    let nested = NoaaWeatherApi::new("https://example.com/v1".to_string()).unwrap();
    assert_eq!(nested.alerts_url(), Ok("https://example.com/v1/alerts/active".to_string()));
}

#[test]
fn a_url_that_cannot_be_a_base_is_refused() {
    assert_eq!(
        NoaaWeatherApi::new("mailto:someone@example.com".to_string()),
        Err(NoaaWeatherError::NotABaseUrl("mailto:someone@example.com".to_string()))
    );
    assert_eq!(
        NoaaWeatherApi::new("no url at all".to_string()),
        Err(NoaaWeatherError::NotABaseUrl("no url at all".to_string()))
    );
    assert_eq!(
        endpoint("mailto:x", None),
        Err(NoaaWeatherError::NotABaseUrl("mailto:x".to_string()))
    );
    assert_eq!(endpoint("https://a", Some("https://a/b".to_string())), Ok("https://a/b".to_string()));
}

#[test]
fn retries_back_off_from_a_second_to_five_minutes() {
    assert_eq!(RETRY_MIN_MILLIS, 1000);
    assert_eq!(RETRY_MAX_SECONDS, 300);
    assert_eq!(MAX_RETRIES, 3);
}
