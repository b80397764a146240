use weather::aggregation::{PropertyAggregations, PropertyDetail, QuantitativeAggregation};
use weather::errors::WeatherError;
use weather::happy::{HappyPathLocationServices, HappyPathWeatherServices};
use weather::health::{check_health, health_probes, HealthReport, HealthStatus, HealthStatusReport};
use weather::http::{
    ApiErrorKind, ErrorReport, HttpError, OptionalResult, TransportFailure, UpdateProcessId,
};
use weather::keyed::{TextMap, TextSet};
use weather::settings::{HttpApiSettings, RateLimitSettings, RunParameters, Settings};
use weather::weather::{
    AlertCategory, AlertCertainty, AlertMessageType, AlertResponse, AlertSeverity, AlertStatus,
    AlertUrgency, DescriptiveProperty, QualityControl, QuantitativeProperty, Timestamp,
};
use weather::zone_code::LocationZoneCode;

fn ms_detail(value: f32, quality_control: QualityControl) -> PropertyDetail<f32> {
    PropertyDetail { value, unit_code: "wmoUnit:degC".to_string(), quality_control }
}

#[test]
fn quality_levels_are_as_documented() {
    let graded = [
        (QualityControl::V, 9),
        (QualityControl::G, 8),
        (QualityControl::S, 7),
        (QualityControl::C, 6),
        (QualityControl::Z, 5),
        (QualityControl::Q, 4),
        (QualityControl::T, 3),
        (QualityControl::B, 2),
        (QualityControl::X, 1),
    ];
    for (grade, level) in graded {
        assert_eq!(grade.level(), level);
    }
    assert_eq!(QuantitativeProperty::Temperature.as_str(), "temperature");
    assert_eq!(DescriptiveProperty::Timestamp, DescriptiveProperty::Timestamp);
}

#[test]
fn higher_quality_resets_the_aggregation() {
    let mut aggregation = QuantitativeAggregation::new(ms_detail(10.0, QualityControl::C));
    aggregation.add_detail(ms_detail(12.0, QualityControl::C));
    assert_eq!(aggregation.values(), &vec![10.0, 12.0]);
    aggregation.add_detail(ms_detail(20.0, QualityControl::V));
    assert_eq!(aggregation.values(), &vec![20.0]);
    assert_eq!(aggregation.quality_control(), QualityControl::V);
    assert_eq!(aggregation.count(), 1);
}

#[test]
fn lower_quality_is_ignored() {
    let mut aggregation = QuantitativeAggregation::new(ms_detail(10.0, QualityControl::S));
    aggregation.add_detail(ms_detail(99.0, QualityControl::X));
    assert_eq!(aggregation.values(), &vec![10.0]);
    assert_eq!(aggregation.quality_control(), QualityControl::S);
}

#[test]
fn equal_quality_combines() {
    let mut aggregation = QuantitativeAggregation::new(ms_detail(10.0, QualityControl::G));
    aggregation.add_detail(PropertyDetail {
        value: 14.0,
        unit_code: "wmoUnit:degF".to_string(),
        quality_control: QualityControl::G,
    });
    aggregation.add_detail(ms_detail(6.0, QualityControl::G));
    assert_eq!(aggregation.values(), &vec![10.0, 14.0, 6.0]);
    assert_eq!(aggregation.count(), 3);
    assert_eq!(aggregation.divisor(), Some(3));
    assert_eq!(aggregation.unit_code(), "wmoUnit:degC");
    let sum: f32 = aggregation.values().iter().sum();
    assert_eq!(sum / f32::from(aggregation.divisor().unwrap()), 10.0);
}

#[test]
fn readings_fold_into_the_property_aggregation() {
    let at = Timestamp { seconds: 7, nanos: 0 };
    let start: PropertyAggregations<f32> = PropertyAggregations::new(at);
    assert!(start.property(&QuantitativeProperty::Temperature).is_none());
    let folded = start
        .fold_reading(QuantitativeProperty::Temperature, Ok(ms_detail(1.0, QualityControl::Z)))
        .fold_reading(QuantitativeProperty::Temperature, Err(WeatherError::Json("bad".to_string())))
        .fold_reading(QuantitativeProperty::Temperature, Ok(ms_detail(2.0, QualityControl::Z)))
        .fold_reading(QuantitativeProperty::Temperature, Ok(ms_detail(3.0, QualityControl::Q)));
    assert_eq!(folded.timestamp, at);
    let temperature = folded.property(&QuantitativeProperty::Temperature).unwrap();
    assert_eq!(temperature.values(), &vec![1.0, 2.0]);
    assert_eq!(temperature.quality_control(), QualityControl::Z);
}

#[test]
fn timestamps_shift_by_seconds() {
    let at = Timestamp { seconds: 100, nanos: 9 };
    assert_eq!(at.checked_add_seconds(-3600), Some(Timestamp { seconds: -3500, nanos: 9 }));
    assert_eq!(at.checked_add_seconds(i64::MAX), None);
    assert_eq!(Timestamp { seconds: i64::MIN, nanos: 0 }.checked_add_seconds(-1), None);
}

#[test]
fn health_is_up_only_when_every_store_answers() {
    let all_up = vec![("model".to_string(), true), ("weather_view".to_string(), true)];
    assert_eq!(
        check_health(&all_up),
        (
            HealthStatus::Up,
            HealthReport { up: vec!["model".to_string(), "weather_view".to_string()], error: vec![] }
        )
    );
    let one_down = vec![
        ("model".to_string(), true),
        ("weather_view".to_string(), false),
        ("monitored_zones_view".to_string(), true),
    ];
    assert_eq!(
        check_health(&one_down),
        (
            HealthStatus::Down,
            HealthReport {
                up: vec!["model".to_string(), "monitored_zones_view".to_string()],
                error: vec!["weather_view".to_string()],
            }
        )
    );
    assert_eq!(check_health(&vec![]).0, HealthStatus::Up);
}

#[test]
fn health_maps_to_http_statuses() {
    assert_eq!(HealthStatus::Up.status_code(), 200);
    assert_eq!(HealthStatus::Error.status_code(), 500);
    assert_eq!(HealthStatus::Down.status_code(), 503);
    assert_eq!(HealthStatus::NotReady.status_code(), 503);
    assert_eq!(HealthStatusReport::new(HealthStatus::Down), HealthStatusReport { status: HealthStatus::Down });
}

#[test]
fn health_probes_select_from_the_three_stores() {
    let probes = health_probes();
    let asked: Vec<(&str, &str)> =
        probes.iter().map(|p| (p.service.as_str(), p.statement.as_str())).collect();
    assert_eq!(
        asked,
        vec![
            ("model", "SELECT event_version FROM events"),
            ("weather_view", "SELECT version FROM weather_query"),
            ("monitored_zones_view", "SELECT version FROM monitored_zones_query"),
        ]
    );
}

#[test]
fn errors_map_to_http_statuses() {
    let rejected = HttpError::from_error(ApiErrorKind::RejectedCommand, "no".to_string());
    assert_eq!(rejected, HttpError::BadRequest { error: ErrorReport::new("no".to_string()) });
    assert_eq!(rejected.status_code(), 400);
    let path = HttpError::from_error(ApiErrorKind::Path, "bad path".to_string());
    assert_eq!(path.status_code(), 400);
    let missing = HttpError::from_error(ApiErrorKind::NotFound, "gone".to_string());
    assert_eq!(missing, HttpError::NotFound { message: "gone".to_string() });
    assert_eq!(missing.status_code(), 404);
    for kind in [
        ApiErrorKind::AggregateConflict,
        ApiErrorKind::Persistence,
        ApiErrorKind::Provider,
        ApiErrorKind::ParseUrl,
        ApiErrorKind::IO,
        ApiErrorKind::Json,
        ApiErrorKind::HttpEngine,
        ApiErrorKind::Join,
        ApiErrorKind::Other,
    ] {
        let internal = HttpError::from_error(kind, "boom".to_string());
        assert_eq!(
            internal,
            HttpError::Internal {
                error: ErrorReport { error: "boom".to_string(), error_code: None, backtrace: None }
            }
        );
        assert_eq!(internal.status_code(), 500);
    }
    assert_eq!(OptionalResult(Some(1u8)).status_code(), 200);
    assert_eq!(OptionalResult::<u8>(None).status_code(), 404);
    assert_eq!(TransportFailure::Timeout.status_code(), 408);
    assert_eq!(TransportFailure::Other.status_code(), 500);
    assert_eq!(UpdateProcessId::new("abc".to_string()).as_str(), "abc");
}

#[test]
fn run_parameters_take_the_api_settings() {
    let settings = Settings {
        api: HttpApiSettings {
            host: "0.0.0.0".to_string(),
            port: 8000,
            timeout_millis: 3000,
            rate_limit: RateLimitSettings { burst_size: 8, per_duration_millis: 250 },
        },
    };
    assert_eq!(RunParameters::from_settings(&settings), RunParameters { http_api: settings.api.clone() });
    assert!(settings.api.rate_limit.is_usable());
    assert!(!RateLimitSettings { burst_size: 0, per_duration_millis: 250 }.is_usable());
    assert!(!RateLimitSettings { burst_size: 8, per_duration_millis: 0 }.is_usable());
}

#[test]
fn happy_path_forecast_is_mostly_cloudy() {
    let now = Timestamp { seconds: 1_700_000_000, nanos: 0 };
    let forecast = HappyPathWeatherServices.zone_forecast(&LocationZoneCode::new("WAZ558".to_string()), now);
    assert_eq!(forecast.zone_code, "WAZ558");
    assert_eq!(forecast.updated, now);
    assert_eq!(forecast.periods.len(), 1);
    assert_eq!(forecast.periods[0].name, "Rest of Day");
    assert_eq!(forecast.periods[0].forecast, "Mostly cloudy. Highs in the lower to mid 70s. Light wind.");
    assert_eq!(HappyPathLocationServices, HappyPathLocationServices);
}

#[test]
fn happy_path_alert_is_a_high_wind_watch() {
    let now = Timestamp { seconds: 1_700_000_000, nanos: 3 };
    let alert = HappyPathWeatherServices::high_wind_watch(
        now,
        "Windy.".to_string(),
        Some("Stay in.".to_string()),
    );
    assert_eq!(alert.affected_zones, vec![LocationZoneCode::new("MDC031".to_string())]);
    assert_eq!(alert.status, AlertStatus::Actual);
    assert_eq!(alert.message_type, AlertMessageType::Alert);
    assert_eq!(alert.sent, Timestamp { seconds: 1_700_000_000 - 3600, nanos: 3 });
    assert_eq!(alert.effective, Timestamp { seconds: 1_700_000_000 - 3300, nanos: 3 });
    assert_eq!(alert.onset, Some(Timestamp { seconds: 1_700_000_000 - 1800, nanos: 3 }));
    assert_eq!(alert.expires, Timestamp { seconds: 1_700_000_000 + 3300, nanos: 3 });
    assert_eq!(alert.ends, Some(Timestamp { seconds: 1_700_000_000 + 3600, nanos: 3 }));
    assert_eq!(alert.category, AlertCategory::Met);
    assert_eq!(alert.severity, AlertSeverity::Severe);
    assert_eq!(alert.certainty, AlertCertainty::Possible);
    assert_eq!(alert.urgency, AlertUrgency::Immediate);
    assert_eq!(alert.response, AlertResponse::Prepare);
    assert_eq!(alert.event, "High Wind Watch");
    assert_eq!(alert.headline, "High Wind Watch issued");
    assert_eq!(alert.description, "Windy.");
    assert_eq!(alert.instruction, Some("Stay in.".to_string()));
}

#[test]
fn happy_path_lists_the_watch_with_its_texts_trimmed() {
    let now = Timestamp { seconds: 1_700_000_000, nanos: 3 };
    let alerts = HappyPathWeatherServices.active_alerts(now);
    assert_eq!(alerts.len(), 1);
    let mut expected = HappyPathWeatherServices::high_wind_watch(
        now,
        [
            "* WHAT...South winds 30 to 40 mph with gusts up to 50 mph possible.",
            "* WHERE...Portions of southeast Louisiana and southeast and southern Mississippi.",
            "* WHEN...From Tuesday afternoon through late Tuesday night.",
            "* IMPACTS...Damaging winds could blow down trees and power lines.",
            "Widespread power outages are possible.",
            "Travel could be difficult, especially for high profile vehicles.",
            "",
        ]
        .join("\n"),
        None,
    );
    expected.instruction = Some(
        [
            "Monitor the latest forecasts and warnings for updates on this",
            "situation. Fasten loose objects or shelter objects in a safe location prior",
            "to the onset of winds.",
        ]
        .join("\n"),
    );
    assert_eq!(alerts[0], expected);
}

#[test]
fn text_map_keeps_keys_once_and_in_order() {
    let mut map: TextMap<u8> = TextMap::new();
    assert!(map.is_empty());
    map.insert("b".to_string(), 1);
    map.insert("a".to_string(), 2);
    map.insert("b".to_string(), 3);
    assert_eq!(map.len(), 2);
    assert_eq!((map.key_at(0).as_str(), *map.value_at(0)), ("b", 3));
    assert_eq!((map.key_at(1).as_str(), *map.value_at(1)), ("a", 2));
    assert_eq!(map.get(&"a".to_string()), Some(&2));
    assert_eq!(map.get(&"z".to_string()), None);
    assert_eq!(map.position(&"a".to_string()), Some(1));
    assert!(map.contains_key(&"b".to_string()));
    assert!(map.remove(&"b".to_string()));
    assert!(!map.remove(&"b".to_string()));
    assert_eq!(map.len(), 1);
    assert_eq!(map.key_at(0), "a");
    map.clear();
    assert!(map.is_empty());
}

#[test]
fn text_set_keeps_members_once_and_in_order() {
    let mut set = TextSet::new();
    assert!(set.is_empty());
    assert!(set.insert("x".to_string()));
    assert!(set.insert("y".to_string()));
    assert!(!set.insert("x".to_string()));
    assert_eq!(set.len(), 2);
    assert_eq!(set.element_at(0), "x");
    assert_eq!(set.element_at(1), "y");
    assert!(set.contains(&"y".to_string()));
    assert!(set.remove(&"x".to_string()));
    assert!(!set.remove(&"x".to_string()));
    assert_eq!(set.element_at(0), "y");
    set.clear();
    assert_eq!(set, TextSet::new());
}
