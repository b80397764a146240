//! Stand-ins for the weather provider that answer at once and always the
//! same, for trying the service out without the provider.

use crate::weather::{
    AlertCategory, AlertCertainty, AlertMessageType, AlertResponse, AlertSeverity, AlertStatus,
    AlertUrgency, ForecastDetail, Timestamp, WeatherAlert, ZoneForecast,
};
use crate::zone_code::LocationZoneCode;
use vstd::prelude::*;
use vstd::string::StringExecFns;

verus! {

/// The zone that the stand-in's alert affects.
pub const ALERTED_ZONE: &'static str = "MDC031";

/// The description of the stand-in's alert, each line behind its margin.
pub const ALERT_DESCRIPTION: &'static str =
    "|* WHAT...South winds 30 to 40 mph with gusts up to 50 mph possible.
                    |* WHERE...Portions of southeast Louisiana and southeast and southern Mississippi.
                    |* WHEN...From Tuesday afternoon through late Tuesday night.
                    |* IMPACTS...Damaging winds could blow down trees and power lines.
                    |Widespread power outages are possible.
                    |Travel could be difficult, especially for high profile vehicles.
                    |";

/// The instruction of the stand-in's alert, each line behind its margin.
pub const ALERT_INSTRUCTION: &'static str =
    "|Monitor the latest forecasts and warnings for updates on this
                    |situation. Fasten loose objects or shelter objects in a safe location prior
                    |to the onset of winds.";

/// The text that the `trim_margin` crate's `MarginTrimmable::trim_margin`
/// makes of `text`, or `None` where it finds a line without the margin.
pub uninterp spec fn margin_trimmed(text: Seq<char>) -> Option<Seq<char>>;

/// Calls `trim_margin::MarginTrimmable::trim_margin` on `text`. The result is
/// what `margin_trimmed` names: nothing more is claimed of it.
#[verifier::external_body]
fn trim_margin(text: &str) -> (res: Option<String>)
    ensures
        match res {
            Some(trimmed) => margin_trimmed(text@) == Some(trimmed@),
            None => margin_trimmed(text@) is None,
        },
{
    trim_margin::MarginTrimmable::trim_margin(&text)
}

/// Stand-in for the services of a zone.
#[derive(Debug, Clone, Copy, PartialEq, Eq)]
pub struct HappyPathLocationServices;

/// Stand-in for the weather provider.
#[derive(Debug, Clone, Copy, PartialEq, Eq)]
pub struct HappyPathWeatherServices;

/// True when a second `seconds` can be moved by an hour either way.
pub open spec fn hour_around(seconds: i64) -> bool {
    i64::MIN + 3600 <= seconds <= i64::MAX - 3600
}

fn shifted(now: Timestamp, seconds: i64) -> (res: Timestamp)
    requires
        hour_around(now.seconds),
        -3600 <= seconds <= 3600,
    ensures
        res == (Timestamp { seconds: (now.seconds + seconds) as i64, nanos: now.nanos }),
{
    Timestamp { seconds: now.seconds + seconds, nanos: now.nanos }
}

/// True when `alert` is the stand-in's alert as of `now`, whatever its
/// description and its instruction: a high wind watch for `ALERTED_ZONE`,
/// sent an hour ago, in effect for 55 minutes past and to come, for winds
/// from half an hour ago until an hour from now.
pub open spec fn is_high_wind_watch(alert: WeatherAlert, now: Timestamp) -> bool {
    &&& alert.affected_zones.len() == 1
    &&& alert.affected_zones[0]@ == ALERTED_ZONE@
    &&& alert.status == AlertStatus::Actual
    &&& alert.message_type == AlertMessageType::Alert
    &&& alert.sent == (Timestamp { seconds: (now.seconds - 3600) as i64, nanos: now.nanos })
    &&& alert.effective == (Timestamp { seconds: (now.seconds - 3300) as i64, nanos: now.nanos })
    &&& alert.onset == Some(Timestamp { seconds: (now.seconds - 1800) as i64, nanos: now.nanos })
    &&& alert.expires == (Timestamp { seconds: (now.seconds + 3300) as i64, nanos: now.nanos })
    &&& alert.ends == Some(Timestamp { seconds: (now.seconds + 3600) as i64, nanos: now.nanos })
    &&& alert.category == AlertCategory::Met
    &&& alert.severity == AlertSeverity::Severe
    &&& alert.certainty == AlertCertainty::Possible
    &&& alert.urgency == AlertUrgency::Immediate
    &&& alert.event@ == "High Wind Watch"@
    &&& alert.headline@ == "High Wind Watch issued"@
    &&& alert.response == AlertResponse::Prepare
}

impl HappyPathWeatherServices {
    /// The forecast for `zone` as of `now`: mostly cloudy for the rest of the
    /// day.
    pub fn zone_forecast(&self, zone: &LocationZoneCode, now: Timestamp) -> (res: ZoneForecast)
        ensures
            res.zone_code@ == zone@,
            res.updated == now,
            res.periods.len() == 1,
            res.periods[0].name@ == "Rest of Day"@,
            res.periods[0].forecast@
                == "Mostly cloudy. Highs in the lower to mid 70s. Light wind."@,
    {
        ZoneForecast {
            zone_code: zone.to_text(),
            updated: now,
            periods: vec![
                ForecastDetail {
                    name: String::from_str("Rest of Day"),
                    forecast: String::from_str(
                        "Mostly cloudy. Highs in the lower to mid 70s. Light wind.",
                    ),
                },
            ],
        }
    }

    /// The stand-in's alert as of `now`, with the `description` and the
    /// `instruction` given.
    pub fn high_wind_watch(now: Timestamp, description: String, instruction: Option<String>) -> (res:
        WeatherAlert)
        requires
            hour_around(now.seconds),
        ensures
            is_high_wind_watch(res, now),
            res.description == description,
            res.instruction == instruction,
    {
        WeatherAlert {
            affected_zones: vec![LocationZoneCode::new(String::from_str(ALERTED_ZONE))],
            status: AlertStatus::Actual,
            message_type: AlertMessageType::Alert,
            sent: shifted(now, -3600),
            effective: shifted(now, -3300),
            onset: Some(shifted(now, -1800)),
            expires: shifted(now, 3300),
            ends: Some(shifted(now, 3600)),
            category: AlertCategory::Met,
            severity: AlertSeverity::Severe,
            certainty: AlertCertainty::Possible,
            urgency: AlertUrgency::Immediate,
            event: String::from_str("High Wind Watch"),
            headline: String::from_str("High Wind Watch issued"),
            description,
            instruction,
            response: AlertResponse::Prepare,
        }
    }

    /// The alerts that are active as of `now`: the one high wind watch, with
    /// its description and its instruction trimmed of their margins; none
    /// where the description's margin cannot be trimmed.
    pub fn active_alerts(&self, now: Timestamp) -> (res: Vec<WeatherAlert>)
        requires
            hour_around(now.seconds),
        ensures
            match margin_trimmed(ALERT_DESCRIPTION@) {
                Some(description) => {
                    &&& res.len() == 1
                    &&& is_high_wind_watch(res[0], now)
                    &&& res[0].description@ == description
                    &&& match res[0].instruction {
                        Some(instruction) => margin_trimmed(ALERT_INSTRUCTION@) == Some(
                            instruction@,
                        ),
                        None => margin_trimmed(ALERT_INSTRUCTION@) is None,
                    }
                },
                None => res.len() == 0,
            },
    {
        match trim_margin(ALERT_DESCRIPTION) {
            Some(description) => vec![
                Self::high_wind_watch(now, description, trim_margin(ALERT_INSTRUCTION)),
            ],
            None => Vec::new(),
        }
    }
}

} // verus!
