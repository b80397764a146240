//! What the weather provider reports: forecasts, alerts, and the quality
//! grades of its measurements.

pub use crate::quality::QualityControl;
use crate::zone_code::LocationZoneCode;
use vstd::prelude::*;

verus! {

/// An instant in UTC: whole seconds since the Unix epoch and the nanoseconds
/// into that second.
#[derive(Debug, Clone, Copy, PartialEq, Eq, Hash, Structural)]
pub struct Timestamp {
    pub seconds: i64,
    pub nanos: u32,
}

impl Timestamp {
    /// The instant `seconds` later, or earlier where `seconds` is negative;
    /// `None` where that is beyond what the seconds can count.
    pub fn checked_add_seconds(self, seconds: i64) -> (res: Option<Timestamp>)
        ensures
            res == if i64::MIN <= self.seconds + seconds <= i64::MAX {
                Some(Timestamp { seconds: (self.seconds + seconds) as i64, nanos: self.nanos })
            } else {
                None
            },
    {
        match self.seconds.checked_add(seconds) {
            Some(sum) => Some(Timestamp { seconds: sum, nanos: self.nanos }),
            None => None,
        }
    }
}

/// The measurements that an observation may hold.
#[derive(Debug, Clone, Copy, PartialEq, Eq, Hash, Structural)]
pub enum QuantitativeProperty {
    Temperature,
}

impl QuantitativeProperty {
    /// The name of the property in the provider's reports.
    pub fn as_str(&self) -> (res: &'static str)
        ensures
            res@ == "temperature"@,
    {
        match self {
            QuantitativeProperty::Temperature => "temperature",
        }
    }
}

/// The descriptions that an observation may hold.
#[derive(Debug, Clone, Copy, PartialEq, Eq, Hash, Structural)]
pub enum DescriptiveProperty {
    Timestamp,
}

/// One period of a forecast.
#[derive(Debug, Clone, PartialEq, Eq)]
pub struct ForecastDetail {
    pub name: String,
    pub forecast: String,
}

/// The forecast for a zone.
#[derive(Debug, Clone, PartialEq, Eq)]
pub struct ZoneForecast {
    pub zone_code: String,
    pub updated: Timestamp,
    pub periods: Vec<ForecastDetail>,
}

/// How an alert is meant: for real, for practice, or for a test.
#[derive(Debug, Clone, Copy, PartialEq, Eq, Hash, Structural)]
pub enum AlertStatus {
    Actual,
    Exercise,
    System,
    Test,
    Draft,
}

/// What an alert message does: raise an alert, update one or cancel one.
#[derive(Debug, Clone, Copy, PartialEq, Eq, Hash, Structural)]
pub enum AlertMessageType {
    Alert,
    Update,
    Cancel,
}

/// The category of the event that an alert is about.
#[derive(Debug, Clone, Copy, PartialEq, Eq, Hash, Structural)]
pub enum AlertCategory {
    Met,
    Geo,
    Safety,
    Security,
    Rescue,
    Fire,
    Health,
    Env,
    Transport,
    Infra,
    CBRNE,
    Other,
}

/// How severe the event is.
#[derive(Debug, Clone, Copy, PartialEq, Eq, Hash, Structural)]
pub enum AlertSeverity {
    Extreme,
    Severe,
    Moderate,
    Minor,
    Unknown,
}

/// How certain the event is.
#[derive(Debug, Clone, Copy, PartialEq, Eq, Hash, Structural)]
pub enum AlertCertainty {
    Observed,
    Likely,
    Possible,
    Unlikely,
    Unknown,
}

/// How soon the event asks for action.
#[derive(Debug, Clone, Copy, PartialEq, Eq, Hash, Structural)]
pub enum AlertUrgency {
    Immediate,
    Expected,
    Future,
    Past,
    Unknown,
}

/// The action that an alert recommends.
#[derive(Debug, Clone, Copy, PartialEq, Eq, Hash, Structural)]
pub enum AlertResponse {
    Shelter,
    Evacuate,
    Prepare,
    Execute,
    Avoid,
    Monitor,
    Assess,
    AllClear,
    /// No action is recommended.
    NoAction,
}

/// A public alert. Of its fields only the zones that it affects bear on what
/// the aggregates do.
#[derive(Debug, PartialEq, Eq)]
pub struct WeatherAlert {
    pub affected_zones: Vec<LocationZoneCode>,
    pub status: AlertStatus,
    pub message_type: AlertMessageType,
    /// When the alert was sent.
    pub sent: Timestamp,
    /// From when the alert's information holds.
    pub effective: Timestamp,
    /// When the event that the alert is about is expected to begin.
    pub onset: Option<Timestamp>,
    /// Until when the alert's information holds.
    pub expires: Timestamp,
    /// When the event that the alert is about is expected to end.
    pub ends: Option<Timestamp>,
    pub category: AlertCategory,
    pub severity: AlertSeverity,
    pub certainty: AlertCertainty,
    pub urgency: AlertUrgency,
    pub event: String,
    pub headline: String,
    pub description: String,
    pub instruction: Option<String>,
    pub response: AlertResponse,
}

/// True when `a` and `b` say the same: the same zones by their texts, and
/// every other field equal.
pub open spec fn same_alert(a: WeatherAlert, b: WeatherAlert) -> bool {
    &&& crate::zone_code::code_texts(a.affected_zones@) == crate::zone_code::code_texts(
        b.affected_zones@,
    )
    &&& a.status == b.status
    &&& a.message_type == b.message_type
    &&& a.sent == b.sent
    &&& a.effective == b.effective
    &&& a.onset == b.onset
    &&& a.expires == b.expires
    &&& a.ends == b.ends
    &&& a.category == b.category
    &&& a.severity == b.severity
    &&& a.certainty == b.certainty
    &&& a.urgency == b.urgency
    &&& a.event == b.event
    &&& a.headline == b.headline
    &&& a.description == b.description
    &&& a.instruction == b.instruction
    &&& a.response == b.response
}

impl Clone for WeatherAlert {
    fn clone(&self) -> (res: Self)
        ensures
            same_alert(*self, res),
    {
        let affected_zones = self.affected_zones.clone();
        WeatherAlert {
            affected_zones,
            status: self.status,
            message_type: self.message_type,
            sent: self.sent,
            effective: self.effective,
            onset: self.onset,
            expires: self.expires,
            ends: self.ends,
            category: self.category,
            severity: self.severity,
            certainty: self.certainty,
            urgency: self.urgency,
            event: self.event.clone(),
            headline: self.headline.clone(),
            description: self.description.clone(),
            instruction: match &self.instruction {
                Some(text) => Some(text.clone()),
                None => None,
            },
            response: self.response,
        }
    }
}

impl WeatherAlert {
    /// True when the alert affects `zone`.
    pub fn affects(&self, zone: &LocationZoneCode) -> (res: bool)
        ensures
            res == crate::zone_code::code_texts(self.affected_zones@).contains(zone@),
    {
        let found = crate::zone_code::find_code(&self.affected_zones, zone);
        found.is_some()
    }
}

} // verus!
