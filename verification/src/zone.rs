//! The aggregate of one forecast zone: the latest observation, the latest
//! forecast, and whether an alert is active.
//!
//! The aggregate stores observations as it gets them and never looks inside
//! one, so it is generic in the type `W` of an observation.

use crate::errors::NoaaWeatherError;
use crate::seq_facts::reversed;
use crate::weather::{ForecastDetail, Timestamp, WeatherAlert, ZoneForecast};
use crate::zone_code::{LocationZoneCode, LocationZoneType};
use vstd::prelude::*;
use vstd::string::StringExecFns;

verus! {

/// Tag under which the aggregate's events are stored.
pub const AGGREGATE_TYPE: &'static str = "location_zone";

/// Version of the events' stored form.
pub const EVENT_VERSION: &'static str = "1.0";

/// Name of the read model of a zone's weather.
pub const WEATHER_QUERY_VIEW: &'static str = "weather_query";

/// The text with which an aggregate that watches no zone rejects a command.
pub const NO_ZONE_YET: &'static str = "LocationZone cannot handle command until it targets a zone";

/// Start of the text with which an aggregate rejects a second zone; the code
/// of the zone that it watches follows.
pub const ALREADY_WATCHING: &'static str = "LocationZone already watching zone, ";

/// What follows the code of the zone watched; the kind and the code of the
/// zone that was asked for follow, with a slash between them.
pub const CANNOT_CHANGE: &'static str = ", cannot change to watch: ";

/// What a zone's aggregate is asked to do.
#[derive(Debug, Clone, PartialEq, Eq)]
pub enum LocationZoneCommand {
    /// Watch the zone of this kind and code.
    WatchZone(LocationZoneType, LocationZoneCode),
    /// Fetch the latest observation.
    Observe,
    /// Fetch the latest forecast.
    Forecast,
    /// Note the alert that affects the zone, or that none does.
    NoteAlert(Option<WeatherAlert>),
}

/// What has happened to a zone.
#[derive(Debug, Clone, PartialEq, Eq)]
pub enum LocationZoneEvent<W> {
    ZoneSet(LocationZoneType, LocationZoneCode),
    ObservationAdded(W),
    ForecastUpdated(ZoneForecast),
    AlertActivated(WeatherAlert),
    AlertDeactivated,
}

impl<W> LocationZoneEvent<W> {
    /// The stable name under which each kind of event is stored.
    pub open spec fn stored_name(&self) -> Seq<char> {
        match self {
            LocationZoneEvent::ZoneSet(_, _) => "zone_set"@,
            LocationZoneEvent::ObservationAdded(_) => "observation_added"@,
            LocationZoneEvent::ForecastUpdated(_) => "forecast_updated"@,
            LocationZoneEvent::AlertActivated(_) => "alert_activated"@,
            LocationZoneEvent::AlertDeactivated => "alert_deactivated"@,
        }
    }

    /// The event's stored name.
    pub fn event_type(&self) -> (res: String)
        ensures
            res@ == self.stored_name(),
    {
        match self {
            LocationZoneEvent::ZoneSet(_, _) => String::from_str("zone_set"),
            LocationZoneEvent::ObservationAdded(_) => String::from_str("observation_added"),
            LocationZoneEvent::ForecastUpdated(_) => String::from_str("forecast_updated"),
            LocationZoneEvent::AlertActivated(_) => String::from_str("alert_activated"),
            LocationZoneEvent::AlertDeactivated => String::from_str("alert_deactivated"),
        }
    }

    /// The version of the event's stored form.
    pub fn event_version(&self) -> (res: String)
        ensures
            res@ == EVENT_VERSION@,
    {
        String::from_str(EVENT_VERSION)
    }
}

/// Why a zone's aggregate did not take a command.
#[derive(Debug, Clone, PartialEq, Eq)]
pub enum LocationZoneError {
    /// The aggregate's state does not admit the command.
    RejectedCommand(String),
    /// The weather provider failed.
    Noaa(NoaaWeatherError),
}

/// The aggregate as a mathematical value. The zone's code stands by its text;
/// what was observed, forecast and alerted stands as it came.
pub ghost enum ZoneModel<W> {
    Quiescent,
    Active {
        zone_type: LocationZoneType,
        zone_id: Seq<char>,
        weather: Option<W>,
        forecast: Option<ZoneForecast>,
        active_alert: bool,
    },
}

/// The answer of a zone's aggregate to a command.
#[derive(Debug, Clone, PartialEq, Eq)]
pub enum LocationZoneDecision<W> {
    /// These events follow from the command.
    Events(Vec<LocationZoneEvent<W>>),
    /// The provider is to be asked for the latest observation of this zone;
    /// `observed` turns its answer into events.
    Observe(LocationZoneCode),
    /// The provider is to be asked for the forecast of the zone of this kind
    /// and code; `forecasted` turns its answer into events.
    Forecast(LocationZoneType, LocationZoneCode),
}

/// The answer that a command is owed, as a mathematical value.
pub ghost enum ZoneAnswer<W> {
    /// The command is rejected with this text.
    Rejected(Seq<char>),
    Events(Seq<LocationZoneEvent<W>>),
    Observe(Seq<char>),
    Forecast(LocationZoneType, Seq<char>),
}

/// The text with which an aggregate that watches `zone_id` rejects the
/// command to watch the zone of kind `asked_type` and code `asked`.
pub open spec fn second_zone_text(
    zone_id: Seq<char>,
    asked_type: LocationZoneType,
    asked: Seq<char>,
) -> Seq<char> {
    ALREADY_WATCHING@ + zone_id + CANNOT_CHANGE@ + asked_type.name() + "/"@ + asked
}

/// The answer that `command` is owed in the state `model`.
///
/// An aggregate that watches no zone takes only the command to watch one. An
/// aggregate that watches a zone rejects a second zone, hands an observation
/// or a forecast on to the provider, and notes an alert only where that
/// changes whether one is active.
pub open spec fn zone_handle<W>(model: ZoneModel<W>, command: LocationZoneCommand) -> ZoneAnswer<W> {
    match model {
        ZoneModel::Quiescent => match command {
            LocationZoneCommand::WatchZone(zone_type, zone_code) => ZoneAnswer::Events(
                seq![LocationZoneEvent::ZoneSet(zone_type, zone_code)],
            ),
            _ => ZoneAnswer::Rejected(NO_ZONE_YET@),
        },
        ZoneModel::Active { zone_type, zone_id, weather, forecast, active_alert } => match command {
            LocationZoneCommand::WatchZone(asked_type, asked) => ZoneAnswer::Rejected(
                second_zone_text(zone_id, asked_type, asked@),
            ),
            LocationZoneCommand::Observe => ZoneAnswer::Observe(zone_id),
            LocationZoneCommand::Forecast => ZoneAnswer::Forecast(zone_type, zone_id),
            LocationZoneCommand::NoteAlert(Some(alert)) => if active_alert {
                ZoneAnswer::Events(seq![])
            } else {
                ZoneAnswer::Events(seq![LocationZoneEvent::AlertActivated(alert)])
            },
            LocationZoneCommand::NoteAlert(None) => if active_alert {
                ZoneAnswer::Events(seq![LocationZoneEvent::AlertDeactivated])
            } else {
                ZoneAnswer::Events(seq![])
            },
        },
    }
}

/// The aggregate after `event`. `ZoneSet` starts an aggregate that watches no
/// zone; an observation or a forecast replaces the one before; an alert event
/// sets whether an alert is active and nothing else. An event that the state
/// does not expect leaves the aggregate as it is.
pub open spec fn zone_apply<W>(model: ZoneModel<W>, event: LocationZoneEvent<W>) -> ZoneModel<W> {
    match model {
        ZoneModel::Quiescent => match event {
            LocationZoneEvent::ZoneSet(zone_type, zone_code) => ZoneModel::Active {
                zone_type,
                zone_id: zone_code@,
                weather: None,
                forecast: None,
                active_alert: false,
            },
            _ => model,
        },
        ZoneModel::Active { zone_type, zone_id, weather, forecast, active_alert } => match event {
            LocationZoneEvent::ZoneSet(_, _) => model,
            LocationZoneEvent::ObservationAdded(frame) => ZoneModel::Active {
                zone_type,
                zone_id,
                weather: Some(frame),
                forecast,
                active_alert,
            },
            LocationZoneEvent::ForecastUpdated(update) => ZoneModel::Active {
                zone_type,
                zone_id,
                weather,
                forecast: Some(update),
                active_alert,
            },
            LocationZoneEvent::AlertActivated(_) => ZoneModel::Active {
                zone_type,
                zone_id,
                weather,
                forecast,
                active_alert: true,
            },
            LocationZoneEvent::AlertDeactivated => ZoneModel::Active {
                zone_type,
                zone_id,
                weather,
                forecast,
                active_alert: false,
            },
        },
    }
}

/// The aggregate after each of `events` in turn.
pub open spec fn zone_replay<W>(model: ZoneModel<W>, events: Seq<LocationZoneEvent<W>>) -> ZoneModel<
    W,
>
    decreases events.len(),
{
    if events.len() == 0 {
        model
    } else {
        zone_apply(zone_replay(model, events.drop_last()), events.last())
    }
}

/// What `handle` owes for `command` in the state `model`.
pub open spec fn zone_handled<W>(
    model: ZoneModel<W>,
    command: LocationZoneCommand,
    res: Result<LocationZoneDecision<W>, LocationZoneError>,
) -> bool {
    match res {
        Ok(LocationZoneDecision::Events(events)) => zone_handle(model, command)
            == ZoneAnswer::Events(events@),
        Ok(LocationZoneDecision::Observe(zone)) => zone_handle(model, command)
            == ZoneAnswer::<W>::Observe(zone@),
        Ok(LocationZoneDecision::Forecast(zone_type, zone)) => zone_handle(model, command)
            == ZoneAnswer::<W>::Forecast(zone_type, zone@),
        Err(LocationZoneError::RejectedCommand(text)) => zone_handle(model, command)
            == ZoneAnswer::<W>::Rejected(text@),
        Err(LocationZoneError::Noaa(_)) => false,
    }
}

/// The aggregate before it watches a zone.
#[derive(Debug, Default, Clone, Copy, PartialEq, Eq)]
pub struct QuiescentLocationZone;

impl QuiescentLocationZone {
    /// Takes the command to watch a zone and rejects every other.
    pub fn handle<W>(&self, command: LocationZoneCommand) -> (res: Result<
        LocationZoneDecision<W>,
        LocationZoneError,
    >)
        ensures
            zone_handled(ZoneModel::<W>::Quiescent, command, res),
    {
        match command {
            LocationZoneCommand::WatchZone(zone_type, zone_code) => {
                let events = vec![LocationZoneEvent::ZoneSet(zone_type, zone_code)];
                proof {
                    assert(events@ =~= seq![LocationZoneEvent::<W>::ZoneSet(zone_type, zone_code)]);
                }
                Ok(LocationZoneDecision::Events(events))
            },
            _ => Err(LocationZoneError::RejectedCommand(String::from_str(NO_ZONE_YET))),
        }
    }

    /// The state after `event`: watching after `ZoneSet`, else `None` for "as
    /// before".
    pub fn apply<W>(&self, event: LocationZoneEvent<W>) -> (res: Option<LocationZoneState<W>>)
        ensures
            match res {
                Some(state) => state@ == zone_apply(ZoneModel::Quiescent, event),
                None => zone_apply(ZoneModel::Quiescent, event) == ZoneModel::<W>::Quiescent,
            },
    {
        match event {
            LocationZoneEvent::ZoneSet(zone_type, zone_code) => Some(
                LocationZoneState::Active(
                    ActiveLocationZone {
                        zone_type,
                        zone_id: zone_code,
                        weather: None,
                        forecast: None,
                        active_alert: false,
                    },
                ),
            ),
            _ => None,
        }
    }
}

/// The aggregate while it watches a zone.
#[derive(Debug, Clone, PartialEq, Eq)]
pub struct ActiveLocationZone<W> {
    pub zone_type: LocationZoneType,
    pub zone_id: LocationZoneCode,
    pub weather: Option<W>,
    pub forecast: Option<ZoneForecast>,
    pub active_alert: bool,
}

impl<W> View for ActiveLocationZone<W> {
    type V = ZoneModel<W>;

    open spec fn view(&self) -> ZoneModel<W> {
        ZoneModel::Active {
            zone_type: self.zone_type,
            zone_id: self.zone_id@,
            weather: self.weather,
            forecast: self.forecast,
            active_alert: self.active_alert,
        }
    }
}

impl<W> ActiveLocationZone<W> {
    /// Answers a command while a zone is watched.
    pub fn handle(&self, command: LocationZoneCommand) -> (res: Result<
        LocationZoneDecision<W>,
        LocationZoneError,
    >)
        ensures
            zone_handled(self@, command, res),
    {
        match command {
            LocationZoneCommand::Observe => Ok(LocationZoneDecision::Observe(self.zone_id.clone())),
            LocationZoneCommand::Forecast => Ok(
                LocationZoneDecision::Forecast(self.zone_type, self.zone_id.clone()),
            ),
            LocationZoneCommand::NoteAlert(alert) => {
                let events = match alert {
                    Some(alert) => {
                        if self.active_alert {
                            Vec::new()
                        } else {
                            vec![LocationZoneEvent::AlertActivated(alert)]
                        }
                    },
                    None => {
                        if self.active_alert {
                            vec![LocationZoneEvent::AlertDeactivated]
                        } else {
                            Vec::new()
                        }
                    },
                };
                proof {
                    let owed = zone_handle(self@, command)->Events_0;
                    assert(events@ =~= owed);
                }
                Ok(LocationZoneDecision::Events(events))
            },
            LocationZoneCommand::WatchZone(new_zone_type, new_zone_code) => {
                let text = String::from_str(ALREADY_WATCHING).concat(self.zone_id.as_str()).concat(
                    CANNOT_CHANGE,
                ).concat(new_zone_type.as_str()).concat("/").concat(new_zone_code.as_str());
                Err(LocationZoneError::RejectedCommand(text))
            },
        }
    }

    /// The state after `event`.
    pub fn apply(self, event: LocationZoneEvent<W>) -> (res: LocationZoneState<W>)
        ensures
            res@ == zone_apply(self@, event),
    {
        match event {
            LocationZoneEvent::ObservationAdded(frame) => LocationZoneState::Active(
                ActiveLocationZone {
                    zone_type: self.zone_type,
                    zone_id: self.zone_id,
                    weather: Some(frame),
                    forecast: self.forecast,
                    active_alert: self.active_alert,
                },
            ),
            LocationZoneEvent::ForecastUpdated(forecast) => LocationZoneState::Active(
                ActiveLocationZone {
                    zone_type: self.zone_type,
                    zone_id: self.zone_id,
                    weather: self.weather,
                    forecast: Some(forecast),
                    active_alert: self.active_alert,
                },
            ),
            LocationZoneEvent::AlertActivated(_) => LocationZoneState::Active(
                ActiveLocationZone {
                    zone_type: self.zone_type,
                    zone_id: self.zone_id,
                    weather: self.weather,
                    forecast: self.forecast,
                    active_alert: true,
                },
            ),
            LocationZoneEvent::AlertDeactivated => LocationZoneState::Active(
                ActiveLocationZone {
                    zone_type: self.zone_type,
                    zone_id: self.zone_id,
                    weather: self.weather,
                    forecast: self.forecast,
                    active_alert: false,
                },
            ),
            LocationZoneEvent::ZoneSet(_, _) => LocationZoneState::Active(self),
        }
    }
}

/// The two states of a zone's aggregate.
#[derive(Debug, Clone, PartialEq, Eq)]
pub enum LocationZoneState<W> {
    Quiescent(QuiescentLocationZone),
    Active(ActiveLocationZone<W>),
}

impl<W> View for LocationZoneState<W> {
    type V = ZoneModel<W>;

    open spec fn view(&self) -> ZoneModel<W> {
        match self {
            LocationZoneState::Quiescent(_) => ZoneModel::Quiescent,
            LocationZoneState::Active(active) => active@,
        }
    }
}

impl<W> Default for LocationZoneState<W> {
    /// The state of an aggregate that watches no zone.
    fn default() -> (res: Self)
        ensures
            res@ == ZoneModel::<W>::Quiescent,
    {
        LocationZoneState::Quiescent(QuiescentLocationZone)
    }
}

impl<W> LocationZoneState<W> {
    /// Answers `command` as the state at hand does.
    pub fn handle(&self, command: LocationZoneCommand) -> (res: Result<
        LocationZoneDecision<W>,
        LocationZoneError,
    >)
        ensures
            zone_handled(self@, command, res),
    {
        match self {
            LocationZoneState::Quiescent(state) => state.handle(command),
            LocationZoneState::Active(state) => state.handle(command),
        }
    }

    /// The state after `event`.
    pub fn apply(self, event: LocationZoneEvent<W>) -> (res: Self)
        ensures
            res@ == zone_apply(self@, event),
    {
        match self {
            LocationZoneState::Quiescent(state) => match state.apply(event) {
                Some(next) => next,
                None => LocationZoneState::Quiescent(state),
            },
            LocationZoneState::Active(state) => state.apply(event),
        }
    }
}

/// The aggregate of one forecast zone.
#[derive(Debug, Clone, PartialEq, Eq)]
pub struct LocationZone<W> {
    state: LocationZoneState<W>,
}

impl<W> View for LocationZone<W> {
    type V = ZoneModel<W>;

    closed spec fn view(&self) -> ZoneModel<W> {
        self.state@
    }
}

impl<W> Default for LocationZone<W> {
    /// An aggregate that watches no zone.
    fn default() -> (res: Self)
        ensures
            res@ == ZoneModel::<W>::Quiescent,
    {
        LocationZone { state: LocationZoneState::default() }
    }
}

impl<W> LocationZone<W> {
    /// The aggregate in the state given, as a stored state is taken up again.
    pub fn from_state(state: LocationZoneState<W>) -> (res: Self)
        ensures
            res@ == state@,
    {
        LocationZone { state }
    }

    /// The tag under which the aggregate's events are stored.
    pub fn aggregate_type() -> (res: String)
        ensures
            res@ == AGGREGATE_TYPE@,
    {
        String::from_str(AGGREGATE_TYPE)
    }

    /// The aggregate's state.
    pub fn state(&self) -> (res: &LocationZoneState<W>)
        ensures
            res@ == self@,
    {
        &self.state
    }

    /// The aggregate's state, for storing it.
    pub fn into_state(self) -> (res: LocationZoneState<W>)
        ensures
            res@ == self@,
    {
        self.state
    }

    /// Answers `command` without changing the aggregate: with events, with the
    /// question to put to the provider, or with a rejection.
    pub fn handle(&self, command: LocationZoneCommand) -> (res: Result<
        LocationZoneDecision<W>,
        LocationZoneError,
    >)
        ensures
            zone_handled(self@, command, res),
    {
        self.state.handle(command)
    }

    /// Advances the aggregate by `event`.
    pub fn apply(&mut self, event: LocationZoneEvent<W>)
        ensures
            final(self)@ == zone_apply(old(self)@, event),
    {
        let mut state = LocationZoneState::default();
        core::mem::swap(&mut self.state, &mut state);
        self.state = state.apply(event);
    }

    /// The aggregate that `events` lead to from the start. The same events
    /// always lead to the same aggregate.
    pub fn replay(events: Vec<LocationZoneEvent<W>>) -> (res: Self)
        ensures
            res@ == zone_replay(ZoneModel::Quiescent, events@),
    {
        let mut zone = LocationZone::default();
        let mut rest = reversed(events);
        let ghost mut done: int = 0;
        while rest.len() > 0
            invariant
                0 <= done <= events.len(),
                rest.len() + done == events.len(),
                forall|k: int| 0 <= k < rest.len() ==> rest[k] == events[events.len() - 1 - k],
                zone@ == zone_replay(ZoneModel::Quiescent, events@.take(done)),
            decreases rest.len(),
        {
            let event = rest.pop().unwrap();
            proof {
                assert(events@.take(done + 1).drop_last() =~= events@.take(done));
                done = done + 1;
            }
            zone.apply(event);
        }
        proof {
            assert(events@.take(done) =~= events@);
        }
        zone
    }
}

/// The events that follow from the provider's answer to the question for an
/// observation: the observation where there is one, else the provider's
/// failure as the command's.
pub fn observed<W>(outcome: Result<W, NoaaWeatherError>) -> (res: Result<
    Vec<LocationZoneEvent<W>>,
    LocationZoneError,
>)
    ensures
        match outcome {
            Ok(frame) => res matches Ok(events) && events@ == seq![
                LocationZoneEvent::ObservationAdded(frame),
            ],
            Err(error) => res == Err::<Vec<LocationZoneEvent<W>>, LocationZoneError>(
                LocationZoneError::Noaa(error),
            ),
        },
{
    match outcome {
        Ok(frame) => {
            let events = vec![LocationZoneEvent::ObservationAdded(frame)];
            Ok(events)
        },
        Err(error) => Err(LocationZoneError::Noaa(error)),
    }
}

/// The events that follow from the provider's answer to the question for a
/// forecast: the forecast where there is one, else the provider's failure as
/// the command's.
pub fn forecasted<W>(outcome: Result<ZoneForecast, NoaaWeatherError>) -> (res: Result<
    Vec<LocationZoneEvent<W>>,
    LocationZoneError,
>)
    ensures
        match outcome {
            Ok(forecast) => res matches Ok(events) && events@ == seq![
                LocationZoneEvent::<W>::ForecastUpdated(forecast),
            ],
            Err(error) => res == Err::<Vec<LocationZoneEvent<W>>, LocationZoneError>(
                LocationZoneError::Noaa(error),
            ),
        },
{
    match outcome {
        Ok(forecast) => {
            let events = vec![LocationZoneEvent::ForecastUpdated(forecast)];
            Ok(events)
        },
        Err(error) => Err(LocationZoneError::Noaa(error)),
    }
}

/// The read model of a zone's weather.
#[derive(Debug, Clone, PartialEq, Eq)]
pub struct WeatherView<W> {
    pub zone_code: String,
    pub timestamp: Timestamp,
    pub alert: Option<WeatherAlert>,
    pub current: Option<W>,
    pub forecast: Vec<ForecastDetail>,
}

impl<W> WeatherView<W> {
    /// The view of no zone, made at `timestamp`.
    pub fn default(timestamp: Timestamp) -> (res: Self)
        ensures
            res.zone_code@ == Seq::<char>::empty(),
            res.timestamp == timestamp,
            res.alert is None,
            res.current is None,
            res.forecast@ == Seq::<ForecastDetail>::empty(),
    {
        WeatherView {
            zone_code: String::new(),
            timestamp,
            alert: None,
            current: None,
            forecast: Vec::new(),
        }
    }

    /// The view of the zone `zone_code`, made at `timestamp`, before anything
    /// is known of the zone's weather.
    pub fn new(zone_code: String, timestamp: Timestamp) -> (res: Self)
        ensures
            res.zone_code == zone_code,
            res.timestamp == timestamp,
            res.alert is None,
            res.current is None,
            res.forecast@ == Seq::<ForecastDetail>::empty(),
    {
        WeatherView { zone_code, timestamp, alert: None, current: None, forecast: Vec::new() }
    }

    /// Follows the zone's aggregate: `ZoneSet` names the zone, an observation
    /// or a forecast replaces the one shown, an alert is shown until it is
    /// deactivated.
    pub fn update(&mut self, event: LocationZoneEvent<W>)
        ensures
            final(self).timestamp == old(self).timestamp,
            match event {
                LocationZoneEvent::ZoneSet(_, zone_id) => {
                    &&& final(self).zone_code@ == zone_id@
                    &&& final(self).alert == old(self).alert
                    &&& final(self).current == old(self).current
                    &&& final(self).forecast == old(self).forecast
                },
                LocationZoneEvent::ObservationAdded(frame) => {
                    &&& final(self).zone_code == old(self).zone_code
                    &&& final(self).alert == old(self).alert
                    &&& final(self).current == Some(frame)
                    &&& final(self).forecast == old(self).forecast
                },
                LocationZoneEvent::ForecastUpdated(update) => {
                    &&& final(self).zone_code == old(self).zone_code
                    &&& final(self).alert == old(self).alert
                    &&& final(self).current == old(self).current
                    &&& final(self).forecast == update.periods
                },
                LocationZoneEvent::AlertActivated(alert) => {
                    &&& final(self).zone_code == old(self).zone_code
                    &&& final(self).alert == Some(alert)
                    &&& final(self).current == old(self).current
                    &&& final(self).forecast == old(self).forecast
                },
                LocationZoneEvent::AlertDeactivated => {
                    &&& final(self).zone_code == old(self).zone_code
                    &&& final(self).alert is None
                    &&& final(self).current == old(self).current
                    &&& final(self).forecast == old(self).forecast
                },
            },
    {
        match event {
            LocationZoneEvent::ZoneSet(_, zone_id) => {
                self.zone_code = zone_id.to_text();
            },
            LocationZoneEvent::ObservationAdded(frame) => {
                self.current = Some(frame);
            },
            LocationZoneEvent::ForecastUpdated(forecast) => {
                self.forecast = forecast.periods;
            },
            LocationZoneEvent::AlertActivated(alert) => {
                self.alert = Some(alert);
            },
            LocationZoneEvent::AlertDeactivated => {
                self.alert = None;
            },
        }
    }
}

/// The observation that the last `ObservationAdded` among `events` brought.
pub open spec fn last_observation<W>(events: Seq<LocationZoneEvent<W>>) -> Option<W>
    decreases events.len(),
{
    if events.len() == 0 {
        None
    } else {
        match events.last() {
            LocationZoneEvent::ObservationAdded(frame) => Some(frame),
            _ => last_observation(events.drop_last()),
        }
    }
}

/// The forecast that the last `ForecastUpdated` among `events` brought.
pub open spec fn last_forecast<W>(events: Seq<LocationZoneEvent<W>>) -> Option<ZoneForecast>
    decreases events.len(),
{
    if events.len() == 0 {
        None
    } else {
        match events.last() {
            LocationZoneEvent::ForecastUpdated(update) => Some(update),
            _ => last_forecast(events.drop_last()),
        }
    }
}

/// True when the last alert event among `events` activated an alert.
pub open spec fn alert_after<W>(events: Seq<LocationZoneEvent<W>>) -> bool
    decreases events.len(),
{
    if events.len() == 0 {
        false
    } else {
        match events.last() {
            LocationZoneEvent::AlertActivated(_) => true,
            LocationZoneEvent::AlertDeactivated => false,
            _ => alert_after(events.drop_last()),
        }
    }
}

/// The events from `ZoneSet` on determine the aggregate: after `ZoneSet` and
/// any events `later`, the aggregate watches the zone that `ZoneSet` named and
/// holds the last observation, the last forecast and the activity of the last
/// alert event among `later`.
pub proof fn law_events_determine_zone<W>(
    zone_type: LocationZoneType,
    zone_code: LocationZoneCode,
    later: Seq<LocationZoneEvent<W>>,
)
    ensures
        zone_replay(
            ZoneModel::Quiescent,
            seq![LocationZoneEvent::ZoneSet(zone_type, zone_code)] + later,
        ) == (ZoneModel::Active {
            zone_type,
            zone_id: zone_code@,
            weather: last_observation(later),
            forecast: last_forecast(later),
            active_alert: alert_after(later),
        }),
    decreases later.len(),
{
    let first = seq![LocationZoneEvent::<W>::ZoneSet(zone_type, zone_code)];
    if later.len() == 0 {
        reveal_with_fuel(zone_replay, 2);
    } else {
        law_events_determine_zone(zone_type, zone_code, later.drop_last());
        assert((first + later).drop_last() =~= first + later.drop_last());
    }
}

/// An aggregate that watches a zone goes on watching that zone: no event
/// takes it back to rest or changes the zone's kind or code.
pub proof fn law_zone_stays_set<W>(model: ZoneModel<W>, event: LocationZoneEvent<W>)
    requires
        model is Active,
    ensures
        zone_apply(model, event) is Active,
        zone_apply(model, event)->zone_id == model->zone_id,
        zone_apply(model, event)->zone_type == model->zone_type,
{
}

/// Replay is a function of the events: two aggregates that the same events
/// led to from the start are the same.
pub proof fn law_replay_is_deterministic<W>(
    a: ZoneModel<W>,
    b: ZoneModel<W>,
    events: Seq<LocationZoneEvent<W>>,
)
    requires
        a == zone_replay(ZoneModel::Quiescent, events),
        b == zone_replay(ZoneModel::Quiescent, events),
    ensures
        a == b,
{
}

} // verus!
