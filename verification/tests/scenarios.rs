use std::collections::VecDeque;
use weather::connect::{broadcast_envelopes, CommandRelay, RelayAction};
use weather::controller::{
    alerts_or_none, dispatch, failure_note, location_event_to_command, update_alerts,
};
use weather::envelope::{CommandEnvelope, Metadata};
use weather::errors::NoaaWeatherError;
use weather::registrar::{
    conclude, initialize_forecast_zone, update_weather, MonitoredZonesView, Registrar,
    RegistrarCommand, RegistrarEffect, RegistrarEvent,
};
use weather::saga::{
    subscription_for, ActiveLocationsUpdate, LocationUpdateStatus, LocationUpdatedSteps,
    UpdateCompletionStatus, UpdateLocations, UpdateLocationsCommand, UpdateLocationsEvent,
    UpdateLocationsState, UpdateLocationsView,
};
use weather::subscriber::{EventSubscriber, SubscriberAction, SubscriberInput};
use weather::weather::{ForecastDetail, Timestamp, WeatherAlert, ZoneForecast};
use weather::zone::{
    forecasted, observed, ActiveLocationZone, LocationZone, LocationZoneCommand,
    LocationZoneDecision, LocationZoneEvent, LocationZoneState,
};
use weather::zone_code::{LocationZoneCode, LocationZoneType};

fn sc_zone(code: &str) -> LocationZoneCode {
    LocationZoneCode::new(code.to_string())
}

fn sc_forecast(code: &str) -> ZoneForecast {
    ZoneForecast {
        zone_code: code.to_string(),
        updated: Timestamp { seconds: 1, nanos: 0 },
        periods: vec![ForecastDetail { name: "Today".to_string(), forecast: "Fair.".to_string() }],
    }
}

/// The whole service in one thread: the aggregates, the subscriber and the
/// two relays' queues.
struct ScService {
    registrar: Registrar,
    zones: Vec<(String, LocationZone<f32>)>,
    saga: UpdateLocations,
    subscriber: EventSubscriber,
    location_queue: VecDeque<CommandEnvelope<LocationZoneCommand>>,
    saga_queue: VecDeque<CommandEnvelope<UpdateLocationsCommand>>,
    failing_observations: Vec<String>,
    alerts: Vec<WeatherAlert>,
    registrar_events: Vec<RegistrarEvent>,
    zone_events: Vec<(String, LocationZoneEvent<f32>)>,
    saga_events: Vec<UpdateLocationsEvent>,
}

impl ScService {
    fn new() -> Self {
        ScService {
            registrar: Registrar::default(),
            zones: Vec::new(),
            saga: UpdateLocations::default(),
            subscriber: EventSubscriber::new(),
            location_queue: VecDeque::new(),
            saga_queue: VecDeque::new(),
            failing_observations: Vec::new(),
            alerts: Vec::new(),
            registrar_events: Vec::new(),
            zone_events: Vec::new(),
            saga_events: Vec::new(),
        }
    }

    fn zone_mut(&mut self, id: &str) -> &mut LocationZone<f32> {
        if !self.zones.iter().any(|(z, _)| z == id) {
            self.zones.push((id.to_string(), LocationZone::default()));
        }
        let at = self.zones.iter().position(|(z, _)| z == id).unwrap();
        &mut self.zones[at].1
    }

    fn registrar_command(&mut self, command: RegistrarCommand) -> Result<(), String> {
        let decision = self.registrar.handle(command).map_err(|e| format!("{e:?}"))?;
        match &decision.effect {
            Some(RegistrarEffect::InitializeForecastZone(zone)) => {
                let envelope = initialize_forecast_zone(zone);
                self.execute_location(envelope).map_err(|e| format!("{e:?}"))?;
            },
            Some(RegistrarEffect::UpdateWeather(zones)) => {
                if let Some(envelope) = update_weather("saga-1".to_string(), zones.clone()) {
                    self.execute_saga(envelope);
                }
            },
            None => {},
        }
        for event in conclude(decision, Ok(())).unwrap() {
            self.registrar.apply(event.clone());
            self.registrar_events.push(event);
        }
        Ok(())
    }

    fn execute_location(
        &mut self,
        envelope: CommandEnvelope<LocationZoneCommand>,
    ) -> Result<(), weather::zone::LocationZoneError> {
        let (id, command, metadata) = match CommandRelay::new().next(Some(envelope)) {
            RelayAction::Execute { aggregate_id, command, metadata } => (aggregate_id, command, metadata),
            RelayAction::Stop => unreachable!(),
        };
        let fails = self.failing_observations.contains(&id);
        let events = match self.zone_mut(&id).handle(command)? {
            LocationZoneDecision::Events(events) => events,
            LocationZoneDecision::Observe(_) => observed(if fails {
                Err(NoaaWeatherError::HttpRequest("injected".to_string()))
            } else {
                Ok(72.0f32)
            })?,
            LocationZoneDecision::Forecast(_, zone) => forecasted(Ok(sc_forecast(zone.as_str())))?,
        };
        let mut committed = Vec::new();
        for event in events {
            self.zone_mut(&id).apply(event.clone());
            self.zone_events.push((id.clone(), event.clone()));
            committed.push((event, metadata.clone()));
        }
        for envelope in broadcast_envelopes(&id, committed) {
            let commands = location_event_to_command(&envelope);
            match self.subscriber.step(SubscriberInput::Event { envelope, commands }) {
                SubscriberAction::Forward(out) => self.saga_queue.extend(out),
                SubscriberAction::Stop => unreachable!(),
            }
        }
        Ok(())
    }

    fn execute_saga(&mut self, envelope: CommandEnvelope<UpdateLocationsCommand>) {
        let (id, command, _) = envelope.as_parts();
        let events = match self.saga.handle(command) {
            Ok(events) => events,
            Err(_) => return,
        };
        for event in events.iter() {
            if let Some(request) = subscription_for(event) {
                let _: SubscriberAction<UpdateLocationsCommand> =
                    self.subscriber.step::<LocationZoneEvent<f32>, _>(SubscriberInput::Admin(request));
            }
            self.saga.apply(event.clone());
            self.saga_events.push(event.clone());
        }
        for update in dispatch(&id, &events) {
            self.location_queue.extend(update.observations);
            self.location_queue.extend(update.forecasts);
            let alerts = alerts_or_none(Ok(self.alerts.clone()));
            let noted = update_alerts(&id, &update.zones, &alerts, &update.metadata);
            self.location_queue.extend(noted.alerts);
            self.saga_queue.extend(noted.unaffected);
        }
    }

    fn drain(&mut self) {
        loop {
            if let Some(envelope) = self.location_queue.pop_front() {
                let kept = envelope.clone();
                if self.execute_location(envelope).is_err() {
                    if let Some(note) = failure_note(&"saga-1".to_string(), &kept, false) {
                        self.saga_queue.push_back(note);
                    }
                }
            } else if let Some(envelope) = self.saga_queue.pop_front() {
                self.execute_saga(envelope);
            } else {
                break;
            }
        }
    }

    fn saga_finished(&self) -> bool {
        matches!(self.saga.state(), UpdateLocationsState::Finished(_))
    }
}

#[test]
fn scenario_single_zone_happy_path() {
    let mut service = ScService::new();
    service.registrar_command(RegistrarCommand::MonitorForecastZone(sc_zone("WAZ558"))).unwrap();
    service.registrar_command(RegistrarCommand::UpdateWeather).unwrap();
    service.drain();
    assert_eq!(service.registrar_events, vec![RegistrarEvent::ForecastZoneAdded(sc_zone("WAZ558"))]);
    assert_eq!(
        service.zone_events,
        vec![
            (
                "WAZ558".to_string(),
                LocationZoneEvent::ZoneSet(LocationZoneType::Forecast, sc_zone("WAZ558"))
            ),
            ("WAZ558".to_string(), LocationZoneEvent::ObservationAdded(72.0)),
            ("WAZ558".to_string(), LocationZoneEvent::ForecastUpdated(sc_forecast("WAZ558"))),
        ]
    );
    let step = |observation, forecast, alert| {
        UpdateLocationsEvent::LocationUpdated(
            sc_zone("WAZ558"),
            LocationUpdateStatus::Left(LocationUpdatedSteps { observation, forecast, alert }),
        )
    };
    assert_eq!(
        service.saga_events,
        vec![
            UpdateLocationsEvent::Started("saga-1".to_string(), vec![sc_zone("WAZ558")]),
            step(false, false, true),
            step(true, false, true),
            step(true, true, true),
            UpdateLocationsEvent::Completed,
        ]
    );
    assert!(service.saga_finished());
}

#[test]
fn scenario_duplicate_monitor_is_rejected_after_the_happy_path() {
    let mut service = ScService::new();
    service.registrar_command(RegistrarCommand::MonitorForecastZone(sc_zone("WAZ558"))).unwrap();
    service.registrar_command(RegistrarCommand::UpdateWeather).unwrap();
    service.drain();
    let before = service.registrar.clone();
    let outcome = service.registrar_command(RegistrarCommand::MonitorForecastZone(sc_zone("WAZ558")));
    assert!(outcome.unwrap_err().contains("RejectedCommand"));
    assert_eq!(service.registrar, before);
    assert_eq!(service.registrar_events.len(), 1);
}

#[test]
fn scenario_two_zone_partial_failure() {
    let mut service = ScService::new();
    service.failing_observations.push("MDC031".to_string());
    service.registrar_command(RegistrarCommand::MonitorForecastZone(sc_zone("WAZ558"))).unwrap();
    service.registrar_command(RegistrarCommand::MonitorForecastZone(sc_zone("MDC031"))).unwrap();
    service.registrar_command(RegistrarCommand::UpdateWeather).unwrap();
    // The zone that fails is noted last, once the other zone is done.
    let failing: Vec<_> = service
        .location_queue
        .iter()
        .filter(|c| c.target_id() == "MDC031" && c.payload() == &LocationZoneCommand::Observe)
        .cloned()
        .collect();
    service.location_queue.retain(|c| !(c.target_id() == "MDC031" && c.payload() == &LocationZoneCommand::Observe));
    service.drain();
    service.location_queue.extend(failing);
    service.drain();
    assert_eq!(
        service.saga_events[0],
        UpdateLocationsEvent::Started("saga-1".to_string(), vec![sc_zone("WAZ558"), sc_zone("MDC031")])
    );
    let count = service.saga_events.len();
    assert_eq!(
        service.saga_events[count - 2..],
        [
            UpdateLocationsEvent::LocationUpdated(
                sc_zone("MDC031"),
                LocationUpdateStatus::Right(UpdateCompletionStatus::Failed)
            ),
            UpdateLocationsEvent::Failed,
        ]
    );
    assert!(service.saga_events.contains(&UpdateLocationsEvent::LocationUpdated(
        sc_zone("WAZ558"),
        LocationUpdateStatus::Left(LocationUpdatedSteps::all())
    )));
    assert!(!service.saga_events.contains(&UpdateLocationsEvent::Completed));
    assert!(service.saga_finished());
}

#[test]
fn scenario_broadcast_lag_loses_no_subscription_and_the_next_cycle_recovers() {
    let mut subscriber = EventSubscriber::new();
    subscriber.add_subscriber("saga-1".to_string(), vec!["WAZ558".to_string()]);
    let before = subscriber.clone();
    let action: SubscriberAction<UpdateLocationsCommand> =
        subscriber.step::<LocationZoneEvent<f32>, _>(SubscriberInput::Lagged(3));
    assert_eq!(action, SubscriberAction::Forward(vec![]));
    assert_eq!(subscriber, before);
    // The events that the subscriber missed are still in the zone's history:
    // a replay of them gives the zone's state, and the next event reaches the
    // saga as before.
    let history = vec![
        LocationZoneEvent::ZoneSet(LocationZoneType::Forecast, sc_zone("WAZ558")),
        LocationZoneEvent::ObservationAdded(70.0f32),
        LocationZoneEvent::ObservationAdded(71.0f32),
    ];
    let zone = LocationZone::replay(history);
    match zone.state() {
        LocationZoneState::Active(active) => assert_eq!(active.weather, Some(71.0)),
        other => panic!("expected an active zone, got {other:?}"),
    }
    let next = broadcast_envelopes(
        &"WAZ558".to_string(),
        vec![(LocationZoneEvent::ObservationAdded(72.0f32), Metadata::new())],
    );
    let envelope = next.into_iter().next().unwrap();
    let commands = location_event_to_command(&envelope);
    assert_eq!(
        subscriber.step(SubscriberInput::Event { envelope, commands }),
        SubscriberAction::Forward(vec![CommandEnvelope::new(
            "saga-1".to_string(),
            UpdateLocationsCommand::NoteLocationObservationUpdated(sc_zone("WAZ558"))
        )])
    );
}

#[test]
fn stored_states_are_taken_up_again() {
    let registrar = Registrar::from_codes(vec![sc_zone("B"), sc_zone("A"), sc_zone("B")]);
    let codes: Vec<String> = registrar.location_codes().iter().map(|z| z.to_text()).collect();
    assert_eq!(codes, vec!["B".to_string(), "A".to_string()]);
    let active = ActiveLocationsUpdate::new(
        "saga-1".to_string(),
        vec![
            (sc_zone("A"), LocationUpdateStatus::Left(LocationUpdatedSteps::empty())),
            (sc_zone("B"), LocationUpdateStatus::Left(LocationUpdatedSteps::all())),
            (sc_zone("A"), LocationUpdateStatus::Right(UpdateCompletionStatus::Failed)),
        ],
    );
    assert_eq!(
        active.zone_statuses(),
        vec![
            ("A".to_string(), LocationUpdateStatus::Right(UpdateCompletionStatus::Failed)),
            ("B".to_string(), LocationUpdateStatus::Left(LocationUpdatedSteps::all())),
        ]
    );
    let saga = UpdateLocations::from_state(UpdateLocationsState::Active(active.clone()));
    assert_eq!(saga.state(), &UpdateLocationsState::Active(active));
    let state = LocationZoneState::Active(ActiveLocationZone {
        zone_type: LocationZoneType::County,
        zone_id: sc_zone("MDC031"),
        weather: Some(50.0f32),
        forecast: None,
        active_alert: true,
    });
    let zone = LocationZone::from_state(state.clone());
    assert_eq!(zone.state(), &state);
}

#[test]
fn saga_view_keeps_the_history_and_the_state() {
    let mut view = UpdateLocationsView::default();
    let mut saga = UpdateLocations::default();
    let events = vec![
        UpdateLocationsEvent::Started("saga-1".to_string(), vec![sc_zone("A")]),
        UpdateLocationsEvent::LocationUpdated(
            sc_zone("A"),
            LocationUpdateStatus::Right(UpdateCompletionStatus::Failed),
        ),
        UpdateLocationsEvent::Failed,
    ];
    for event in events.iter() {
        view.update(event);
        saga.apply(event.clone());
        assert_eq!(view.state(), saga.state());
    }
    assert_eq!(view.history(), &events);
    assert!(matches!(view.state(), UpdateLocationsState::Finished(_)));
    let mut zones_view = MonitoredZonesView::default();
    zones_view.update(&RegistrarEvent::ForecastZoneAdded(sc_zone("A")));
    assert_eq!(zones_view.zones(), vec!["A".to_string()]);
}
