use weather::connect::{broadcast_envelopes, CommandRelay, RelayAction};
use weather::controller::{
    alerts_or_none, any_affects, dispatch, failure_note, location_event_to_command, update_alerts,
    update_forecasts, update_observations,
};
use weather::envelope::{CommandEnvelope, EventEnvelope, Metadata};
use weather::errors::NoaaWeatherError;
use weather::saga::{UpdateLocationsCommand, UpdateLocationsEvent};
use weather::subscriber::{
    send_event_commands, EventSubscriber, SubscribeCommand, SubscriberAction, SubscriberInput,
};
use weather::weather::{
    AlertCategory, AlertCertainty, AlertMessageType, AlertResponse, AlertSeverity, AlertStatus,
    AlertUrgency, Timestamp, WeatherAlert, ZoneForecast,
};
use weather::zone::{LocationZoneCommand, LocationZoneEvent};
use weather::zone_code::{LocationZoneCode, LocationZoneType};

fn fb_zone(code: &str) -> LocationZoneCode {
    LocationZoneCode::new(code.to_string())
}

fn fb_meta(id: &str) -> Metadata {
    Metadata::correlation(&id.to_string())
}

fn fb_alert(zones: &[&str]) -> WeatherAlert {
    let at = Timestamp { seconds: 0, nanos: 0 };
    WeatherAlert {
        affected_zones: zones.iter().map(|z| fb_zone(z)).collect(),
        status: AlertStatus::Actual,
        message_type: AlertMessageType::Alert,
        sent: at,
        effective: at,
        onset: None,
        expires: at,
        ends: None,
        category: AlertCategory::Met,
        severity: AlertSeverity::Severe,
        certainty: AlertCertainty::Possible,
        urgency: AlertUrgency::Immediate,
        event: "Wind".to_string(),
        headline: zones.join("+"),
        description: "d".to_string(),
        instruction: None,
        response: AlertResponse::Prepare,
    }
}

fn fb_subscriber() -> EventSubscriber {
    let mut subscriber = EventSubscriber::new();
    subscriber.add_subscriber("saga-1".to_string(), vec!["WAZ558".to_string(), "MDC031".to_string()]);
    subscriber.add_subscriber("saga-2".to_string(), vec!["WAZ558".to_string()]);
    subscriber
}

#[test]
fn metadata_holds_the_correlation() {
    let metadata = fb_meta("saga-1");
    assert_eq!(metadata.len(), 1);
    let (key, value) = metadata.entry(0);
    assert_eq!((key.as_str(), value.as_str()), ("correlation", "saga-1"));
    let mut more = metadata.clone();
    more.push("k".to_string(), "v".to_string());
    assert_eq!(more.len(), 2);
    assert_eq!(metadata.len(), 1);
    assert_eq!(Metadata::new().len(), 0);
}

#[test]
fn envelopes_give_back_what_they_were_made_of() {
    let event = EventEnvelope::new_with_metadata("WAZ558".to_string(), 7u32, fb_meta("s"));
    assert_eq!(event.publisher_id(), "WAZ558");
    assert_eq!(event.payload(), &7u32);
    assert_eq!(event.metadata(), &fb_meta("s"));
    assert_eq!(event.as_parts(), ("WAZ558".to_string(), 7u32, fb_meta("s")));
    let plain = EventEnvelope::new("WAZ558".to_string(), 7u32);
    assert_eq!(plain.metadata(), &Metadata::new());
    let command = CommandEnvelope::new_with_metadata("saga-1".to_string(), 9u32, fb_meta("s"));
    assert_eq!(command.target_id(), "saga-1");
    assert_eq!(command.payload(), &9u32);
    assert_eq!(command.metadata(), &fb_meta("s"));
    assert_eq!(command.as_parts(), ("saga-1".to_string(), 9u32, fb_meta("s")));
    assert_eq!(CommandEnvelope::new("saga-1".to_string(), 9u32).metadata(), &Metadata::new());
}

#[test]
fn zone_events_convert_to_saga_notes() {
    let observation: EventEnvelope<LocationZoneEvent<f32>> =
        EventEnvelope::new("WAZ558".to_string(), LocationZoneEvent::ObservationAdded(70.0));
    assert_eq!(
        location_event_to_command(&observation),
        vec![UpdateLocationsCommand::NoteLocationObservationUpdated(fb_zone("WAZ558"))]
    );
    let forecast: EventEnvelope<LocationZoneEvent<f32>> = EventEnvelope::new(
        "WAZ558".to_string(),
        LocationZoneEvent::ForecastUpdated(ZoneForecast {
            zone_code: "WAZ558".to_string(),
            updated: Timestamp { seconds: 1, nanos: 2 },
            periods: vec![],
        }),
    );
    assert_eq!(
        location_event_to_command(&forecast),
        vec![UpdateLocationsCommand::NoteLocationForecastUpdated(fb_zone("WAZ558"))]
    );
    let activated: EventEnvelope<LocationZoneEvent<f32>> =
        EventEnvelope::new("WAZ558".to_string(), LocationZoneEvent::AlertActivated(fb_alert(&["WAZ558"])));
    assert_eq!(
        location_event_to_command(&activated),
        vec![UpdateLocationsCommand::NoteLocationAlertStatusUpdated(fb_zone("WAZ558"))]
    );
    let deactivated: EventEnvelope<LocationZoneEvent<f32>> =
        EventEnvelope::new("WAZ558".to_string(), LocationZoneEvent::AlertDeactivated);
    assert_eq!(
        location_event_to_command(&deactivated),
        vec![UpdateLocationsCommand::NoteLocationAlertStatusUpdated(fb_zone("WAZ558"))]
    );
    let set: EventEnvelope<LocationZoneEvent<f32>> = EventEnvelope::new(
        "WAZ558".to_string(),
        LocationZoneEvent::ZoneSet(LocationZoneType::Forecast, fb_zone("WAZ558")),
    );
    assert_eq!(location_event_to_command(&set), vec![]);
}

#[test]
fn subscriptions_are_added_once_and_removed_together() {
    let mut subscriber = fb_subscriber();
    subscriber.add_subscriber("saga-1".to_string(), vec!["WAZ558".to_string()]);
    assert_eq!(
        subscriber.subscribers(&"WAZ558".to_string()),
        vec!["saga-1".to_string(), "saga-2".to_string()]
    );
    assert_eq!(subscriber.subscribers(&"MDC031".to_string()), vec!["saga-1".to_string()]);
    assert_eq!(subscriber.subscribers(&"ZZZ000".to_string()), Vec::<String>::new());
    assert!(subscriber.is_subscribed(&"MDC031".to_string(), &"saga-1".to_string()));
    assert!(!subscriber.is_subscribed(&"MDC031".to_string(), &"saga-2".to_string()));
    subscriber.remove_subscriber(&"saga-1".to_string());
    assert_eq!(subscriber.subscribers(&"WAZ558".to_string()), vec!["saga-2".to_string()]);
    assert_eq!(subscriber.subscribers(&"MDC031".to_string()), Vec::<String>::new());
    subscriber.remove_subscriber(&"saga-2".to_string());
    assert_eq!(subscriber, EventSubscriber::new());
}

#[test]
fn an_event_is_forwarded_to_each_subscriber_of_its_publisher() {
    let subscriber = fb_subscriber();
    let envelope = EventEnvelope::new_with_metadata("WAZ558".to_string(), 1u8, fb_meta("m"));
    let commands = vec!["a".to_string(), "b".to_string()];
    let out = subscriber.handle_event(&envelope, &commands);
    assert_eq!(
        out,
        vec![
            CommandEnvelope::new_with_metadata("saga-1".to_string(), "a".to_string(), fb_meta("m")),
            CommandEnvelope::new_with_metadata("saga-1".to_string(), "b".to_string(), fb_meta("m")),
            CommandEnvelope::new_with_metadata("saga-2".to_string(), "a".to_string(), fb_meta("m")),
            CommandEnvelope::new_with_metadata("saga-2".to_string(), "b".to_string(), fb_meta("m")),
        ]
    );
    let other = EventEnvelope::new("ZZZ000".to_string(), 1u8);
    assert_eq!(subscriber.handle_event(&other, &commands), vec![]);
    assert_eq!(
        send_event_commands(&"saga-9".to_string(), &vec![5u8], &Metadata::new()),
        vec![CommandEnvelope::new("saga-9".to_string(), 5u8)]
    );
}

#[test]
fn subscriber_steps_through_every_kind_of_input() {
    let mut subscriber = EventSubscriber::new();
    let added: SubscriberAction<u8> = subscriber.step::<u8, u8>(SubscriberInput::Admin(
        SubscribeCommand::Add { subscriber_id: "saga-1".to_string(), publisher_ids: vec!["WAZ558".to_string()] },
    ));
    assert_eq!(added, SubscriberAction::Forward(vec![]));
    let forwarded = subscriber.step(SubscriberInput::Event {
        envelope: EventEnvelope::new("WAZ558".to_string(), 1u8),
        commands: vec![3u8],
    });
    assert_eq!(
        forwarded,
        SubscriberAction::Forward(vec![CommandEnvelope::new("saga-1".to_string(), 3u8)])
    );
    let lagged: SubscriberAction<u8> = subscriber.step::<u8, u8>(SubscriberInput::Lagged(17));
    assert_eq!(lagged, SubscriberAction::Forward(vec![]));
    assert_eq!(subscriber.subscribers(&"WAZ558".to_string()), vec!["saga-1".to_string()]);
    let removed: SubscriberAction<u8> = subscriber.step::<u8, u8>(SubscriberInput::Admin(
        SubscribeCommand::Remove { subscriber_id: "saga-1".to_string() },
    ));
    assert_eq!(removed, SubscriberAction::Forward(vec![]));
    assert_eq!(subscriber, EventSubscriber::new());
    let closed: SubscriberAction<u8> = subscriber.step::<u8, u8>(SubscriberInput::AdminClosed);
    assert_eq!(closed, SubscriberAction::Stop);
    let ended: SubscriberAction<u8> = subscriber.step::<u8, u8>(SubscriberInput::BroadcastClosed);
    assert_eq!(ended, SubscriberAction::Stop);
}

#[test]
fn started_dispatches_observations_and_forecasts() {
    let zones = vec![fb_zone("WAZ558"), fb_zone("MDC031")];
    let events = vec![
        UpdateLocationsEvent::Completed,
        UpdateLocationsEvent::Started("saga-1".to_string(), zones.clone()),
    ];
    let updates = dispatch(&"saga-1".to_string(), &events);
    assert_eq!(updates.len(), 1);
    assert_eq!(updates[0].zones, zones);
    assert_eq!(updates[0].metadata, fb_meta("saga-1"));
    assert_eq!(
        updates[0].observations,
        vec![
            CommandEnvelope::new_with_metadata("WAZ558".to_string(), LocationZoneCommand::Observe, fb_meta("saga-1")),
            CommandEnvelope::new_with_metadata("MDC031".to_string(), LocationZoneCommand::Observe, fb_meta("saga-1")),
        ]
    );
    assert_eq!(
        updates[0].forecasts,
        vec![
            CommandEnvelope::new_with_metadata("WAZ558".to_string(), LocationZoneCommand::Forecast, fb_meta("saga-1")),
            CommandEnvelope::new_with_metadata("MDC031".to_string(), LocationZoneCommand::Forecast, fb_meta("saga-1")),
        ]
    );
    assert_eq!(updates[0].observations, update_observations(&zones, &fb_meta("saga-1")));
    assert_eq!(updates[0].forecasts, update_forecasts(&zones, &fb_meta("saga-1")));
    assert_eq!(dispatch(&"saga-1".to_string(), &vec![UpdateLocationsEvent::Failed]), vec![]);
}

#[test]
fn alerts_are_noted_for_affected_zones_and_the_rest_told_to_the_saga() {
    let zones = vec![fb_zone("WAZ558"), fb_zone("MDC031"), fb_zone("WAZ558"), fb_zone("ILZ014")];
    let alerts = vec![fb_alert(&["TXZ001", "MDC031"]), fb_alert(&["MDC031", "ILZ014"])];
    let updates = update_alerts(&"saga-1".to_string(), &zones, &alerts, &fb_meta("saga-1"));
    assert_eq!(
        updates.alerts,
        vec![
            CommandEnvelope::new_with_metadata(
                "MDC031".to_string(),
                LocationZoneCommand::NoteAlert(Some(alerts[0].clone())),
                fb_meta("saga-1")
            ),
            CommandEnvelope::new_with_metadata(
                "MDC031".to_string(),
                LocationZoneCommand::NoteAlert(Some(alerts[1].clone())),
                fb_meta("saga-1")
            ),
            CommandEnvelope::new_with_metadata(
                "ILZ014".to_string(),
                LocationZoneCommand::NoteAlert(Some(alerts[1].clone())),
                fb_meta("saga-1")
            ),
        ]
    );
    assert_eq!(
        updates.unaffected,
        vec![CommandEnvelope::new_with_metadata(
            "saga-1".to_string(),
            UpdateLocationsCommand::NoteLocationAlertStatusUpdated(fb_zone("WAZ558")),
            fb_meta("saga-1")
        )]
    );
    assert!(any_affects(&alerts, &fb_zone("TXZ001")));
    assert!(!any_affects(&alerts, &fb_zone("WAZ558")));
}

#[test]
fn without_alerts_every_zone_has_its_alert_step_done() {
    let zones = vec![fb_zone("WAZ558"), fb_zone("MDC031")];
    let alerts = alerts_or_none(Err(NoaaWeatherError::HttpRequest("down".to_string())));
    assert_eq!(alerts, vec![]);
    let updates = update_alerts(&"saga-1".to_string(), &zones, &alerts, &Metadata::new());
    assert_eq!(updates.alerts, vec![]);
    assert_eq!(
        updates.unaffected,
        vec![
            CommandEnvelope::new(
                "saga-1".to_string(),
                UpdateLocationsCommand::NoteLocationAlertStatusUpdated(fb_zone("WAZ558"))
            ),
            CommandEnvelope::new(
                "saga-1".to_string(),
                UpdateLocationsCommand::NoteLocationAlertStatusUpdated(fb_zone("MDC031"))
            ),
        ]
    );
    assert_eq!(alerts_or_none(Ok(vec![fb_alert(&["A"])])), vec![fb_alert(&["A"])]);
}

#[test]
fn a_command_that_could_not_be_sent_becomes_a_failure_note() {
    let command =
        CommandEnvelope::new_with_metadata("MDC031".to_string(), LocationZoneCommand::Observe, fb_meta("saga-1"));
    assert_eq!(failure_note(&"saga-1".to_string(), &command, true), None);
    assert_eq!(
        failure_note(&"saga-1".to_string(), &command, false),
        Some(CommandEnvelope::new_with_metadata(
            "saga-1".to_string(),
            UpdateLocationsCommand::NoteLocationUpdateFailure(fb_zone("MDC031")),
            fb_meta("saga-1")
        ))
    );
}

#[test]
fn events_are_broadcast_in_order_under_the_publisher() {
    let out = broadcast_envelopes(
        &"WAZ558".to_string(),
        vec![(1u8, Metadata::new()), (2u8, fb_meta("saga-1"))],
    );
    assert_eq!(
        out,
        vec![
            EventEnvelope::new("WAZ558".to_string(), 1u8),
            EventEnvelope::new_with_metadata("WAZ558".to_string(), 2u8, fb_meta("saga-1")),
        ]
    );
}

#[test]
fn relay_executes_commands_until_the_channel_ends() {
    let relay = CommandRelay::new();
    let action = relay.next(Some(CommandEnvelope::new_with_metadata("WAZ558".to_string(), 4u8, fb_meta("s"))));
    assert_eq!(
        action,
        RelayAction::Execute { aggregate_id: "WAZ558".to_string(), command: 4u8, metadata: fb_meta("s") }
    );
    assert_eq!(relay.next::<u8>(None), RelayAction::Stop);
}
