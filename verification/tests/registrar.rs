use weather::envelope::CommandEnvelope;
use weather::registrar::{
    conclude, initialize_forecast_zone, singleton_id, update_weather, HappyPathServices,
    MonitoredZonesView, Registrar, RegistrarCommand, RegistrarDecision, RegistrarEffect,
    RegistrarError, RegistrarEvent,
};
use weather::saga::UpdateLocationsCommand;
use weather::zone::LocationZoneCommand;
use weather::zone_code::{LocationZoneCode, LocationZoneType};

fn reg_zone(code: &str) -> LocationZoneCode {
    LocationZoneCode::new(code.to_string())
}

fn reg_execute(registrar: &mut Registrar, command: RegistrarCommand) -> Result<Vec<RegistrarEvent>, RegistrarError> {
    let decision = registrar.handle(command)?;
    let events = conclude(decision, Ok(()))?;
    for event in events.iter() {
        registrar.apply(event.clone());
    }
    Ok(events)
}

fn reg_codes(registrar: &Registrar) -> Vec<String> {
    registrar.location_codes().iter().map(|z| z.as_str().to_string()).collect()
}

#[test]
fn monitor_adds_a_zone_and_asks_for_its_initialization() {
    let registrar = Registrar::default();
    let decision = registrar.handle(RegistrarCommand::MonitorForecastZone(reg_zone("WAZ558"))).unwrap();
    assert_eq!(
        decision,
        RegistrarDecision {
            effect: Some(RegistrarEffect::InitializeForecastZone(reg_zone("WAZ558"))),
            events: vec![RegistrarEvent::ForecastZoneAdded(reg_zone("WAZ558"))],
        }
    );
}

#[test]
fn duplicate_monitor_is_rejected_and_state_unchanged() {
    let mut registrar = Registrar::default();
    reg_execute(&mut registrar, RegistrarCommand::MonitorForecastZone(reg_zone("WAZ558"))).unwrap();
    let before = registrar.clone();
    let outcome = reg_execute(&mut registrar, RegistrarCommand::MonitorForecastZone(reg_zone("WAZ558")));
    assert_eq!(
        outcome,
        Err(RegistrarError::RejectedCommand(
            "already monitoring location zone code: WAZ558".to_string()
        ))
    );
    assert_eq!(registrar, before);
    assert_eq!(reg_codes(&registrar), vec!["WAZ558".to_string()]);
}

#[test]
fn forget_and_clear_are_taken_even_for_absent_zones() {
    let mut registrar = Registrar::default();
    let forgotten =
        reg_execute(&mut registrar, RegistrarCommand::ForgetForecastZone(reg_zone("WAZ558"))).unwrap();
    assert_eq!(forgotten, vec![RegistrarEvent::ForecastZoneForgotten(reg_zone("WAZ558"))]);
    let cleared = reg_execute(&mut registrar, RegistrarCommand::ClearZoneMonitoring).unwrap();
    assert_eq!(cleared, vec![RegistrarEvent::AllForecastZonesForgotten]);
    assert_eq!(registrar, Registrar::default());
}

#[test]
fn update_weather_emits_nothing_and_starts_an_update_of_the_zones() {
    let mut registrar = Registrar::default();
    reg_execute(&mut registrar, RegistrarCommand::MonitorForecastZone(reg_zone("WAZ558"))).unwrap();
    reg_execute(&mut registrar, RegistrarCommand::MonitorForecastZone(reg_zone("MDC031"))).unwrap();
    let decision = registrar.handle(RegistrarCommand::UpdateWeather).unwrap();
    assert_eq!(
        decision,
        RegistrarDecision {
            effect: Some(RegistrarEffect::UpdateWeather(vec![reg_zone("WAZ558"), reg_zone("MDC031")])),
            events: vec![],
        }
    );
}

#[test]
fn failed_outside_work_fails_the_command() {
    let registrar = Registrar::default();
    let decision = registrar.handle(RegistrarCommand::MonitorForecastZone(reg_zone("WAZ558"))).unwrap();
    let outcome = conclude(decision, Err(RegistrarError::LocationZone("store is down".to_string())));
    assert_eq!(outcome, Err(RegistrarError::LocationZone("store is down".to_string())));
}

#[test]
fn clear_then_re_add_converges_to_the_last_zone() {
    let mut registrar = Registrar::default();
    let mut view = MonitoredZonesView::default();
    for command in [
        RegistrarCommand::MonitorForecastZone(reg_zone("A")),
        RegistrarCommand::MonitorForecastZone(reg_zone("B")),
        RegistrarCommand::ClearZoneMonitoring,
        RegistrarCommand::MonitorForecastZone(reg_zone("C")),
    ] {
        for event in reg_execute(&mut registrar, command).unwrap() {
            view.update(&event);
        }
    }
    assert_eq!(view.zones(), vec!["C".to_string()]);
    assert_eq!(reg_codes(&registrar), vec!["C".to_string()]);
    assert!(registrar.is_monitored(&reg_zone("C")));
    assert!(!registrar.is_monitored(&reg_zone("A")));
}

#[test]
fn replay_keeps_what_was_added_and_not_removed_since() {
    let events = vec![
        RegistrarEvent::ForecastZoneAdded(reg_zone("A")),
        RegistrarEvent::ForecastZoneAdded(reg_zone("B")),
        RegistrarEvent::ForecastZoneAdded(reg_zone("A")),
        RegistrarEvent::ForecastZoneForgotten(reg_zone("B")),
        RegistrarEvent::ForecastZoneForgotten(reg_zone("Z")),
        RegistrarEvent::ForecastZoneAdded(reg_zone("C")),
        RegistrarEvent::AllForecastZonesForgotten,
        RegistrarEvent::ForecastZoneAdded(reg_zone("D")),
        RegistrarEvent::ForecastZoneAdded(reg_zone("E")),
        RegistrarEvent::ForecastZoneForgotten(reg_zone("D")),
    ];
    let registrar = Registrar::replay(&events);
    assert_eq!(reg_codes(&registrar), vec!["E".to_string()]);
    assert_eq!(registrar, Registrar::replay(&events));
}

#[test]
fn any_command_order_matches_the_reference() {
    let names = ["A", "B", "C"];
    let mut seed: u32 = 987654321;
    for _ in 0..200 {
        let mut registrar = Registrar::default();
        let mut reference: Vec<String> = Vec::new();
        for _ in 0..30 {
            seed = seed.wrapping_mul(1103515245).wrapping_add(12345);
            let name = names[((seed >> 16) % 3) as usize];
            let command = match (seed >> 20) % 4 {
                0 => {
                    if !reference.iter().any(|z| z == name) {
                        reference.push(name.to_string());
                    }
                    RegistrarCommand::MonitorForecastZone(reg_zone(name))
                },
                1 => {
                    reference.retain(|z| z != name);
                    RegistrarCommand::ForgetForecastZone(reg_zone(name))
                },
                2 => {
                    reference.clear();
                    RegistrarCommand::ClearZoneMonitoring
                },
                _ => RegistrarCommand::UpdateWeather,
            };
            let _ = reg_execute(&mut registrar, command);
        }
        assert_eq!(reg_codes(&registrar), reference);
    }
}

#[test]
fn registrar_event_names_are_stable() {
    assert_eq!(RegistrarEvent::ForecastZoneAdded(reg_zone("A")).event_type(), "forecast_zone_added");
    assert_eq!(
        RegistrarEvent::ForecastZoneForgotten(reg_zone("A")).event_type(),
        "forecast_zone_forgotten"
    );
    assert_eq!(
        RegistrarEvent::AllForecastZonesForgotten.event_type(),
        "all_forecast_zones_forgotten"
    );
    assert_eq!(RegistrarEvent::AllForecastZonesForgotten.event_version(), "1.0");
    assert_eq!(Registrar::aggregate_type(), "registrar");
    assert_eq!(singleton_id(), "<singleton>");
}

#[test]
fn initialization_watches_the_zone_as_a_forecast_zone() {
    let envelope = initialize_forecast_zone(&reg_zone("WAZ558"));
    assert_eq!(
        envelope,
        CommandEnvelope::new(
            "WAZ558".to_string(),
            LocationZoneCommand::WatchZone(LocationZoneType::Forecast, reg_zone("WAZ558"))
        )
    );
}

#[test]
fn update_weather_command_is_correlated_with_the_saga() {
    assert_eq!(update_weather("saga-1".to_string(), vec![]), None);
    let envelope = update_weather("saga-1".to_string(), vec![reg_zone("WAZ558")]).unwrap();
    assert_eq!(envelope.target_id(), "saga-1");
    assert_eq!(
        envelope.payload(),
        &UpdateLocationsCommand::UpdateLocations("saga-1".to_string(), vec![reg_zone("WAZ558")])
    );
    assert_eq!(envelope.metadata().len(), 1);
    let (key, value) = envelope.metadata().entry(0);
    assert_eq!((key.as_str(), value.as_str()), ("correlation", "saga-1"));
}

#[test]
fn happy_path_services_always_succeed() {
    let services = HappyPathServices;
    assert_eq!(services.initialize_forecast_zone(&reg_zone("WAZ558")), Ok(()));
    assert_eq!(services.update_weather(&vec![reg_zone("WAZ558")]), Ok(()));
}

#[test]
fn apply_all_is_replay_from_where_the_registrar_stands() {
    let mut registrar = Registrar::from_codes(vec![reg_zone("A")]);
    registrar.apply_all(&vec![
        RegistrarEvent::ForecastZoneAdded(reg_zone("B")),
        RegistrarEvent::ForecastZoneForgotten(reg_zone("A")),
        RegistrarEvent::ForecastZoneAdded(reg_zone("A")),
    ]);
    assert_eq!(reg_codes(&registrar), vec!["B".to_string(), "A".to_string()]);
}
