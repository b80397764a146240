//! What is to be sent where when an update starts, and how the events of the
//! zones come back to the saga as notes.

use crate::envelope::{CommandEnvelope, EventEnvelope, Metadata};
use crate::errors::NoaaWeatherError;
use crate::saga::{
    command_models, CommandModel, EventModel, UpdateLocationsCommand, UpdateLocationsEvent,
};
use crate::weather::{same_alert, WeatherAlert};
use crate::zone::{LocationZoneCommand, LocationZoneEvent};
use crate::zone_code::{code_texts, find_code, LocationZoneCode};
use vstd::prelude::*;

verus! {

/// The notes that an event of a zone converts to, with `zone` the text of the
/// publisher's id: an observation, a forecast and a change of the alert each
/// note their step done; `ZoneSet` notes nothing.
pub open spec fn notes_for<W>(zone: Seq<char>, event: LocationZoneEvent<W>) -> Seq<CommandModel> {
    match event {
        LocationZoneEvent::ObservationAdded(_) => seq![
            CommandModel::NoteLocationObservationUpdated(zone),
        ],
        LocationZoneEvent::ForecastUpdated(_) => seq![
            CommandModel::NoteLocationForecastUpdated(zone),
        ],
        LocationZoneEvent::AlertActivated(_) => seq![
            CommandModel::NoteLocationAlertStatusUpdated(zone),
        ],
        LocationZoneEvent::AlertDeactivated => seq![
            CommandModel::NoteLocationAlertStatusUpdated(zone),
        ],
        LocationZoneEvent::ZoneSet(_, _) => seq![],
    }
}

/// Converts an event of a zone into the notes that the saga takes. The zone
/// is the one that published the event.
pub fn location_event_to_command<W>(envelope: &EventEnvelope<LocationZoneEvent<W>>) -> (res: Vec<
    UpdateLocationsCommand,
>)
    ensures
        command_models(res@) == notes_for(envelope.publisher(), envelope.event()),
{
    let zone = LocationZoneCode::new(envelope.publisher_id().clone());
    let commands = match envelope.payload() {
        LocationZoneEvent::ObservationAdded(_) => vec![
            UpdateLocationsCommand::NoteLocationObservationUpdated(zone),
        ],
        LocationZoneEvent::ForecastUpdated(_) => vec![
            UpdateLocationsCommand::NoteLocationForecastUpdated(zone),
        ],
        LocationZoneEvent::AlertDeactivated => vec![
            UpdateLocationsCommand::NoteLocationAlertStatusUpdated(zone),
        ],
        LocationZoneEvent::AlertActivated(_) => vec![
            UpdateLocationsCommand::NoteLocationAlertStatusUpdated(zone),
        ],
        LocationZoneEvent::ZoneSet(_, _) => Vec::new(),
    };
    commands
}

/// True when `out` holds, for each of `zones` in order, the command `command`
/// addressed to the zone, with the metadata `meta`.
pub open spec fn one_per_zone(
    out: Seq<CommandEnvelope<LocationZoneCommand>>,
    zones: Seq<Seq<char>>,
    command: LocationZoneCommand,
    meta: Seq<(Seq<char>, Seq<char>)>,
) -> bool {
    &&& out.len() == zones.len()
    &&& forall|i: int|
        0 <= i < out.len() ==> {
            &&& (#[trigger] out[i]).target() == zones[i]
            &&& out[i].command() == command
            &&& out[i].meta() == meta
        }
}

/// The commands that have each of `zones` fetch its latest observation.
pub fn update_observations(zones: &Vec<LocationZoneCode>, metadata: &Metadata) -> (res: Vec<
    CommandEnvelope<LocationZoneCommand>,
>)
    ensures
        one_per_zone(res@, code_texts(zones@), LocationZoneCommand::Observe, metadata@),
{
    let mut out: Vec<CommandEnvelope<LocationZoneCommand>> = Vec::new();
    let mut i: usize = 0;
    while i < zones.len()
        invariant
            i <= zones.len(),
            one_per_zone(
                out@,
                code_texts(zones@).take(i as int),
                LocationZoneCommand::Observe,
                metadata@,
            ),
        decreases zones.len() - i,
    {
        out.push(
            CommandEnvelope::new_with_metadata(
                zones[i].to_text(),
                LocationZoneCommand::Observe,
                metadata.clone(),
            ),
        );
        i += 1;
    }
    out
}

/// The commands that have each of `zones` fetch its forecast.
pub fn update_forecasts(zones: &Vec<LocationZoneCode>, metadata: &Metadata) -> (res: Vec<
    CommandEnvelope<LocationZoneCommand>,
>)
    ensures
        one_per_zone(res@, code_texts(zones@), LocationZoneCommand::Forecast, metadata@),
{
    let mut out: Vec<CommandEnvelope<LocationZoneCommand>> = Vec::new();
    let mut i: usize = 0;
    while i < zones.len()
        invariant
            i <= zones.len(),
            one_per_zone(
                out@,
                code_texts(zones@).take(i as int),
                LocationZoneCommand::Forecast,
                metadata@,
            ),
        decreases zones.len() - i,
    {
        out.push(
            CommandEnvelope::new_with_metadata(
                zones[i].to_text(),
                LocationZoneCommand::Forecast,
                metadata.clone(),
            ),
        );
        i += 1;
    }
    out
}

/// What the start of an update sets going at once: every zone of the update
/// is to fetch its observation and its forecast. The alerts follow once the
/// provider has listed them; see `update_alerts`.
#[derive(Debug, Clone, PartialEq, Eq)]
pub struct ZoneUpdates {
    /// The zones of the update.
    pub zones: Vec<LocationZoneCode>,
    /// The metadata of every command of the update: its correlation with the
    /// saga.
    pub metadata: Metadata,
    pub observations: Vec<CommandEnvelope<LocationZoneCommand>>,
    pub forecasts: Vec<CommandEnvelope<LocationZoneCommand>>,
}

/// The zones of each `Started` among `events`, in order.
pub open spec fn started_zones(events: Seq<EventModel>) -> Seq<Seq<Seq<char>>>
    decreases events.len(),
{
    if events.len() == 0 {
        Seq::empty()
    } else {
        let before = started_zones(events.drop_last());
        match events.last() {
            EventModel::Started(_, zones) => before.push(zones),
            _ => before,
        }
    }
}

/// For each `Started` among the saga's `events`, in order, what the start
/// sets going: the commands to observe and to forecast for each of its zones,
/// all correlated with the saga `update_saga_id`.
pub fn dispatch(update_saga_id: &String, events: &Vec<UpdateLocationsEvent>) -> (res: Vec<
    ZoneUpdates,
>)
    ensures
        res.len() == started_zones(crate::saga::event_models(events@)).len(),
        forall|k: int|
            0 <= k < res.len() ==> {
                let zones = started_zones(crate::saga::event_models(events@))[k];
                let update = #[trigger] res[k];
                &&& code_texts(update.zones@) == zones
                &&& update.metadata@ == seq![(crate::envelope::CORRELATION@, update_saga_id@)]
                &&& one_per_zone(
                    update.observations@,
                    zones,
                    LocationZoneCommand::Observe,
                    update.metadata@,
                )
                &&& one_per_zone(
                    update.forecasts@,
                    zones,
                    LocationZoneCommand::Forecast,
                    update.metadata@,
                )
            },
{
    let mut out: Vec<ZoneUpdates> = Vec::new();
    let mut i: usize = 0;
    while i < events.len()
        invariant
            i <= events.len(),
            out.len() == started_zones(crate::saga::event_models(events@.take(i as int))).len(),
            forall|k: int|
                0 <= k < out.len() ==> {
                    let zones = started_zones(
                        crate::saga::event_models(events@.take(i as int)),
                    )[k];
                    let update = #[trigger] out[k];
                    &&& code_texts(update.zones@) == zones
                    &&& update.metadata@ == seq![(crate::envelope::CORRELATION@, update_saga_id@)]
                    &&& one_per_zone(
                        update.observations@,
                        zones,
                        LocationZoneCommand::Observe,
                        update.metadata@,
                    )
                    &&& one_per_zone(
                        update.forecasts@,
                        zones,
                        LocationZoneCommand::Forecast,
                        update.metadata@,
                    )
                },
        decreases events.len() - i,
    {
        proof {
            assert(crate::saga::event_models(events@.take(i + 1)).drop_last()
                =~= crate::saga::event_models(events@.take(i as int)));
        }
        match &events[i] {
            UpdateLocationsEvent::Started(_, zones) => {
                let zones = zones.clone();
                let metadata = Metadata::correlation(update_saga_id);
                let observations = update_observations(&zones, &metadata);
                let forecasts = update_forecasts(&zones, &metadata);
                out.push(ZoneUpdates { zones, metadata, observations, forecasts });
            },
            _ => {},
        }
        i += 1;
    }
    proof {
        assert(events@.take(events.len() as int) =~= events@);
    }
    out
}

/// The alerts that the provider listed, or none where it failed: an update
/// goes on without alerts rather than not at all.
pub fn alerts_or_none(outcome: Result<Vec<WeatherAlert>, NoaaWeatherError>) -> (res: Vec<
    WeatherAlert,
>)
    ensures
        match outcome {
            Ok(alerts) => res == alerts,
            Err(_) => res@ == Seq::<WeatherAlert>::empty(),
        },
{
    match outcome {
        Ok(alerts) => alerts,
        Err(_) => Vec::new(),
    }
}

/// Those of `affected` that are among `zones`, in the order of `affected`.
pub open spec fn affected_among(affected: Seq<Seq<char>>, zones: Seq<Seq<char>>) -> Seq<Seq<char>>
    decreases affected.len(),
{
    if affected.len() == 0 {
        Seq::empty()
    } else {
        let before = affected_among(affected.drop_last(), zones);
        if zones.contains(affected.last()) {
            before.push(affected.last())
        } else {
            before
        }
    }
}

/// Each of `zones` paired with the position `alert` of the alert that affects
/// it.
pub open spec fn noted(zones: Seq<Seq<char>>, alert: int) -> Seq<(int, Seq<char>)>
    decreases zones.len(),
{
    if zones.len() == 0 {
        Seq::empty()
    } else {
        noted(zones.drop_last(), alert).push((alert, zones.last()))
    }
}

/// The alerts to note, each as the position of the alert among `alerts` and
/// the zone to note it for: alert by alert, every zone that the alert affects
/// and that is among `zones`.
pub open spec fn alert_notes(alerts: Seq<WeatherAlert>, zones: Seq<Seq<char>>) -> Seq<
    (int, Seq<char>),
>
    decreases alerts.len(),
{
    if alerts.len() == 0 {
        Seq::empty()
    } else {
        alert_notes(alerts.drop_last(), zones) + noted(
            affected_among(code_texts(alerts.last().affected_zones@), zones),
            alerts.len() - 1,
        )
    }
}

/// True when some alert affects `zone`.
pub open spec fn is_alerted(alerts: Seq<WeatherAlert>, zone: Seq<char>) -> bool {
    exists|i: int|
        0 <= i < alerts.len() && code_texts((#[trigger] alerts[i]).affected_zones@).contains(zone)
}

/// The zones among `zones` that no alert affects, each once, in the order in
/// which they first occur.
pub open spec fn unaffected(zones: Seq<Seq<char>>, alerts: Seq<WeatherAlert>) -> Seq<Seq<char>>
    decreases zones.len(),
{
    if zones.len() == 0 {
        Seq::empty()
    } else {
        let before = unaffected(zones.drop_last(), alerts);
        if is_alerted(alerts, zones.last()) || zones.drop_last().contains(zones.last()) {
            before
        } else {
            before.push(zones.last())
        }
    }
}

/// What follows from the provider's list of the active alerts.
#[derive(Debug, Clone, PartialEq, Eq)]
pub struct AlertUpdates {
    /// For the zones' aggregates: each alert, for each zone of the update that
    /// it affects.
    pub alerts: Vec<CommandEnvelope<LocationZoneCommand>>,
    /// For the saga: the alert step is done for each zone of the update that
    /// no alert affects.
    pub unaffected: Vec<CommandEnvelope<UpdateLocationsCommand>>,
}

/// True when `out` notes the alerts of `alerts` as `notes` lists them, each
/// addressed to its zone with a copy of its alert and the metadata `meta`.
pub open spec fn alerts_noted(
    out: Seq<CommandEnvelope<LocationZoneCommand>>,
    alerts: Seq<WeatherAlert>,
    notes: Seq<(int, Seq<char>)>,
    meta: Seq<(Seq<char>, Seq<char>)>,
) -> bool {
    &&& out.len() == notes.len()
    &&& forall|k: int|
        0 <= k < out.len() ==> {
            &&& (#[trigger] out[k]).target() == notes[k].1
            &&& 0 <= notes[k].0 < alerts.len()
            &&& out[k].command() matches LocationZoneCommand::NoteAlert(Some(alert)) && same_alert(
                alerts[notes[k].0],
                alert,
            )
            &&& out[k].meta() == meta
        }
}

/// True when `out` tells the saga `saga_id`, for each of `zones` in order,
/// that the zone's alert step is done, with the metadata `meta`.
pub open spec fn steps_noted(
    out: Seq<CommandEnvelope<UpdateLocationsCommand>>,
    saga_id: Seq<char>,
    zones: Seq<Seq<char>>,
    meta: Seq<(Seq<char>, Seq<char>)>,
) -> bool {
    &&& out.len() == zones.len()
    &&& forall|k: int|
        0 <= k < out.len() ==> {
            &&& (#[trigger] out[k]).target() == saga_id
            &&& out[k].command()@ == CommandModel::NoteLocationAlertStatusUpdated(zones[k])
            &&& out[k].meta() == meta
        }
}

/// What follows from the provider's list `alerts` for the update
/// `update_saga_id` of `zones`: every alert is noted for each zone of the
/// update that it affects, and the saga hears that the alert step is done for
/// each zone of the update that no alert affects.
pub fn update_alerts(
    update_saga_id: &String,
    zones: &Vec<LocationZoneCode>,
    alerts: &Vec<WeatherAlert>,
    metadata: &Metadata,
) -> (res: AlertUpdates)
    ensures
        alerts_noted(
            res.alerts@,
            alerts@,
            alert_notes(alerts@, code_texts(zones@)),
            metadata@,
        ),
        steps_noted(
            res.unaffected@,
            update_saga_id@,
            unaffected(code_texts(zones@), alerts@),
            metadata@,
        ),
{
    let ghost zone_texts = code_texts(zones@);
    let mut noted_alerts: Vec<CommandEnvelope<LocationZoneCommand>> = Vec::new();
    let mut i: usize = 0;
    while i < alerts.len()
        invariant
            i <= alerts.len(),
            zone_texts == code_texts(zones@),
            alerts_noted(
                noted_alerts@,
                alerts@,
                alert_notes(alerts@.take(i as int), zone_texts),
                metadata@,
            ),
        decreases alerts.len() - i,
    {
        let alert = &alerts[i];
        let ghost done = alert_notes(alerts@.take(i as int), zone_texts);
        let ghost affected = code_texts(alert.affected_zones@);
        let mut j: usize = 0;
        while j < alert.affected_zones.len()
            invariant
                j <= alert.affected_zones.len(),
                i < alerts.len(),
                *alert == alerts[i as int],
                affected == code_texts(alert.affected_zones@),
                zone_texts == code_texts(zones@),
                alerts_noted(
                    noted_alerts@,
                    alerts@,
                    done + noted(affected_among(affected.take(j as int), zone_texts), i as int),
                    metadata@,
                ),
            decreases alert.affected_zones.len() - j,
        {
            proof {
                assert(affected.take(j + 1).drop_last() =~= affected.take(j as int));
            }
            let zone = &alert.affected_zones[j];
            if find_code(zones, zone).is_some() {
                noted_alerts.push(
                    CommandEnvelope::new_with_metadata(
                        zone.to_text(),
                        LocationZoneCommand::NoteAlert(Some(alert.clone())),
                        metadata.clone(),
                    ),
                );
                proof {
                    let among = affected_among(affected.take(j as int), zone_texts);
                    let among_now = affected_among(affected.take(j + 1), zone_texts);
                    assert(among_now.drop_last() =~= among);
                }
            }
            j += 1;
        }
        proof {
            assert(affected.take(alert.affected_zones.len() as int) =~= affected);
            assert(alerts@.take(i + 1).drop_last() =~= alerts@.take(i as int));
        }
        i += 1;
    }
    proof {
        assert(alerts@.take(alerts.len() as int) =~= alerts@);
    }
    let mut notes: Vec<CommandEnvelope<UpdateLocationsCommand>> = Vec::new();
    let mut k: usize = 0;
    while k < zones.len()
        invariant
            k <= zones.len(),
            zone_texts == code_texts(zones@),
            steps_noted(
                notes@,
                update_saga_id@,
                unaffected(zone_texts.take(k as int), alerts@),
                metadata@,
            ),
        decreases zones.len() - k,
    {
        proof {
            assert(zone_texts.take(k + 1).drop_last() =~= zone_texts.take(k as int));
        }
        let zone = &zones[k];
        let first = find_code(zones, zone);
        let seen_before = match first {
            Some(position) => position < k,
            None => false,
        };
        proof {
            let earlier = zone_texts.take(k as int);
            if seen_before {
                assert(earlier[first->Some_0 as int] == zone@);
            } else if earlier.contains(zone@) {
                let e = choose|e: int| 0 <= e < earlier.len() && earlier[e] == zone@;
                assert(zones[e]@ == zone@);
            }
        }
        if !seen_before && !any_affects(alerts, zone) {
            notes.push(
                CommandEnvelope::new_with_metadata(
                    update_saga_id.clone(),
                    UpdateLocationsCommand::NoteLocationAlertStatusUpdated(zone.clone()),
                    metadata.clone(),
                ),
            );
        }
        k += 1;
    }
    proof {
        assert(zone_texts.take(zones.len() as int) =~= zone_texts);
    }
    AlertUpdates { alerts: noted_alerts, unaffected: notes }
}

/// True when one of `alerts` affects `zone`.
pub fn any_affects(alerts: &Vec<WeatherAlert>, zone: &LocationZoneCode) -> (res: bool)
    ensures
        res == is_alerted(alerts@, zone@),
{
    let mut i: usize = 0;
    while i < alerts.len()
        invariant
            i <= alerts.len(),
            forall|j: int|
                0 <= j < i ==> !code_texts((#[trigger] alerts[j]).affected_zones@).contains(zone@),
        decreases alerts.len() - i,
    {
        if alerts[i].affects(zone) {
            return true;
        }
        i += 1;
    }
    false
}

/// What the saga is to hear when a command for a zone could not be handed to
/// the zones' relay: the failure of the zone that the command was for, with
/// the command's metadata. A command that was handed over calls for nothing.
pub fn failure_note(
    update_saga_id: &String,
    command: &CommandEnvelope<LocationZoneCommand>,
    sent: bool,
) -> (res: Option<CommandEnvelope<UpdateLocationsCommand>>)
    ensures
        match res {
            None => sent,
            Some(note) => {
                &&& !sent
                &&& note.target() == update_saga_id@
                &&& note.command()@ == CommandModel::NoteLocationUpdateFailure(command.target())
                &&& note.meta() == command.meta()
            },
        },
{
    if sent {
        None
    } else {
        let zone = LocationZoneCode::new(command.target_id().clone());
        Some(
            CommandEnvelope::new_with_metadata(
                update_saga_id.clone(),
                UpdateLocationsCommand::NoteLocationUpdateFailure(zone),
                command.metadata().clone(),
            ),
        )
    }
}

} // verus!
