//! What holds of every run of the update saga: a zone ends at most once, the
//! saga ends at most once, and it completes exactly when every zone is done.

use crate::saga::{
    initial_statuses, note_failure, note_update, pending, saga_apply, saga_handle,
    saga_replay, saga_run, saga_step, sole_active, status_of, CommandModel, EventModel, LocationUpdateStatus,
    LocationUpdatedStep, LocationUpdatedSteps, SagaModel, Statuses, UpdateCompletionStatus,
};
use vstd::prelude::*;

verus! {

/// True when `event` records that the update of `zone` has ended.
pub open spec fn ends_zone(event: EventModel, zone: Seq<char>) -> bool {
    event matches EventModel::LocationUpdated(z, status) && z == zone && status is Right
}

/// How often `events` record that the update of `zone` has ended.
pub open spec fn ended_count(events: Seq<EventModel>, zone: Seq<char>) -> nat
    decreases events.len(),
{
    if events.len() == 0 {
        0
    } else {
        ended_count(events.drop_last(), zone) + if ends_zone(events.last(), zone) {
            1nat
        } else {
            0nat
        }
    }
}

/// How many of `events` end the saga.
pub open spec fn terminal_count(events: Seq<EventModel>) -> nat
    decreases events.len(),
{
    if events.len() == 0 {
        0
    } else {
        terminal_count(events.drop_last()) + if events.last().is_terminal() {
            1nat
        } else {
            0nat
        }
    }
}

/// The statuses that `events` leave behind when they are recorded, one after
/// the other, over `statuses`.
pub open spec fn recorded(statuses: Statuses, events: Seq<EventModel>) -> Statuses
    decreases events.len(),
{
    if events.len() == 0 {
        statuses
    } else {
        let before = recorded(statuses, events.drop_last());
        match events.last() {
            EventModel::LocationUpdated(zone, status) => before.insert(zone, status),
            _ => before,
        }
    }
}

/// True when some zone is pending.
pub open spec fn any_pending(statuses: Statuses) -> bool {
    exists|z: Seq<char>| #[trigger] statuses.contains_key(z) && pending(statuses[z])
}

/// True when some zone has failed.
pub open spec fn any_failed(statuses: Statuses) -> bool {
    exists|z: Seq<char>| #[trigger]
        statuses.contains_key(z) && statuses[z] == LocationUpdateStatus::Right(
            UpdateCompletionStatus::Failed,
        )
}

/// True when every zone has all three steps done or has ended in success.
pub open spec fn all_succeeded(statuses: Statuses) -> bool {
    forall|z: Seq<char>| #[trigger]
        statuses.contains_key(z) ==> statuses[z] == LocationUpdateStatus::Left(
            LocationUpdatedSteps::spec_all(),
        ) || statuses[z] == LocationUpdateStatus::Right(UpdateCompletionStatus::Succeeded)
}

proof fn lemma_push(events: Seq<EventModel>, event: EventModel, statuses: Statuses)
    ensures
        terminal_count(events.push(event)) == terminal_count(events) + if event.is_terminal() {
            1nat
        } else {
            0nat
        },
        forall|z: Seq<char>| #[trigger]
            ended_count(events.push(event), z) == ended_count(events, z) + if ends_zone(event, z) {
                1nat
            } else {
                0nat
            },
        recorded(statuses, events.push(event)) == match event {
            EventModel::LocationUpdated(zone, status) => recorded(statuses, events).insert(
                zone,
                status,
            ),
            _ => recorded(statuses, events),
        },
        forall|e: EventModel| events.push(event).contains(e) <==> (events.contains(e) || e == event),
{
    let pushed = events.push(event);
    assert(pushed.drop_last() =~= events);
    assert forall|e: EventModel| pushed.contains(e) <==> (events.contains(e) || e == event) by {
        if e == event {
            assert(pushed[events.len() as int] == e);
        }
    }
}

/// What the saga's state says of the events that led to it.
spec fn ends_inv(model: SagaModel, events: Seq<EventModel>) -> bool {
    match model {
        SagaModel::Quiescent => events.len() == 0,
        SagaModel::Active { saga_id, statuses } => {
            &&& terminal_count(events) == 0
            &&& forall|z: Seq<char>| #[trigger]
                ended_count(events, z) == if statuses.contains_key(z) && statuses[z] is Right {
                    1nat
                } else {
                    0nat
                }
        },
        SagaModel::Finished => {
            &&& terminal_count(events) == 1
            &&& forall|z: Seq<char>| #[trigger] ended_count(events, z) <= 1
        },
    }
}

proof fn lemma_ends_update(
    saga_id: Seq<char>,
    statuses: Statuses,
    events: Seq<EventModel>,
    zone: Seq<char>,
    step: LocationUpdatedStep,
)
    requires
        ends_inv(SagaModel::Active { saga_id, statuses }, events),
    ensures
        ({
            let model = SagaModel::Active { saga_id, statuses };
            let caused = note_update(statuses, zone, step);
            ends_inv(saga_replay(model, caused), events + caused)
        }),
{
    let model = SagaModel::Active { saga_id, statuses };
    let caused = note_update(statuses, zone, step);
    reveal_with_fuel(saga_replay, 3);
    if caused.len() > 0 {
        let first = caused[0];
        lemma_push(events, first, statuses);
        if caused.len() == 1 {
            assert(events + caused =~= events.push(first));
            let after = saga_replay(model, caused);
            assert forall|z: Seq<char>| #[trigger]
                ended_count(events.push(first), z) == if after->statuses.contains_key(z)
                    && after->statuses[z] is Right {
                    1nat
                } else {
                    0nat
                } by {}
        } else {
            let second = caused[1];
            lemma_push(events.push(first), second, statuses);
            assert(events + caused =~= events.push(first).push(second));
            assert forall|z: Seq<char>| #[trigger]
                ended_count(events.push(first).push(second), z) <= 1 by {}
        }
    }
}

proof fn lemma_ends_failure(
    saga_id: Seq<char>,
    statuses: Statuses,
    events: Seq<EventModel>,
    zone: Seq<char>,
)
    requires
        ends_inv(SagaModel::Active { saga_id, statuses }, events),
    ensures
        ({
            let model = SagaModel::Active { saga_id, statuses };
            let caused = note_failure(statuses, zone);
            ends_inv(saga_replay(model, caused), events + caused)
        }),
{
    let model = SagaModel::Active { saga_id, statuses };
    let caused = note_failure(statuses, zone);
    reveal_with_fuel(saga_replay, 3);
    if caused.len() > 0 {
        let first = caused[0];
        lemma_push(events, first, statuses);
        if caused.len() == 1 {
            assert(events + caused =~= events.push(first));
            let after = saga_replay(model, caused);
            assert forall|z: Seq<char>| #[trigger]
                ended_count(events.push(first), z) == if after->statuses.contains_key(z)
                    && after->statuses[z] is Right {
                    1nat
                } else {
                    0nat
                } by {}
        } else {
            let second = caused[1];
            lemma_push(events.push(first), second, statuses);
            assert(events + caused =~= events.push(first).push(second));
            assert forall|z: Seq<char>| #[trigger]
                ended_count(events.push(first).push(second), z) <= 1 by {}
        }
    }
}

proof fn lemma_ends_step(model: SagaModel, events: Seq<EventModel>, command: CommandModel)
    requires
        ends_inv(model, events),
    ensures
        ends_inv(saga_step(model, command).0, events + saga_step(model, command).1),
{
    let caused = saga_step(model, command).1;
    match saga_handle(model, command) {
        None => {},
        Some(_) => {
            match model {
                SagaModel::Quiescent => {
                    reveal_with_fuel(saga_replay, 2);
                    let first = caused[0];
                    lemma_push(events, first, Map::empty());
                    assert(events + caused =~= events.push(first));
                    assert forall|z: Seq<char>| #[trigger]
                        ended_count(events.push(first), z) == 0 by {}
                },
                SagaModel::Active { saga_id, statuses } => {
                    match command {
                        CommandModel::UpdateLocations(_, _) => {},
                        CommandModel::NoteLocationObservationUpdated(zone) => {
                            lemma_ends_update(
                                saga_id,
                                statuses,
                                events,
                                zone,
                                LocationUpdatedStep::Observation,
                            );
                        },
                        CommandModel::NoteLocationForecastUpdated(zone) => {
                            lemma_ends_update(
                                saga_id,
                                statuses,
                                events,
                                zone,
                                LocationUpdatedStep::Forecast,
                            );
                        },
                        CommandModel::NoteLocationAlertStatusUpdated(zone) => {
                            lemma_ends_update(
                                saga_id,
                                statuses,
                                events,
                                zone,
                                LocationUpdatedStep::Alert,
                            );
                        },
                        CommandModel::NoteLocationUpdateFailure(zone) => {
                            lemma_ends_failure(saga_id, statuses, events, zone);
                        },
                    }
                },
                SagaModel::Finished => {},
            }
        },
    }
}

proof fn lemma_ends_run(model: SagaModel, commands: Seq<CommandModel>)
    requires
        ends_inv(model, seq![]),
    ensures
        ends_inv(saga_run(model, commands).0, saga_run(model, commands).1),
    decreases commands.len(),
{
    if commands.len() > 0 {
        lemma_ends_run(model, commands.drop_last());
        let (before, events) = saga_run(model, commands.drop_last());
        lemma_ends_step(before, events, commands.last());
    }
}

/// In every run of a saga from its start, whatever the commands: the events
/// record the end of any one zone at most once, and at most one event ends the
/// saga.
pub proof fn law_ends_at_most_once(commands: Seq<CommandModel>, zone: Seq<char>)
    ensures
        ended_count(saga_run(SagaModel::Quiescent, commands).1, zone) <= 1,
        terminal_count(saga_run(SagaModel::Quiescent, commands).1) <= 1,
{
    lemma_ends_run(SagaModel::Quiescent, commands);
    let (model, events) = saga_run(SagaModel::Quiescent, commands);
}

/// What the state of a started saga says of the statuses that its events
/// have recorded over those `initial` ones.
spec fn done_inv(model: SagaModel, initial: Statuses, events: Seq<EventModel>) -> bool {
    let now = recorded(initial, events);
    match model {
        SagaModel::Quiescent => false,
        SagaModel::Active { saga_id, statuses } => {
            &&& statuses =~= now
            &&& any_pending(statuses)
            &&& !events.contains(EventModel::Completed)
            &&& !events.contains(EventModel::Failed)
        },
        SagaModel::Finished => {
            &&& !any_pending(now)
            &&& events.contains(EventModel::Completed) || any_failed(now)
            &&& events.contains(EventModel::Completed) || events.contains(EventModel::Failed)
        },
    }
}

proof fn lemma_done_update(
    saga_id: Seq<char>,
    statuses: Statuses,
    initial: Statuses,
    events: Seq<EventModel>,
    zone: Seq<char>,
    step: LocationUpdatedStep,
)
    requires
        done_inv(SagaModel::Active { saga_id, statuses }, initial, events),
    ensures
        ({
            let model = SagaModel::Active { saga_id, statuses };
            let caused = note_update(statuses, zone, step);
            done_inv(saga_replay(model, caused), initial, events + caused)
        }),
{
    let model = SagaModel::Active { saga_id, statuses };
    let caused = note_update(statuses, zone, step);
    reveal_with_fuel(saga_replay, 3);
    if caused.len() == 0 {
        assert(events + caused =~= events);
    } else {
        let first = caused[0];
        let steps = status_of(statuses, zone)->Left_0;
        let next = LocationUpdateStatus::Left(steps.spec_with(step));
        assert(first == EventModel::LocationUpdated(zone, next));
        lemma_push(events, first, initial);
        let after = statuses.insert(zone, next);
        if caused.len() == 1 {
            assert(caused.drop_last() =~= seq![]);
            assert(events + caused =~= events.push(first));
            assert(saga_replay(model, caused) == saga_apply(model, first));
            if pending(next) {
                assert(after.contains_key(zone) && pending(after[zone]));
            } else {
                assert(!sole_active(statuses, zone));
                if statuses.contains_key(zone) {
                    let other = choose|z: Seq<char>| #[trigger]
                        statuses.contains_key(z) && z != zone && pending(statuses[z]);
                    assert(after.contains_key(other) && pending(after[other]));
                }
            }
        } else {
            let second = caused[1];
            lemma_push(events.push(first), second, initial);
            assert(caused.drop_last() =~= seq![first]);
            assert(caused.drop_last().drop_last() =~= seq![]);
            assert(events + caused =~= events.push(first).push(second));
            let now = recorded(initial, events.push(first).push(second));
            assert(now =~= after);
            if any_pending(now) {
                let z = choose|z: Seq<char>| #[trigger] now.contains_key(z) && pending(now[z]);
                assert(z != zone);
                assert(statuses.contains_key(z) && z != zone && pending(statuses[z]));
            }
        }
    }
}

proof fn lemma_done_failure(
    saga_id: Seq<char>,
    statuses: Statuses,
    initial: Statuses,
    events: Seq<EventModel>,
    zone: Seq<char>,
)
    requires
        done_inv(SagaModel::Active { saga_id, statuses }, initial, events),
    ensures
        ({
            let model = SagaModel::Active { saga_id, statuses };
            let caused = note_failure(statuses, zone);
            done_inv(saga_replay(model, caused), initial, events + caused)
        }),
{
    let caused = note_failure(statuses, zone);
    reveal_with_fuel(saga_replay, 3);
    if caused.len() > 0 {
        let first = caused[0];
        let failed = LocationUpdateStatus::Right(UpdateCompletionStatus::Failed);
        lemma_push(events, first, initial);
        let after = statuses.insert(zone, failed);
        let witness = choose|z: Seq<char>| #[trigger]
            statuses.contains_key(z) && pending(statuses[z]);
        if caused.len() == 1 {
            assert(events + caused =~= events.push(first));
            if witness != zone {
                assert(after.contains_key(witness) && pending(after[witness]));
            } else {
                let other = choose|z: Seq<char>| #[trigger]
                    statuses.contains_key(z) && z != zone && pending(statuses[z]);
                assert(after.contains_key(other) && pending(after[other]));
            }
        } else {
            let second = caused[1];
            lemma_push(events.push(first), second, initial);
            assert(events + caused =~= events.push(first).push(second));
            let now = recorded(initial, events.push(first).push(second));
            assert(now.contains_key(zone) && now[zone] == failed);
        }
    }
}

proof fn lemma_done_step(
    model: SagaModel,
    initial: Statuses,
    events: Seq<EventModel>,
    command: CommandModel,
)
    requires
        done_inv(model, initial, events),
    ensures
        done_inv(saga_step(model, command).0, initial, events + saga_step(model, command).1),
{
    match saga_handle(model, command) {
        None => {},
        Some(_) => {
            match model {
                SagaModel::Quiescent => {},
                SagaModel::Active { saga_id, statuses } => {
                    match command {
                        CommandModel::UpdateLocations(_, _) => {},
                        CommandModel::NoteLocationObservationUpdated(zone) => {
                            lemma_done_update(
                                saga_id,
                                statuses,
                                initial,
                                events,
                                zone,
                                LocationUpdatedStep::Observation,
                            );
                        },
                        CommandModel::NoteLocationForecastUpdated(zone) => {
                            lemma_done_update(
                                saga_id,
                                statuses,
                                initial,
                                events,
                                zone,
                                LocationUpdatedStep::Forecast,
                            );
                        },
                        CommandModel::NoteLocationAlertStatusUpdated(zone) => {
                            lemma_done_update(
                                saga_id,
                                statuses,
                                initial,
                                events,
                                zone,
                                LocationUpdatedStep::Alert,
                            );
                        },
                        CommandModel::NoteLocationUpdateFailure(zone) => {
                            lemma_done_failure(saga_id, statuses, initial, events, zone);
                        },
                    }
                },
                SagaModel::Finished => {},
            }
        },
    }
}

proof fn lemma_done_run(model: SagaModel, initial: Statuses, commands: Seq<CommandModel>)
    requires
        done_inv(model, initial, seq![]),
    ensures
        done_inv(saga_run(model, commands).0, initial, saga_run(model, commands).1),
    decreases commands.len(),
{
    if commands.len() > 0 {
        lemma_done_run(model, initial, commands.drop_last());
        let (before, events) = saga_run(model, commands.drop_last());
        lemma_done_step(before, initial, events, commands.last());
    }
}

/// Once the update of a zone has ended, its status stays as it is: whatever
/// the next command, the saga either finishes or still holds the zone's
/// status unchanged. A finished saga takes no command and stays finished.
pub proof fn law_ended_stays_ended(model: SagaModel, command: CommandModel, zone: Seq<char>)
    ensures
        model is Active && model->statuses.contains_key(zone) && model->statuses[zone] is Right
            ==> match saga_step(model, command).0 {
            SagaModel::Active { statuses: after, .. } => after.contains_key(zone) && after[zone]
                == model->statuses[zone],
            SagaModel::Finished => true,
            SagaModel::Quiescent => false,
        },
        model is Finished ==> saga_step(model, command) == (model, Seq::<EventModel>::empty()),
{
    reveal_with_fuel(saga_replay, 3);
}

/// The saga right after the start of the update `saga_id` of `zones`.
pub open spec fn started(saga_id: Seq<char>, zones: Seq<Seq<char>>) -> SagaModel {
    saga_apply(SagaModel::Quiescent, EventModel::Started(saga_id, zones))
}

/// For a saga over at least one zone and any commands after its start:
///
/// - the events record the end of any one zone at most once, and at most one
///   of them ends the saga;
/// - the saga emits `Completed` or `Failed` exactly when no zone is pending
///   any more, `Completed` only where every zone is then done, and `Failed`
///   only where a zone has failed;
/// - unless the run completed over a zone that had failed before, which the
///   last clause leaves out, the saga has emitted `Completed` exactly when
///   every zone has all three steps done or has ended in success.
pub proof fn law_completion(
    saga_id: Seq<char>,
    zones: Seq<Seq<char>>,
    commands: Seq<CommandModel>,
    zone: Seq<char>,
)
    requires
        zones.len() > 0,
    ensures
        ({
            let (model, events) = saga_run(started(saga_id, zones), commands);
            let now = recorded(initial_statuses(zones), events);
            &&& ended_count(events, zone) <= 1
            &&& terminal_count(events) <= 1
            &&& (events.contains(EventModel::Completed) || events.contains(EventModel::Failed))
                <==> !any_pending(now)
            &&& events.contains(EventModel::Completed) ==> !any_pending(now)
            &&& events.contains(EventModel::Failed) ==> any_failed(now)
            &&& !(events.contains(EventModel::Completed) && any_failed(now)) ==> (events.contains(
                EventModel::Completed,
            ) <==> all_succeeded(now))
        }),
{
    let initial = initial_statuses(zones);
    let start = started(saga_id, zones);
    assert(initial.contains_key(zones[0]) && pending(initial[zones[0]]));
    lemma_done_run(start, initial, commands);
    assert forall|z: Seq<char>| #[trigger] ended_count(seq![], z) == 0 by {}
    lemma_ends_run(start, commands);
    lemma_failed_marks(start, initial, commands);
    let (model, events) = saga_run(start, commands);
    let now = recorded(initial, events);
    match model {
        SagaModel::Quiescent => {},
        SagaModel::Active { saga_id, statuses } => {},
        SagaModel::Finished => {
            if !any_failed(now) {
                assert forall|z: Seq<char>| #[trigger] now.contains_key(z) implies now[z]
                    == LocationUpdateStatus::Left(LocationUpdatedSteps::spec_all()) || now[z]
                    == LocationUpdateStatus::Right(UpdateCompletionStatus::Succeeded) by {}
            }
        },
    }
}

/// The zone and the step that a command notes as done, if it notes one.
pub open spec fn note_of(command: CommandModel) -> Option<(Seq<char>, LocationUpdatedStep)> {
    match command {
        CommandModel::NoteLocationObservationUpdated(zone) => Some(
            (zone, LocationUpdatedStep::Observation),
        ),
        CommandModel::NoteLocationForecastUpdated(zone) => Some(
            (zone, LocationUpdatedStep::Forecast),
        ),
        CommandModel::NoteLocationAlertStatusUpdated(zone) => Some(
            (zone, LocationUpdatedStep::Alert),
        ),
        _ => None,
    }
}

/// The steps that `commands` note as done for `zone`.
pub open spec fn noted_steps(commands: Seq<CommandModel>, zone: Seq<char>) -> LocationUpdatedSteps
    decreases commands.len(),
{
    if commands.len() == 0 {
        LocationUpdatedSteps::spec_empty()
    } else {
        let before = noted_steps(commands.drop_last(), zone);
        match note_of(commands.last()) {
            Some((z, step)) => if z == zone {
                before.spec_with(step)
            } else {
                before
            },
            None => before,
        }
    }
}

/// True when each of `commands` notes a step done for one of `zones`.
pub open spec fn notes_for_zones(commands: Seq<CommandModel>, zones: Seq<Seq<char>>) -> bool {
    forall|i: int|
        0 <= i < commands.len() ==> (#[trigger] note_of(commands[i])) is Some && zones.contains(
            note_of(commands[i])->Some_0.0,
        )
}

/// What the state of a saga that has only heard of steps done says of the
/// notes that it has heard.
spec fn noted_inv(
    model: SagaModel,
    zones: Seq<Seq<char>>,
    commands: Seq<CommandModel>,
    events: Seq<EventModel>,
) -> bool {
    match model {
        SagaModel::Quiescent => false,
        SagaModel::Active { saga_id, statuses } => {
            &&& forall|z: Seq<char>| statuses.contains_key(z) <==> zones.contains(z)
            &&& forall|z: Seq<char>|
                zones.contains(z) ==> #[trigger] statuses[z] == LocationUpdateStatus::Left(
                    noted_steps(commands, z),
                )
        },
        SagaModel::Finished => events.contains(EventModel::Completed),
    }
}

proof fn lemma_noted_run(saga_id: Seq<char>, zones: Seq<Seq<char>>, commands: Seq<CommandModel>)
    requires
        notes_for_zones(commands, zones),
    ensures
        noted_inv(
            saga_run(started(saga_id, zones), commands).0,
            zones,
            commands,
            saga_run(started(saga_id, zones), commands).1,
        ),
    decreases commands.len(),
{
    if commands.len() > 0 {
        let rest = commands.drop_last();
        assert forall|i: int| 0 <= i < rest.len() implies (#[trigger] note_of(rest[i])) is Some
            && zones.contains(note_of(rest[i])->Some_0.0) by {
            assert(rest[i] == commands[i]);
        }
        lemma_noted_run(saga_id, zones, rest);
        let (before, events) = saga_run(started(saga_id, zones), rest);
        let command = commands.last();
        assert(note_of(commands[commands.len() - 1]) is Some);
        let (zone, step) = note_of(command)->Some_0;
        reveal_with_fuel(saga_replay, 3);
        match before {
            SagaModel::Active { saga_id: id, statuses } => {
                let caused = note_update(statuses, zone, step);
                assert(saga_handle(before, command) == Some(caused));
                assert(statuses[zone] == LocationUpdateStatus::Left(noted_steps(rest, zone)));
                if caused.len() == 1 {
                    lemma_push(events, caused[0], statuses);
                    assert(caused.drop_last() =~= seq![]);
                } else if caused.len() == 2 {
                    lemma_push(events, caused[0], statuses);
                    lemma_push(events.push(caused[0]), caused[1], statuses);
                    assert(caused.drop_last() =~= seq![caused[0]]);
                    assert(events + caused =~= events.push(caused[0]).push(caused[1]));
                }
            },
            SagaModel::Finished => {
                assert(events + Seq::<EventModel>::empty() =~= events);
            },
            SagaModel::Quiescent => {},
        }
    }
}

/// The saga completes once every zone has all three steps done: for a saga
/// over at least one zone that hears nothing but steps done for its zones,
/// and hears of each step of each zone at least once, in whatever order and
/// however often, the run ends with the saga finished and `Completed` among
/// its events.
pub proof fn law_all_steps_complete(
    saga_id: Seq<char>,
    zones: Seq<Seq<char>>,
    commands: Seq<CommandModel>,
)
    requires
        zones.len() > 0,
        notes_for_zones(commands, zones),
        forall|z: Seq<char>| zones.contains(z) ==> #[trigger] noted_steps(commands, z).spec_is_all(),
    ensures
        saga_run(started(saga_id, zones), commands).0 is Finished,
        saga_run(started(saga_id, zones), commands).1.contains(EventModel::Completed),
{
    let initial = initial_statuses(zones);
    let start = started(saga_id, zones);
    assert(initial.contains_key(zones[0]) && pending(initial[zones[0]]));
    lemma_done_run(start, initial, commands);
    lemma_noted_run(saga_id, zones, commands);
    let (model, events) = saga_run(start, commands);
    match model {
        SagaModel::Active { saga_id: id, statuses } => {
            let z = choose|z: Seq<char>| #[trigger]
                statuses.contains_key(z) && pending(statuses[z]);
            assert(noted_steps(commands, z).spec_is_all());
        },
        _ => {},
    }
}

/// `Failed` is only ever emitted right after a zone's failure was recorded.
spec fn failed_inv(model: SagaModel, initial: Statuses, events: Seq<EventModel>) -> bool {
    let now = recorded(initial, events);
    match model {
        SagaModel::Finished => events.contains(EventModel::Failed) ==> any_failed(now),
        _ => !events.contains(EventModel::Failed),
    }
}

proof fn lemma_failed_step(
    model: SagaModel,
    initial: Statuses,
    events: Seq<EventModel>,
    command: CommandModel,
)
    requires
        failed_inv(model, initial, events),
    ensures
        failed_inv(saga_step(model, command).0, initial, events + saga_step(model, command).1),
{
    let caused = saga_step(model, command).1;
    reveal_with_fuel(saga_replay, 3);
    match saga_handle(model, command) {
        None => {},
        Some(_) => {
            if caused.len() == 1 {
                lemma_push(events, caused[0], initial);
            } else if caused.len() > 1 {
                let first = caused[0];
                let second = caused[1];
                lemma_push(events, first, initial);
                lemma_push(events.push(first), second, initial);
                assert(events + caused =~= events.push(first).push(second));
                if second == EventModel::Failed {
                    let zone = first->LocationUpdated_0;
                    let now = recorded(initial, events.push(first).push(second));
                    assert(now.contains_key(zone) && now[zone] == LocationUpdateStatus::Right(
                        UpdateCompletionStatus::Failed,
                    ));
                }
            }
        },
    }
}

proof fn lemma_failed_marks(model: SagaModel, initial: Statuses, commands: Seq<CommandModel>)
    requires
        model is Active,
    ensures
        failed_inv(saga_run(model, commands).0, initial, saga_run(model, commands).1),
    decreases commands.len(),
{
    if commands.len() > 0 {
        lemma_failed_marks(model, initial, commands.drop_last());
        let (before, events) = saga_run(model, commands.drop_last());
        lemma_failed_step(before, initial, events, commands.last());
    }
}

} // verus!
