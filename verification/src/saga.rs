//! The saga that updates the weather of a set of zones and notes, zone by
//! zone, which of the three steps of the update have been done.

use crate::keyed::{texts, TextMap};
use crate::seq_facts::{lemma_push_contains, reversed};
use crate::subscriber::SubscribeCommand;
use crate::zone_code::{code_texts, LocationZoneCode};
use vstd::prelude::*;
use vstd::string::StringExecFns;

verus! {

/// Tag under which the saga's events are stored.
pub const AGGREGATE_TYPE: &'static str = "update_locations";

/// One of the three steps that make up the update of a zone.
#[derive(Debug, Clone, Copy, PartialEq, Eq, Hash, Structural)]
pub enum LocationUpdatedStep {
    Observation,
    Forecast,
    Alert,
}

/// The steps of a zone's update that have been done: a subset of the three.
#[derive(Debug, Clone, Copy, PartialEq, Eq, Hash, Structural)]
pub struct LocationUpdatedSteps {
    pub observation: bool,
    pub forecast: bool,
    pub alert: bool,
}

impl LocationUpdatedSteps {
    /// No step done.
    pub open spec fn spec_empty() -> LocationUpdatedSteps {
        LocationUpdatedSteps { observation: false, forecast: false, alert: false }
    }

    /// All three steps done.
    pub open spec fn spec_all() -> LocationUpdatedSteps {
        LocationUpdatedSteps { observation: true, forecast: true, alert: true }
    }

    /// True when `step` is among the steps done.
    pub open spec fn spec_contains(self, step: LocationUpdatedStep) -> bool {
        match step {
            LocationUpdatedStep::Observation => self.observation,
            LocationUpdatedStep::Forecast => self.forecast,
            LocationUpdatedStep::Alert => self.alert,
        }
    }

    /// These steps and `step`.
    pub open spec fn spec_with(self, step: LocationUpdatedStep) -> LocationUpdatedSteps {
        match step {
            LocationUpdatedStep::Observation => LocationUpdatedSteps { observation: true, ..self },
            LocationUpdatedStep::Forecast => LocationUpdatedSteps { forecast: true, ..self },
            LocationUpdatedStep::Alert => LocationUpdatedSteps { alert: true, ..self },
        }
    }

    /// True when all three steps are done.
    pub open spec fn spec_is_all(self) -> bool {
        self == Self::spec_all()
    }

    /// No step done.
    #[verifier::when_used_as_spec(spec_empty)]
    pub fn empty() -> (res: LocationUpdatedSteps)
        ensures
            res == Self::spec_empty(),
    {
        LocationUpdatedSteps { observation: false, forecast: false, alert: false }
    }

    /// All three steps done.
    #[verifier::when_used_as_spec(spec_all)]
    pub fn all() -> (res: LocationUpdatedSteps)
        ensures
            res == Self::spec_all(),
    {
        LocationUpdatedSteps { observation: true, forecast: true, alert: true }
    }

    /// True when `step` is among the steps done.
    #[verifier::when_used_as_spec(spec_contains)]
    pub fn contains(self, step: LocationUpdatedStep) -> (res: bool)
        ensures
            res == self.spec_contains(step),
    {
        match step {
            LocationUpdatedStep::Observation => self.observation,
            LocationUpdatedStep::Forecast => self.forecast,
            LocationUpdatedStep::Alert => self.alert,
        }
    }

    /// These steps and `step`.
    #[verifier::when_used_as_spec(spec_with)]
    pub fn with(self, step: LocationUpdatedStep) -> (res: LocationUpdatedSteps)
        ensures
            res == self.spec_with(step),
    {
        match step {
            LocationUpdatedStep::Observation => LocationUpdatedSteps {
                observation: true,
                forecast: self.forecast,
                alert: self.alert,
            },
            LocationUpdatedStep::Forecast => LocationUpdatedSteps {
                observation: self.observation,
                forecast: true,
                alert: self.alert,
            },
            LocationUpdatedStep::Alert => LocationUpdatedSteps {
                observation: self.observation,
                forecast: self.forecast,
                alert: true,
            },
        }
    }

    /// True when all three steps are done.
    #[verifier::when_used_as_spec(spec_is_all)]
    pub fn is_all(self) -> (res: bool)
        ensures
            res == self.spec_is_all(),
    {
        self.observation && self.forecast && self.alert
    }
}

/// How the update of a zone ended.
#[derive(Debug, Clone, Copy, PartialEq, Eq, Hash, Structural)]
pub enum UpdateCompletionStatus {
    Succeeded,
    Failed,
}

/// Where the update of one zone stands: under way, with the steps done so far
/// (`Left`), or ended (`Right`).
#[derive(Debug, Clone, Copy, PartialEq, Eq, Hash, Structural)]
pub enum LocationUpdateStatus {
    Left(LocationUpdatedSteps),
    Right(UpdateCompletionStatus),
}

/// The status of a zone that the saga has heard nothing of yet.
pub open spec fn default_status() -> LocationUpdateStatus {
    LocationUpdateStatus::Left(LocationUpdatedSteps::spec_empty())
}

/// Whether a zone's update is under way or has ended.
pub trait LocationUpdateStatusExt {
    fn is_active(&self) -> bool;

    fn is_complete(&self) -> bool;
}

impl LocationUpdateStatusExt for LocationUpdateStatus {
    fn is_active(&self) -> (res: bool)
        ensures
            res == (*self is Left),
    {
        match self {
            LocationUpdateStatus::Left(_) => true,
            LocationUpdateStatus::Right(_) => false,
        }
    }

    fn is_complete(&self) -> (res: bool)
        ensures
            res == (*self is Right),
    {
        match self {
            LocationUpdateStatus::Left(_) => false,
            LocationUpdateStatus::Right(_) => true,
        }
    }
}

/// A zone counts as pending while it is under way with a step still to do. A
/// zone with all three steps done counts as done, like one that has ended.
pub open spec fn pending(status: LocationUpdateStatus) -> bool {
    match status {
        LocationUpdateStatus::Left(steps) => !steps.spec_is_all(),
        LocationUpdateStatus::Right(_) => false,
    }
}

/// Exec form of `pending`.
pub fn is_pending(status: &LocationUpdateStatus) -> (res: bool)
    ensures
        res == pending(*status),
{
    match status {
        LocationUpdateStatus::Left(steps) => !steps.is_all(),
        LocationUpdateStatus::Right(_) => false,
    }
}

/// What the saga is asked to do.
#[derive(Debug, PartialEq, Eq)]
pub enum UpdateLocationsCommand {
    /// Start the update `saga_id` of `zones`.
    UpdateLocations(String, Vec<LocationZoneCode>),
    NoteLocationObservationUpdated(LocationZoneCode),
    NoteLocationForecastUpdated(LocationZoneCode),
    NoteLocationAlertStatusUpdated(LocationZoneCode),
    NoteLocationUpdateFailure(LocationZoneCode),
}

/// A command as a mathematical value: ids and zones by their texts.
pub ghost enum CommandModel {
    UpdateLocations(Seq<char>, Seq<Seq<char>>),
    NoteLocationObservationUpdated(Seq<char>),
    NoteLocationForecastUpdated(Seq<char>),
    NoteLocationAlertStatusUpdated(Seq<char>),
    NoteLocationUpdateFailure(Seq<char>),
}

impl View for UpdateLocationsCommand {
    type V = CommandModel;

    open spec fn view(&self) -> CommandModel {
        match self {
            UpdateLocationsCommand::UpdateLocations(id, zones) => CommandModel::UpdateLocations(
                id@,
                code_texts(zones@),
            ),
            UpdateLocationsCommand::NoteLocationObservationUpdated(zone) =>
                CommandModel::NoteLocationObservationUpdated(zone@),
            UpdateLocationsCommand::NoteLocationForecastUpdated(zone) =>
                CommandModel::NoteLocationForecastUpdated(zone@),
            UpdateLocationsCommand::NoteLocationAlertStatusUpdated(zone) =>
                CommandModel::NoteLocationAlertStatusUpdated(zone@),
            UpdateLocationsCommand::NoteLocationUpdateFailure(zone) =>
                CommandModel::NoteLocationUpdateFailure(zone@),
        }
    }
}

impl Clone for UpdateLocationsCommand {
    fn clone(&self) -> (res: Self)
        ensures
            res@ == self@,
    {
        match self {
            UpdateLocationsCommand::UpdateLocations(id, zones) => {
                let copy = zones.clone();
                UpdateLocationsCommand::UpdateLocations(id.clone(), copy)
            },
            UpdateLocationsCommand::NoteLocationObservationUpdated(zone) =>
                UpdateLocationsCommand::NoteLocationObservationUpdated(zone.clone()),
            UpdateLocationsCommand::NoteLocationForecastUpdated(zone) =>
                UpdateLocationsCommand::NoteLocationForecastUpdated(zone.clone()),
            UpdateLocationsCommand::NoteLocationAlertStatusUpdated(zone) =>
                UpdateLocationsCommand::NoteLocationAlertStatusUpdated(zone.clone()),
            UpdateLocationsCommand::NoteLocationUpdateFailure(zone) =>
                UpdateLocationsCommand::NoteLocationUpdateFailure(zone.clone()),
        }
    }
}

/// A copy of a command is the same command.
pub proof fn law_copy_keeps_command(command: UpdateLocationsCommand, copy: UpdateLocationsCommand)
    requires
        vstd::pervasive::cloned(command, copy),
    ensures
        copy@ == command@,
{
}

/// The commands of a vector as mathematical values, in order.
pub open spec fn command_models(commands: Seq<UpdateLocationsCommand>) -> Seq<CommandModel> {
    commands.map_values(|c: UpdateLocationsCommand| c@)
}

/// An event as a mathematical value: ids and zones by their texts.
pub ghost enum EventModel {
    Started(Seq<char>, Seq<Seq<char>>),
    LocationUpdated(Seq<char>, LocationUpdateStatus),
    Completed,
    Failed,
}

impl EventModel {
    /// True for `Completed` and `Failed`, the events that end a saga.
    pub open spec fn is_terminal(self) -> bool {
        self is Completed || self is Failed
    }
}

/// The events of a vector as mathematical values, in order.
pub open spec fn event_models(events: Seq<UpdateLocationsEvent>) -> Seq<EventModel> {
    events.map_values(|e: UpdateLocationsEvent| e@)
}

/// What has happened in the saga.
#[derive(Debug, PartialEq, Eq)]
pub enum UpdateLocationsEvent {
    Started(String, Vec<LocationZoneCode>),
    LocationUpdated(LocationZoneCode, LocationUpdateStatus),
    Completed,
    Failed,
}

impl View for UpdateLocationsEvent {
    type V = EventModel;

    open spec fn view(&self) -> EventModel {
        match self {
            UpdateLocationsEvent::Started(id, zones) => EventModel::Started(
                id@,
                code_texts(zones@),
            ),
            UpdateLocationsEvent::LocationUpdated(zone, status) => EventModel::LocationUpdated(
                zone@,
                *status,
            ),
            UpdateLocationsEvent::Completed => EventModel::Completed,
            UpdateLocationsEvent::Failed => EventModel::Failed,
        }
    }
}

impl Clone for UpdateLocationsEvent {
    fn clone(&self) -> (res: Self)
        ensures
            res@ == self@,
    {
        match self {
            UpdateLocationsEvent::Started(id, zones) => {
                let copy = zones.clone();
                UpdateLocationsEvent::Started(id.clone(), copy)
            },
            UpdateLocationsEvent::LocationUpdated(zone, status) => {
                UpdateLocationsEvent::LocationUpdated(zone.clone(), *status)
            },
            UpdateLocationsEvent::Completed => UpdateLocationsEvent::Completed,
            UpdateLocationsEvent::Failed => UpdateLocationsEvent::Failed,
        }
    }
}

/// Version of the events' stored form.
pub const EVENT_VERSION: &'static str = "1.0";

impl UpdateLocationsEvent {
    /// The stable name under which each kind of event is stored.
    pub open spec fn stored_name(&self) -> Seq<char> {
        match self {
            UpdateLocationsEvent::Started(_, _) => "started"@,
            UpdateLocationsEvent::LocationUpdated(_, _) => "location_updated"@,
            UpdateLocationsEvent::Completed => "completed"@,
            UpdateLocationsEvent::Failed => "failed"@,
        }
    }

    /// The event's stored name.
    pub fn event_type(&self) -> (res: String)
        ensures
            res@ == self.stored_name(),
    {
        match self {
            UpdateLocationsEvent::Started(_, _) => String::from_str("started"),
            UpdateLocationsEvent::LocationUpdated(_, _) => String::from_str("location_updated"),
            UpdateLocationsEvent::Completed => String::from_str("completed"),
            UpdateLocationsEvent::Failed => String::from_str("failed"),
        }
    }

    /// The version of the event's stored form.
    pub fn event_version(&self) -> (res: String)
        ensures
            res@ == EVENT_VERSION@,
    {
        String::from_str(EVENT_VERSION)
    }
}

/// Why the saga did not take a command.
#[derive(Debug, Clone, PartialEq, Eq)]
pub enum UpdateLocationsError {
    /// The saga's state does not admit the command.
    RejectedCommand(String),
    /// The weather provider failed.
    Weather(String),
}

/// Statuses by zone text.
pub type Statuses = Map<Seq<char>, LocationUpdateStatus>;

/// The saga as a mathematical value.
#[verifier::ext_equal]
pub ghost enum SagaModel {
    Quiescent,
    Active { saga_id: Seq<char>, statuses: Statuses },
    Finished,
}

/// The statuses with which a saga over `zones` starts: each zone under way
/// with no step done.
pub open spec fn initial_statuses(zones: Seq<Seq<char>>) -> Statuses {
    Map::new(|z: Seq<char>| zones.contains(z), |z: Seq<char>| default_status())
}

/// The status of `zone`; a zone that the saga does not know is taken as under
/// way with no step done.
pub open spec fn status_of(statuses: Statuses, zone: Seq<char>) -> LocationUpdateStatus {
    if statuses.contains_key(zone) {
        statuses[zone]
    } else {
        default_status()
    }
}

/// True when some zone other than `zone` is pending.
pub open spec fn other_pending(statuses: Statuses, zone: Seq<char>) -> bool {
    exists|z: Seq<char>| #[trigger] statuses.contains_key(z) && z != zone && pending(statuses[z])
}

/// True when `zone` is known and under way and no other zone is pending: what
/// happens to `zone` decides how the saga ends.
pub open spec fn sole_active(statuses: Statuses, zone: Seq<char>) -> bool {
    &&& statuses.contains_key(zone)
    &&& statuses[zone] is Left
    &&& !other_pending(statuses, zone)
}

/// The events with which an active saga answers the note that `step` was done
/// for `zone`: none where the zone has ended or the step was noted before;
/// else the zone's new steps, followed by `Completed` where they are all
/// three and no other zone is pending.
pub open spec fn note_update(statuses: Statuses, zone: Seq<char>, step: LocationUpdatedStep) -> Seq<
    EventModel,
> {
    match status_of(statuses, zone) {
        LocationUpdateStatus::Right(_) => seq![],
        LocationUpdateStatus::Left(steps) => {
            if steps.spec_contains(step) {
                seq![]
            } else {
                let next = LocationUpdateStatus::Left(steps.spec_with(step));
                if steps.spec_with(step).spec_is_all() && sole_active(statuses, zone) {
                    seq![EventModel::LocationUpdated(zone, next), EventModel::Completed]
                } else {
                    seq![EventModel::LocationUpdated(zone, next)]
                }
            }
        },
    }
}

/// The events with which an active saga answers the note that the update of
/// `zone` failed: none where the zone has ended; else the zone's failure,
/// followed by `Failed` where no other zone is pending.
pub open spec fn note_failure(statuses: Statuses, zone: Seq<char>) -> Seq<EventModel> {
    let failed = LocationUpdateStatus::Right(UpdateCompletionStatus::Failed);
    match status_of(statuses, zone) {
        LocationUpdateStatus::Right(_) => seq![],
        LocationUpdateStatus::Left(_) => {
            if sole_active(statuses, zone) {
                seq![EventModel::LocationUpdated(zone, failed), EventModel::Failed]
            } else {
                seq![EventModel::LocationUpdated(zone, failed)]
            }
        },
    }
}

/// The events with which an active saga answers a command; `None` where it
/// rejects the command.
pub open spec fn active_handle(statuses: Statuses, command: CommandModel) -> Option<
    Seq<EventModel>,
> {
    match command {
        CommandModel::UpdateLocations(_, _) => None,
        CommandModel::NoteLocationObservationUpdated(zone) => Some(
            note_update(statuses, zone, LocationUpdatedStep::Observation),
        ),
        CommandModel::NoteLocationForecastUpdated(zone) => Some(
            note_update(statuses, zone, LocationUpdatedStep::Forecast),
        ),
        CommandModel::NoteLocationAlertStatusUpdated(zone) => Some(
            note_update(statuses, zone, LocationUpdatedStep::Alert),
        ),
        CommandModel::NoteLocationUpdateFailure(zone) => Some(note_failure(statuses, zone)),
    }
}

/// The events with which the saga answers a command; `None` where it rejects
/// the command. A saga at rest takes only the start of an update of at least
/// one zone; a finished saga takes nothing.
pub open spec fn saga_handle(model: SagaModel, command: CommandModel) -> Option<Seq<EventModel>> {
    match model {
        SagaModel::Quiescent => match command {
            CommandModel::UpdateLocations(id, zones) => if zones.len() > 0 {
                Some(seq![EventModel::Started(id, zones)])
            } else {
                None
            },
            _ => None,
        },
        SagaModel::Active { saga_id, statuses } => active_handle(statuses, command),
        SagaModel::Finished => None,
    }
}

/// The saga after `event`. An event that the state does not expect leaves the
/// saga as it is.
pub open spec fn saga_apply(model: SagaModel, event: EventModel) -> SagaModel {
    match model {
        SagaModel::Quiescent => match event {
            EventModel::Started(id, zones) => SagaModel::Active {
                saga_id: id,
                statuses: initial_statuses(zones),
            },
            _ => model,
        },
        SagaModel::Active { saga_id, statuses } => match event {
            EventModel::LocationUpdated(zone, status) => SagaModel::Active {
                saga_id,
                statuses: statuses.insert(zone, status),
            },
            EventModel::Completed => SagaModel::Finished,
            EventModel::Failed => SagaModel::Finished,
            EventModel::Started(_, _) => model,
        },
        SagaModel::Finished => model,
    }
}

/// The saga after each of `events` in turn.
pub open spec fn saga_replay(model: SagaModel, events: Seq<EventModel>) -> SagaModel
    decreases events.len(),
{
    if events.len() == 0 {
        model
    } else {
        saga_apply(saga_replay(model, events.drop_last()), events.last())
    }
}

/// The saga after `command`, with the events that the command caused. A
/// rejected command causes none and leaves the saga as it is.
pub open spec fn saga_step(model: SagaModel, command: CommandModel) -> (SagaModel, Seq<EventModel>) {
    match saga_handle(model, command) {
        Some(events) => (saga_replay(model, events), events),
        None => (model, seq![]),
    }
}

/// The saga after each of `commands` in turn, with all the events that they
/// caused, in order.
pub open spec fn saga_run(model: SagaModel, commands: Seq<CommandModel>) -> (
    SagaModel,
    Seq<EventModel>,
)
    decreases commands.len(),
{
    if commands.len() == 0 {
        (model, seq![])
    } else {
        let (before, events) = saga_run(model, commands.drop_last());
        let (after, caused) = saga_step(before, commands.last());
        (after, events + caused)
    }
}

/// The text with which each state rejects a command.
pub open spec fn rejection_text(model: SagaModel) -> Seq<char> {
    match model {
        SagaModel::Quiescent => "UpdateLocations saga cannot handle command until it starts an update"@,
        SagaModel::Active { .. } => "UpdateLocations saga is already updating locations"@,
        SagaModel::Finished => "Finished UpdateLocations saga does not handle commands"@,
    }
}

/// What `handle` owes for `command` in the state `model`: the events of
/// `saga_handle`, or the rejection where there are none.
pub open spec fn handled(
    model: SagaModel,
    command: CommandModel,
    res: Result<Vec<UpdateLocationsEvent>, UpdateLocationsError>,
) -> bool {
    match res {
        Ok(events) => saga_handle(model, command) == Some(event_models(events@)),
        Err(error) => {
            &&& saga_handle(model, command) is None
            &&& error matches UpdateLocationsError::RejectedCommand(text)
            &&& text@ == rejection_text(model)
        },
    }
}

/// The saga at rest, before an update has started.
#[derive(Debug, Default, Clone, Copy, PartialEq, Eq)]
pub struct QuiescentLocationsUpdate;

impl QuiescentLocationsUpdate {
    /// Takes the start of an update of at least one zone.
    pub fn handle(&self, command: UpdateLocationsCommand) -> (res: Result<
        Vec<UpdateLocationsEvent>,
        UpdateLocationsError,
    >)
        ensures
            handled(SagaModel::Quiescent, command@, res),
    {
        match command {
            UpdateLocationsCommand::UpdateLocations(id, zones) => {
                if zones.len() > 0 {
                    let ghost started = EventModel::Started(id@, code_texts(zones@));
                    let events = vec![UpdateLocationsEvent::Started(id, zones)];
                    proof {
                        assert(event_models(events@) =~= seq![started]);
                    }
                    Ok(events)
                } else {
                    Err(reject_quiescent())
                }
            },
            _ => Err(reject_quiescent()),
        }
    }

    /// The state after `event`: active after `Started`, else `None` for "as
    /// before".
    pub fn apply(&self, event: UpdateLocationsEvent) -> (res: Option<UpdateLocationsState>)
        ensures
            match res {
                Some(state) => state.wf() && state@ == saga_apply(SagaModel::Quiescent, event@),
                None => saga_apply(SagaModel::Quiescent, event@) == SagaModel::Quiescent,
            },
    {
        match event {
            UpdateLocationsEvent::Started(id, zones) => {
                let mut statuses: TextMap<LocationUpdateStatus> = TextMap::new();
                let mut i: usize = 0;
                while i < zones.len()
                    invariant
                        i <= zones.len(),
                        statuses.wf(),
                        statuses@ =~= initial_statuses(code_texts(zones@.take(i as int))),
                    decreases zones.len() - i,
                {
                    statuses.insert(
                        zones[i].to_text(),
                        LocationUpdateStatus::Left(LocationUpdatedSteps::empty()),
                    );
                    proof {
                        let known = code_texts(zones@.take(i as int));
                        let now = code_texts(zones@.take(i + 1));
                        assert(now =~= known.push(zones[i as int]@));
                        assert forall|z: Seq<char>| now.contains(z) <==> (known.contains(z) || z
                            == zones[i as int]@) by {
                            lemma_push_contains(known, zones[i as int]@, z);
                        }
                    }
                    i += 1;
                }
                proof {
                    assert(zones@.take(zones.len() as int) =~= zones@);
                }
                Some(
                    UpdateLocationsState::Active(
                        ActiveLocationsUpdate { aggregate_id: id, location_statuses: statuses },
                    ),
                )
            },
            _ => None,
        }
    }
}

fn reject_quiescent() -> (res: UpdateLocationsError)
    ensures
        res matches UpdateLocationsError::RejectedCommand(text) && text@ == rejection_text(
            SagaModel::Quiescent,
        ),
{
    UpdateLocationsError::RejectedCommand(
        String::from_str("UpdateLocations saga cannot handle command until it starts an update"),
    )
}

/// The statuses that `entries` give, zone by zone; of two statuses of one
/// zone the later counts.
pub open spec fn statuses_from(entries: Seq<(LocationZoneCode, LocationUpdateStatus)>) -> Statuses
    decreases entries.len(),
{
    if entries.len() == 0 {
        Map::empty()
    } else {
        statuses_from(entries.drop_last()).insert(entries.last().0@, entries.last().1)
    }
}

/// The saga while an update is under way.
#[derive(Debug, Clone, PartialEq, Eq)]
pub struct ActiveLocationsUpdate {
    aggregate_id: String,
    location_statuses: TextMap<LocationUpdateStatus>,
}

impl ActiveLocationsUpdate {
    /// Well-formedness of the stored statuses.
    pub closed spec fn wf(&self) -> bool {
        self.location_statuses.wf()
    }

    /// The id of the update.
    pub closed spec fn saga_id(&self) -> Seq<char> {
        self.aggregate_id@
    }

    /// The statuses by zone text.
    pub closed spec fn statuses(&self) -> Statuses {
        self.location_statuses@
    }

    /// The active saga `aggregate_id` with the statuses given, zone by zone;
    /// of two statuses of one zone the later counts.
    pub fn new(aggregate_id: String, statuses: Vec<(LocationZoneCode, LocationUpdateStatus)>) -> (res:
        Self)
        ensures
            res.wf(),
            res.saga_id() == aggregate_id@,
            res.statuses() == statuses_from(statuses@),
    {
        let mut location_statuses: TextMap<LocationUpdateStatus> = TextMap::new();
        let mut i: usize = 0;
        while i < statuses.len()
            invariant
                i <= statuses.len(),
                location_statuses.wf(),
                location_statuses@ == statuses_from(statuses@.take(i as int)),
            decreases statuses.len() - i,
        {
            proof {
                assert(statuses@.take(i + 1).drop_last() =~= statuses@.take(i as int));
            }
            location_statuses.insert(statuses[i].0.to_text(), statuses[i].1);
            i += 1;
        }
        proof {
            assert(statuses@.take(statuses.len() as int) =~= statuses@);
        }
        ActiveLocationsUpdate { aggregate_id, location_statuses }
    }

    /// The id of the update.
    pub fn aggregate_id(&self) -> (res: &String)
        ensures
            res@ == self.saga_id(),
    {
        &self.aggregate_id
    }

    /// The status of `zone`, if the saga knows the zone.
    pub fn status(&self, zone: &LocationZoneCode) -> (res: Option<LocationUpdateStatus>)
        requires
            self.wf(),
        ensures
            res == if self.statuses().contains_key(zone@) {
                Some(self.statuses()[zone@])
            } else {
                None
            },
    {
        match self.location_statuses.get(zone.text()) {
            Some(status) => Some(*status),
            None => None,
        }
    }

    /// The zones that the saga knows, in the order in which it first heard of
    /// them, each once.
    pub closed spec fn known_zones(&self) -> Seq<Seq<char>> {
        self.location_statuses.keys()
    }

    /// The zones that the saga knows, in the order in which it first heard of
    /// them, each with its status.
    pub fn zone_statuses(&self) -> (res: Vec<(String, LocationUpdateStatus)>)
        requires
            self.wf(),
        ensures
            res.len() == self.statuses().dom().len(),
            res.len() == self.known_zones().len(),
            forall|i: int| 0 <= i < res.len() ==> (#[trigger] res[i]).0@ == self.known_zones()[i],
            forall|i: int|
                0 <= i < res.len() ==> self.statuses().contains_key(#[trigger] res[i].0@)
                    && self.statuses()[res[i].0@] == res[i].1,
            forall|z: Seq<char>|
                self.statuses().contains_key(z) ==> exists|i: int|
                    0 <= i < res.len() && #[trigger] res[i].0@ == z,
    {
        let mut out: Vec<(String, LocationUpdateStatus)> = Vec::new();
        let mut i: usize = 0;
        proof {
            self.location_statuses.lemma_keys();
        }
        while i < self.location_statuses.len()
            invariant
                self.location_statuses.wf(),
                i <= self.location_statuses.keys().len(),
                out.len() == i,
                forall|j: int|
                    0 <= j < i ==> (#[trigger] out[j]).0@ == self.location_statuses.keys()[j]
                        && self.location_statuses@.contains_key(out[j].0@)
                        && self.location_statuses@[out[j].0@] == out[j].1,
            decreases self.location_statuses.keys().len() - i,
        {
            let key = self.location_statuses.key_at(i).clone();
            let status = *self.location_statuses.value_at(i);
            out.push((key, status));
            i += 1;
        }
        proof {
            let keys = self.location_statuses.keys();
            assert forall|z: Seq<char>| self.statuses().contains_key(z) implies exists|i: int|
                0 <= i < out.len() && #[trigger] out[i].0@ == z by {
                let k = choose|k: int| 0 <= k < keys.len() && keys[k] == z;
                assert(out[k].0@ == z);
            }
        }
        out
    }

    /// Answers a command while the update is under way.
    pub fn handle(&self, command: UpdateLocationsCommand) -> (res: Result<
        Vec<UpdateLocationsEvent>,
        UpdateLocationsError,
    >)
        requires
            self.wf(),
        ensures
            handled(
                SagaModel::Active { saga_id: self.saga_id(), statuses: self.statuses() },
                command@,
                res,
            ),
    {
        match command {
            UpdateLocationsCommand::UpdateLocations(_, _) => Err(
                UpdateLocationsError::RejectedCommand(
                    String::from_str("UpdateLocations saga is already updating locations"),
                ),
            ),
            UpdateLocationsCommand::NoteLocationObservationUpdated(zone) => Ok(
                self.handle_location_update(zone, LocationUpdatedStep::Observation),
            ),
            UpdateLocationsCommand::NoteLocationForecastUpdated(zone) => Ok(
                self.handle_location_update(zone, LocationUpdatedStep::Forecast),
            ),
            UpdateLocationsCommand::NoteLocationAlertStatusUpdated(zone) => Ok(
                self.handle_location_update(zone, LocationUpdatedStep::Alert),
            ),
            UpdateLocationsCommand::NoteLocationUpdateFailure(zone) => Ok(
                self.handle_location_failure(zone),
            ),
        }
    }

    /// Notes that `step` was done for `zone`. Nothing happens where the zone
    /// has ended or the step was noted before; else the step is recorded, and
    /// the saga completes where that was the last step still to do anywhere.
    pub fn handle_location_update(&self, zone: LocationZoneCode, step: LocationUpdatedStep) -> (res:
        Vec<UpdateLocationsEvent>)
        requires
            self.wf(),
        ensures
            event_models(res@) == note_update(self.statuses(), zone@, step),
    {
        let previous = match self.location_statuses.get(zone.text()) {
            Some(status) => *status,
            None => LocationUpdateStatus::Left(LocationUpdatedSteps::empty()),
        };
        let ghost text = zone@;
        match previous {
            LocationUpdateStatus::Right(_) => {
                let events: Vec<UpdateLocationsEvent> = Vec::new();
                proof {
                    assert(event_models(events@) =~= seq![]);
                }
                events
            },
            LocationUpdateStatus::Left(steps) => {
                if steps.contains(step) {
                    let events: Vec<UpdateLocationsEvent> = Vec::new();
                    proof {
                        assert(event_models(events@) =~= seq![]);
                    }
                    events
                } else {
                    let zone_steps = steps.with(step);
                    let next = LocationUpdateStatus::Left(zone_steps);
                    if zone_steps.is_all() && self.is_only_active_zone(&zone) {
                        let events = vec![
                            UpdateLocationsEvent::LocationUpdated(zone, next),
                            UpdateLocationsEvent::Completed,
                        ];
                        proof {
                            assert(event_models(events@) =~= seq![
                                EventModel::LocationUpdated(text, next),
                                EventModel::Completed,
                            ]);
                        }
                        events
                    } else {
                        let events = vec![UpdateLocationsEvent::LocationUpdated(zone, next)];
                        proof {
                            assert(event_models(events@) =~= seq![
                                EventModel::LocationUpdated(text, next),
                            ]);
                        }
                        events
                    }
                }
            },
        }
    }

    /// Notes that the update of `zone` failed. Nothing happens where the zone
    /// has ended; else the failure is recorded, and the saga fails where no
    /// other zone is pending.
    pub fn handle_location_failure(&self, zone: LocationZoneCode) -> (res: Vec<
        UpdateLocationsEvent,
    >)
        requires
            self.wf(),
        ensures
            event_models(res@) == note_failure(self.statuses(), zone@),
    {
        let previous = match self.location_statuses.get(zone.text()) {
            Some(status) => *status,
            None => LocationUpdateStatus::Left(LocationUpdatedSteps::empty()),
        };
        let failed = LocationUpdateStatus::Right(UpdateCompletionStatus::Failed);
        match previous {
            LocationUpdateStatus::Right(_) => {
                let events: Vec<UpdateLocationsEvent> = Vec::new();
                events
            },
            LocationUpdateStatus::Left(_) => {
                if self.is_only_active_zone(&zone) {
                    let events = vec![
                        UpdateLocationsEvent::LocationUpdated(zone, failed),
                        UpdateLocationsEvent::Failed,
                    ];
                    events
                } else {
                    let events = vec![UpdateLocationsEvent::LocationUpdated(zone, failed)];
                    events
                }
            },
        }
    }

    /// True when `zone` is known and under way and no other zone is pending.
    pub fn is_only_active_zone(&self, zone: &LocationZoneCode) -> (res: bool)
        requires
            self.wf(),
        ensures
            res == sole_active(self.statuses(), zone@),
    {
        match self.location_statuses.get(zone.text()) {
            None => false,
            Some(status) => {
                if !status.is_active() {
                    return false;
                }
                proof {
                    self.location_statuses.lemma_keys();
                }
                let mut i: usize = 0;
                while i < self.location_statuses.len()
                    invariant
                        self.location_statuses.wf(),
                        i <= self.location_statuses.keys().len(),
                        forall|j: int|
                            0 <= j < i && self.location_statuses.keys()[j] != zone@ ==> !pending(
                                self.location_statuses@[#[trigger] self.location_statuses.keys()[j]],
                            ),
                    decreases self.location_statuses.keys().len() - i,
                {
                    let other = self.location_statuses.key_at(i);
                    if !(*other == *zone.text()) && is_pending(self.location_statuses.value_at(i)) {
                        return false;
                    }
                    i += 1;
                }
                true
            },
        }
    }

    /// The state after `event`: a zone's new status is recorded, the end of
    /// the saga finishes it, anything else leaves it as it is.
    pub fn apply(self, event: UpdateLocationsEvent) -> (res: UpdateLocationsState)
        requires
            self.wf(),
        ensures
            res.wf(),
            res@ == saga_apply(
                SagaModel::Active { saga_id: self.saga_id(), statuses: self.statuses() },
                event@,
            ),
    {
        match event {
            UpdateLocationsEvent::LocationUpdated(zone, status) => {
                let mut next = self;
                next.location_statuses.insert(zone.to_text(), status);
                UpdateLocationsState::Active(next)
            },
            UpdateLocationsEvent::Completed => UpdateLocationsState::Finished(
                FinishedLocationsUpdate,
            ),
            UpdateLocationsEvent::Failed => UpdateLocationsState::Finished(FinishedLocationsUpdate),
            UpdateLocationsEvent::Started(_, _) => UpdateLocationsState::Active(self),
        }
    }
}

/// The saga after it has ended.
#[derive(Debug, Default, Clone, Copy, PartialEq, Eq)]
pub struct FinishedLocationsUpdate;

impl FinishedLocationsUpdate {
    /// Rejects every command.
    pub fn handle(&self, command: UpdateLocationsCommand) -> (res: Result<
        Vec<UpdateLocationsEvent>,
        UpdateLocationsError,
    >)
        ensures
            handled(SagaModel::Finished, command@, res),
    {
        Err(
            UpdateLocationsError::RejectedCommand(
                String::from_str("Finished UpdateLocations saga does not handle commands"),
            ),
        )
    }

    /// No event changes a finished saga.
    pub fn apply(&self, event: UpdateLocationsEvent) -> (res: Option<UpdateLocationsState>)
        ensures
            res is None,
            saga_apply(SagaModel::Finished, event@) == SagaModel::Finished,
    {
        None
    }
}

/// The three states of the saga.
#[derive(Debug, Clone, PartialEq, Eq)]
pub enum UpdateLocationsState {
    Quiescent(QuiescentLocationsUpdate),
    Active(ActiveLocationsUpdate),
    Finished(FinishedLocationsUpdate),
}

impl View for UpdateLocationsState {
    type V = SagaModel;

    open spec fn view(&self) -> SagaModel {
        match self {
            UpdateLocationsState::Quiescent(_) => SagaModel::Quiescent,
            UpdateLocationsState::Active(active) => SagaModel::Active {
                saga_id: active.saga_id(),
                statuses: active.statuses(),
            },
            UpdateLocationsState::Finished(_) => SagaModel::Finished,
        }
    }
}

impl Default for UpdateLocationsState {
    /// The state of a saga that has not started.
    fn default() -> (res: Self)
        ensures
            res.wf(),
            res@ == SagaModel::Quiescent,
    {
        UpdateLocationsState::Quiescent(QuiescentLocationsUpdate)
    }
}

impl UpdateLocationsState {
    /// Well-formedness of the state's stored statuses.
    pub open spec fn wf(&self) -> bool {
        match self {
            UpdateLocationsState::Active(active) => active.wf(),
            _ => true,
        }
    }

    /// Answers `command` as the state at hand does.
    pub fn handle(&self, command: UpdateLocationsCommand) -> (res: Result<
        Vec<UpdateLocationsEvent>,
        UpdateLocationsError,
    >)
        requires
            self.wf(),
        ensures
            handled(self@, command@, res),
    {
        match self {
            UpdateLocationsState::Quiescent(state) => state.handle(command),
            UpdateLocationsState::Active(state) => state.handle(command),
            UpdateLocationsState::Finished(state) => state.handle(command),
        }
    }

    /// The state after `event`.
    pub fn apply(self, event: UpdateLocationsEvent) -> (res: Self)
        requires
            self.wf(),
        ensures
            res.wf(),
            res@ == saga_apply(self@, event@),
    {
        match self {
            UpdateLocationsState::Quiescent(state) => match state.apply(event) {
                Some(next) => next,
                None => UpdateLocationsState::Quiescent(state),
            },
            UpdateLocationsState::Active(state) => state.apply(event),
            UpdateLocationsState::Finished(state) => UpdateLocationsState::Finished(state),
        }
    }
}

/// The saga aggregate.
#[derive(Debug, Clone, PartialEq, Eq)]
pub struct UpdateLocations {
    state: UpdateLocationsState,
}

impl View for UpdateLocations {
    type V = SagaModel;

    closed spec fn view(&self) -> SagaModel {
        self.state@
    }
}

impl Default for UpdateLocations {
    /// A saga that has not started.
    fn default() -> (res: Self)
        ensures
            res.wf(),
            res@ == SagaModel::Quiescent,
    {
        UpdateLocations { state: UpdateLocationsState::default() }
    }
}

impl UpdateLocations {
    /// Well-formedness of the saga's stored statuses.
    pub closed spec fn wf(&self) -> bool {
        self.state.wf()
    }

    /// The saga in the state given, as a stored state is taken up again.
    pub fn from_state(state: UpdateLocationsState) -> (res: Self)
        requires
            state.wf(),
        ensures
            res.wf(),
            res@ == state@,
    {
        UpdateLocations { state }
    }

    /// The tag under which the saga's events are stored.
    pub fn aggregate_type() -> (res: String)
        ensures
            res@ == AGGREGATE_TYPE@,
    {
        String::from_str(AGGREGATE_TYPE)
    }

    /// The saga's state.
    pub fn state(&self) -> (res: &UpdateLocationsState)
        ensures
            res@ == self@,
            res.wf() == self.wf(),
    {
        &self.state
    }

    /// The saga's state, for storing it.
    pub fn into_state(self) -> (res: UpdateLocationsState)
        ensures
            res@ == self@,
            res.wf() == self.wf(),
    {
        self.state
    }

    /// Answers `command` with the events that it causes, without changing the
    /// saga; rejects a command that the state does not admit.
    pub fn handle(&self, command: UpdateLocationsCommand) -> (res: Result<
        Vec<UpdateLocationsEvent>,
        UpdateLocationsError,
    >)
        requires
            self.wf(),
        ensures
            handled(self@, command@, res),
    {
        self.state.handle(command)
    }

    /// Advances the saga by `event`.
    pub fn apply(&mut self, event: UpdateLocationsEvent)
        requires
            old(self).wf(),
        ensures
            final(self).wf(),
            final(self)@ == saga_apply(old(self)@, event@),
    {
        let mut state = UpdateLocationsState::default();
        core::mem::swap(&mut self.state, &mut state);
        self.state = state.apply(event);
    }

    /// Advances the saga by each of `events` in turn.
    pub fn apply_all(&mut self, events: &Vec<UpdateLocationsEvent>)
        requires
            old(self).wf(),
        ensures
            final(self).wf(),
            final(self)@ == saga_replay(old(self)@, event_models(events@)),
    {
        let mut i: usize = 0;
        while i < events.len()
            invariant
                i <= events.len(),
                self.wf(),
                self@ == saga_replay(old(self)@, event_models(events@.take(i as int))),
            decreases events.len() - i,
        {
            proof {
                assert(event_models(events@.take(i + 1)).drop_last() =~= event_models(
                    events@.take(i as int),
                ));
            }
            self.apply(events[i].clone());
            i += 1;
        }
        proof {
            assert(events@.take(events.len() as int) =~= events@);
        }
    }

    /// Handles `command` and advances the saga by the events that it causes,
    /// which are returned; a rejected command leaves the saga as it is.
    pub fn execute(&mut self, command: UpdateLocationsCommand) -> (res: Result<
        Vec<UpdateLocationsEvent>,
        UpdateLocationsError,
    >)
        requires
            old(self).wf(),
        ensures
            final(self).wf(),
            handled(old(self)@, command@, res),
            match res {
                Ok(events) => saga_step(old(self)@, command@) == (
                    final(self)@,
                    event_models(events@),
                ),
                Err(_) => saga_step(old(self)@, command@) == (
                    final(self)@,
                    Seq::<EventModel>::empty(),
                ) && final(self)@ == old(self)@,
            },
    {
        match self.handle(command) {
            Ok(events) => {
                self.apply_all(&events);
                Ok(events)
            },
            Err(error) => Err(error),
        }
    }

    /// Executes each of `commands` in turn and returns all the events that
    /// they caused, in order; rejected commands cause none.
    pub fn run(&mut self, commands: Vec<UpdateLocationsCommand>) -> (res: Vec<UpdateLocationsEvent>)
        requires
            old(self).wf(),
        ensures
            final(self).wf(),
            saga_run(old(self)@, command_models(commands@)) == (final(self)@, event_models(res@)),
    {
        let mut all: Vec<UpdateLocationsEvent> = Vec::new();
        let mut rest = reversed(commands);
        let ghost mut done: int = 0;
        while rest.len() > 0
            invariant
                0 <= done <= commands.len(),
                rest.len() + done == commands.len(),
                forall|k: int| 0 <= k < rest.len() ==> rest[k] == commands[commands.len() - 1 - k],
                self.wf(),
                saga_run(old(self)@, command_models(commands@.take(done))) == (
                    self@,
                    event_models(all@),
                ),
            decreases rest.len(),
        {
            let command = rest.pop().unwrap();
            proof {
                assert(command_models(commands@.take(done + 1)).drop_last() =~= command_models(
                    commands@.take(done),
                ));
            }
            match self.execute(command) {
                Ok(mut events) => {
                    all.append(&mut events);
                },
                Err(_) => {},
            }
            proof {
                done = done + 1;
            }
        }
        proof {
            assert(commands@.take(done) =~= commands@);
        }
        all
    }

    /// The saga that `events` lead to from the start. The same events always
    /// lead to the same saga.
    pub fn replay(events: &Vec<UpdateLocationsEvent>) -> (res: Self)
        ensures
            res.wf(),
            res@ == saga_replay(SagaModel::Quiescent, event_models(events@)),
    {
        let mut saga = UpdateLocations::default();
        saga.apply_all(events);
        saga
    }
}

/// Name of the read model of the saga.
pub const UPDATE_LOCATIONS_QUERY_VIEW: &'static str = "update_locations_query";

/// The read model of one update: the saga's state and the events that led to
/// it.
#[derive(Debug, Clone, PartialEq, Eq)]
pub struct UpdateLocationsView {
    state: UpdateLocationsState,
    history: Vec<UpdateLocationsEvent>,
}

impl Default for UpdateLocationsView {
    /// The view of a saga that has not started.
    fn default() -> (res: Self)
        ensures
            res.wf(),
            res.shown() == SagaModel::Quiescent,
            res.told() == Seq::<EventModel>::empty(),
    {
        let res = UpdateLocationsView { state: UpdateLocationsState::default(), history: Vec::new() };
        res
    }
}

impl UpdateLocationsView {
    /// Well-formedness of the state shown.
    pub closed spec fn wf(&self) -> bool {
        self.state.wf()
    }

    /// The state shown.
    pub closed spec fn shown(&self) -> SagaModel {
        self.state@
    }

    /// The events shown, in order.
    pub closed spec fn told(&self) -> Seq<EventModel> {
        event_models(self.history@)
    }

    /// The view of `state` and `history`, as a stored view is taken up again.
    pub fn from_parts(state: UpdateLocationsState, history: Vec<UpdateLocationsEvent>) -> (res: Self)
        requires
            state.wf(),
        ensures
            res.wf(),
            res.shown() == state@,
            res.told() == event_models(history@),
    {
        UpdateLocationsView { state, history }
    }

    /// The state and the history shown, for storing them.
    pub fn into_parts(self) -> (res: (UpdateLocationsState, Vec<UpdateLocationsEvent>))
        ensures
            res.0@ == self.shown(),
            res.0.wf() == self.wf(),
            event_models(res.1@) == self.told(),
    {
        (self.state, self.history)
    }

    /// Follows the saga: `event` joins the history, and the state moves as
    /// the saga's does.
    pub fn update(&mut self, event: &UpdateLocationsEvent)
        requires
            old(self).wf(),
        ensures
            final(self).wf(),
            final(self).told() == old(self).told().push(event@),
            final(self).shown() == saga_apply(old(self).shown(), event@),
    {
        self.history.push(event.clone());
        let mut state = UpdateLocationsState::default();
        core::mem::swap(&mut self.state, &mut state);
        self.state = state.apply(event.clone());
    }

    /// The state shown.
    pub fn state(&self) -> (res: &UpdateLocationsState)
        ensures
            res@ == self.shown(),
    {
        &self.state
    }

    /// The events shown, in order.
    pub fn history(&self) -> (res: &Vec<UpdateLocationsEvent>)
        ensures
            event_models(res@) == self.told(),
    {
        &self.history
    }
}

/// The subscription that an event calls for: the start of an update
/// subscribes the saga, under its id, to the events of each of its zones.
pub open spec fn subscription_of(event: EventModel) -> Option<(Seq<char>, Seq<Seq<char>>)> {
    match event {
        EventModel::Started(id, zones) => Some((id, zones)),
        _ => None,
    }
}

/// The request to subscribe that `event` calls for, if any.
pub fn subscription_for(event: &UpdateLocationsEvent) -> (res: Option<SubscribeCommand>)
    ensures
        match res {
            Some(SubscribeCommand::Add { subscriber_id, publisher_ids }) => subscription_of(event@)
                == Some((subscriber_id@, texts(publisher_ids@))),
            Some(SubscribeCommand::Remove { .. }) => false,
            None => subscription_of(event@) is None,
        },
{
    match event {
        UpdateLocationsEvent::Started(id, zones) => {
            let mut publisher_ids: Vec<String> = Vec::new();
            let mut i: usize = 0;
            while i < zones.len()
                invariant
                    i <= zones.len(),
                    texts(publisher_ids@) =~= code_texts(zones@.take(i as int)),
                decreases zones.len() - i,
            {
                let ghost before = publisher_ids@;
                publisher_ids.push(zones[i].to_text());
                proof {
                    assert(texts(publisher_ids@) =~= texts(before).push(zones[i as int]@));
                }
                i += 1;
            }
            Some(SubscribeCommand::Add { subscriber_id: id.clone(), publisher_ids })
        },
        _ => None,
    }
}

} // verus!
