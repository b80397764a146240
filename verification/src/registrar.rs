//! The registrar: the one aggregate that knows which forecast zones are
//! monitored.

use crate::envelope::{CommandEnvelope, Metadata, CORRELATION};
use crate::keyed::TextSet;
use crate::saga::{CommandModel, UpdateLocationsCommand};
use crate::zone::LocationZoneCommand;
use crate::zone_code::{code_texts, LocationZoneCode, LocationZoneType};
use vstd::prelude::*;
use vstd::string::StringExecFns;

verus! {

/// Tag under which the registrar's events are stored.
pub const AGGREGATE_TYPE: &'static str = "registrar";

/// The id of the one registrar there is.
pub const SINGLETON_ID: &'static str = "<singleton>";

/// Version of the events' stored form.
pub const EVENT_VERSION: &'static str = "1.0";

/// Name of the read model of the monitored zones.
pub const MONITORED_ZONES_QUERY_VIEW: &'static str = "monitored_zones_query";

/// Start of the text with which the registrar rejects a zone that it
/// monitors already; the zone's code follows.
pub const ALREADY_MONITORING: &'static str = "already monitoring location zone code: ";

/// The id of the one registrar there is.
pub fn singleton_id() -> (res: String)
    ensures
        res@ == SINGLETON_ID@,
{
    String::from_str(SINGLETON_ID)
}

/// What the registrar is asked to do.
#[derive(Debug, Clone, PartialEq, Eq)]
pub enum RegistrarCommand {
    UpdateWeather,
    MonitorForecastZone(LocationZoneCode),
    ClearZoneMonitoring,
    ForgetForecastZone(LocationZoneCode),
}

/// A command as a mathematical value: zones by their texts.
pub ghost enum RegistrarCommandModel {
    UpdateWeather,
    MonitorForecastZone(Seq<char>),
    ClearZoneMonitoring,
    ForgetForecastZone(Seq<char>),
}

impl View for RegistrarCommand {
    type V = RegistrarCommandModel;

    open spec fn view(&self) -> RegistrarCommandModel {
        match self {
            RegistrarCommand::UpdateWeather => RegistrarCommandModel::UpdateWeather,
            RegistrarCommand::MonitorForecastZone(zone) =>
                RegistrarCommandModel::MonitorForecastZone(zone@),
            RegistrarCommand::ClearZoneMonitoring => RegistrarCommandModel::ClearZoneMonitoring,
            RegistrarCommand::ForgetForecastZone(zone) => RegistrarCommandModel::ForgetForecastZone(
                zone@,
            ),
        }
    }
}

/// What has happened to the registrar.
#[derive(Debug, PartialEq, Eq)]
pub enum RegistrarEvent {
    ForecastZoneAdded(LocationZoneCode),
    ForecastZoneForgotten(LocationZoneCode),
    AllForecastZonesForgotten,
}

/// An event as a mathematical value: zones by their texts.
pub ghost enum RegistrarEventModel {
    ForecastZoneAdded(Seq<char>),
    ForecastZoneForgotten(Seq<char>),
    AllForecastZonesForgotten,
}

impl View for RegistrarEvent {
    type V = RegistrarEventModel;

    open spec fn view(&self) -> RegistrarEventModel {
        match self {
            RegistrarEvent::ForecastZoneAdded(zone) => RegistrarEventModel::ForecastZoneAdded(
                zone@,
            ),
            RegistrarEvent::ForecastZoneForgotten(zone) =>
                RegistrarEventModel::ForecastZoneForgotten(zone@),
            RegistrarEvent::AllForecastZonesForgotten =>
                RegistrarEventModel::AllForecastZonesForgotten,
        }
    }
}

impl Clone for RegistrarEvent {
    fn clone(&self) -> (res: Self)
        ensures
            res@ == self@,
    {
        match self {
            RegistrarEvent::ForecastZoneAdded(zone) => RegistrarEvent::ForecastZoneAdded(
                zone.clone(),
            ),
            RegistrarEvent::ForecastZoneForgotten(zone) => RegistrarEvent::ForecastZoneForgotten(
                zone.clone(),
            ),
            RegistrarEvent::AllForecastZonesForgotten => RegistrarEvent::AllForecastZonesForgotten,
        }
    }
}

impl RegistrarEvent {
    /// The stable name under which each kind of event is stored.
    pub open spec fn stored_name(&self) -> Seq<char> {
        match self {
            RegistrarEvent::ForecastZoneAdded(_) => "forecast_zone_added"@,
            RegistrarEvent::ForecastZoneForgotten(_) => "forecast_zone_forgotten"@,
            RegistrarEvent::AllForecastZonesForgotten => "all_forecast_zones_forgotten"@,
        }
    }

    /// The event's stored name.
    pub fn event_type(&self) -> (res: String)
        ensures
            res@ == self.stored_name(),
    {
        match self {
            RegistrarEvent::ForecastZoneAdded(_) => String::from_str("forecast_zone_added"),
            RegistrarEvent::ForecastZoneForgotten(_) => String::from_str("forecast_zone_forgotten"),
            RegistrarEvent::AllForecastZonesForgotten => String::from_str(
                "all_forecast_zones_forgotten",
            ),
        }
    }

    /// The version of the event's stored form.
    pub fn event_version(&self) -> (res: String)
        ensures
            res@ == EVENT_VERSION@,
    {
        String::from_str(EVENT_VERSION)
    }
}

/// The events of a vector as mathematical values, in order.
pub open spec fn registrar_event_models(events: Seq<RegistrarEvent>) -> Seq<RegistrarEventModel> {
    events.map_values(|e: RegistrarEvent| e@)
}

/// Why the registrar did not take a command.
#[derive(Debug, Clone, PartialEq, Eq)]
pub enum RegistrarError {
    /// The zone's aggregate failed to start watching the zone.
    LocationZone(String),
    /// The update saga failed to start.
    UpdateForecastZones(String),
    /// The registrar's state does not admit the command.
    RejectedCommand(String),
}

/// What is to be done outside the registrar before a command's events count.
#[derive(Debug, Clone, PartialEq, Eq)]
pub enum RegistrarEffect {
    /// Have the zone's own aggregate watch the zone.
    InitializeForecastZone(LocationZoneCode),
    /// Start an update of the weather of these zones.
    UpdateWeather(Vec<LocationZoneCode>),
}

/// An effect as a mathematical value.
pub ghost enum RegistrarEffectModel {
    InitializeForecastZone(Seq<char>),
    UpdateWeather(Seq<Seq<char>>),
}

impl View for RegistrarEffect {
    type V = RegistrarEffectModel;

    open spec fn view(&self) -> RegistrarEffectModel {
        match self {
            RegistrarEffect::InitializeForecastZone(zone) =>
                RegistrarEffectModel::InitializeForecastZone(zone@),
            RegistrarEffect::UpdateWeather(zones) => RegistrarEffectModel::UpdateWeather(
                code_texts(zones@),
            ),
        }
    }
}

/// The answer to a command that the registrar takes: what is to be done
/// outside first, and the events that count once that has succeeded.
#[derive(Debug, Clone, PartialEq, Eq)]
pub struct RegistrarDecision {
    pub effect: Option<RegistrarEffect>,
    pub events: Vec<RegistrarEvent>,
}

/// The events with which the registrar answers a command; `None` where it
/// rejects the command, which it does for a zone that it monitors already.
pub open spec fn registrar_events(codes: Set<Seq<char>>, command: RegistrarCommandModel) -> Option<
    Seq<RegistrarEventModel>,
> {
    match command {
        RegistrarCommandModel::UpdateWeather => Some(seq![]),
        RegistrarCommandModel::MonitorForecastZone(zone) => if codes.contains(zone) {
            None
        } else {
            Some(seq![RegistrarEventModel::ForecastZoneAdded(zone)])
        },
        RegistrarCommandModel::ClearZoneMonitoring => Some(
            seq![RegistrarEventModel::AllForecastZonesForgotten],
        ),
        RegistrarCommandModel::ForgetForecastZone(zone) => Some(
            seq![RegistrarEventModel::ForecastZoneForgotten(zone)],
        ),
    }
}

/// What a command that the registrar takes asks to be done outside: a new
/// zone is to be watched, and an update starts over the zones monitored, in
/// the order `zones` in which they were added.
pub open spec fn registrar_effect(zones: Seq<Seq<char>>, command: RegistrarCommandModel) -> Option<
    RegistrarEffectModel,
> {
    match command {
        RegistrarCommandModel::UpdateWeather => Some(RegistrarEffectModel::UpdateWeather(zones)),
        RegistrarCommandModel::MonitorForecastZone(zone) => Some(
            RegistrarEffectModel::InitializeForecastZone(zone),
        ),
        _ => None,
    }
}

/// The monitored zones after `event`: adding a zone that is there and
/// forgetting one that is not change nothing.
pub open spec fn registrar_apply(codes: Set<Seq<char>>, event: RegistrarEventModel) -> Set<
    Seq<char>,
> {
    match event {
        RegistrarEventModel::ForecastZoneAdded(zone) => codes.insert(zone),
        RegistrarEventModel::ForecastZoneForgotten(zone) => codes.remove(zone),
        RegistrarEventModel::AllForecastZonesForgotten => Set::empty(),
    }
}

/// The monitored zones after each of `events` in turn.
pub open spec fn registrar_replay(codes: Set<Seq<char>>, events: Seq<RegistrarEventModel>) -> Set<
    Seq<char>,
>
    decreases events.len(),
{
    if events.len() == 0 {
        codes
    } else {
        registrar_apply(registrar_replay(codes, events.drop_last()), events.last())
    }
}

/// The effect of a decision as a mathematical value.
pub open spec fn effect_model(effect: Option<RegistrarEffect>) -> Option<RegistrarEffectModel> {
    match effect {
        Some(e) => Some(e@),
        None => None,
    }
}

/// The registrar aggregate: the set of the zones monitored.
#[derive(Debug, Clone, PartialEq, Eq)]
pub struct Registrar {
    location_codes: TextSet,
}

impl View for Registrar {
    type V = Set<Seq<char>>;

    closed spec fn view(&self) -> Set<Seq<char>> {
        self.location_codes@
    }
}

impl Default for Registrar {
    /// A registrar that monitors no zone.
    fn default() -> (res: Self)
        ensures
            res.wf(),
            res@ == Set::<Seq<char>>::empty(),
            res.zones() == Seq::<Seq<char>>::empty(),
    {
        Registrar { location_codes: TextSet::new() }
    }
}

impl Registrar {
    /// Well-formedness: no zone is stored twice.
    pub closed spec fn wf(&self) -> bool {
        self.location_codes.wf()
    }

    /// The zones monitored, in the order in which they were added, each once.
    pub closed spec fn zones(&self) -> Seq<Seq<char>> {
        self.location_codes.elements()
    }

    /// `zones` lists the monitored zones without repetition.
    pub proof fn lemma_zones(self)
        requires
            self.wf(),
        ensures
            self.zones().no_duplicates(),
            self@ =~= self.zones().to_set(),
            self@.finite(),
    {
        self.location_codes.lemma_elements();
    }

    /// The registrar that monitors `zones`, as a stored state is taken up
    /// again.
    pub fn from_codes(zones: Vec<LocationZoneCode>) -> (res: Self)
        ensures
            res.wf(),
            res@ == crate::zone_code::code_set(zones@),
            res.zones() == first_occurrences(code_texts(zones@)),
    {
        let mut location_codes = TextSet::new();
        let mut i: usize = 0;
        while i < zones.len()
            invariant
                i <= zones.len(),
                location_codes.wf(),
                location_codes@ == crate::zone_code::code_set(zones@.take(i as int)),
                location_codes.elements() == first_occurrences(code_texts(zones@.take(i as int))),
            decreases zones.len() - i,
        {
            proof {
                location_codes.lemma_elements();
                let small = code_texts(zones@.take(i as int));
                let big = code_texts(zones@.take(i + 1));
                assert(big =~= small.push(zones[i as int]@));
                assert(big.drop_last() =~= small);
                assert forall|z: Seq<char>| big.to_set().contains(z) <==> small.to_set().insert(
                    zones[i as int]@,
                ).contains(z) by {
                    crate::seq_facts::lemma_push_contains(small, zones[i as int]@, z);
                }
            }
            let _ = location_codes.insert(zones[i].to_text());
            i += 1;
        }
        proof {
            assert(zones@.take(zones.len() as int) =~= zones@);
        }
        Registrar { location_codes }
    }

    /// The tag under which the registrar's events are stored.
    pub fn aggregate_type() -> (res: String)
        ensures
            res@ == AGGREGATE_TYPE@,
    {
        String::from_str(AGGREGATE_TYPE)
    }

    /// True when `zone` is monitored.
    pub fn is_monitored(&self, zone: &LocationZoneCode) -> (res: bool)
        requires
            self.wf(),
        ensures
            res == self@.contains(zone@),
    {
        self.location_codes.contains(zone.text())
    }

    /// The zones monitored, in the order in which they were added.
    pub fn location_codes(&self) -> (res: Vec<LocationZoneCode>)
        requires
            self.wf(),
        ensures
            code_texts(res@) == self.zones(),
    {
        let mut zones: Vec<LocationZoneCode> = Vec::new();
        let mut i: usize = 0;
        while i < self.location_codes.len()
            invariant
                self.location_codes.wf(),
                i <= self.location_codes.elements().len(),
                zones.len() == i,
                forall|j: int| 0 <= j < i ==> (#[trigger] zones[j])@ == self.location_codes.elements()[j],
            decreases self.location_codes.elements().len() - i,
        {
            zones.push(LocationZoneCode::new(self.location_codes.element_at(i).clone()));
            i += 1;
        }
        zones
    }

    /// Answers `command` without changing the registrar. A zone that is
    /// monitored already is rejected; every other command is taken, with the
    /// events of `registrar_events` and the outside work of
    /// `registrar_effect`.
    pub fn handle(&self, command: RegistrarCommand) -> (res: Result<
        RegistrarDecision,
        RegistrarError,
    >)
        requires
            self.wf(),
        ensures
            match res {
                Ok(decision) => {
                    &&& registrar_events(self@, command@) == Some(
                        registrar_event_models(decision.events@),
                    )
                    &&& effect_model(decision.effect) == registrar_effect(self.zones(), command@)
                },
                Err(error) => {
                    &&& registrar_events(self@, command@) is None
                    &&& command matches RegistrarCommand::MonitorForecastZone(zone)
                    &&& error matches RegistrarError::RejectedCommand(text)
                    &&& text@ == ALREADY_MONITORING@ + zone@
                },
            },
    {
        match command {
            RegistrarCommand::UpdateWeather => {
                let events: Vec<RegistrarEvent> = Vec::new();
                Ok(
                    RegistrarDecision {
                        effect: Some(RegistrarEffect::UpdateWeather(self.location_codes())),
                        events,
                    },
                )
            },
            RegistrarCommand::MonitorForecastZone(zone) => {
                if self.is_monitored(&zone) {
                    Err(
                        RegistrarError::RejectedCommand(
                            String::from_str(ALREADY_MONITORING).concat(zone.as_str()),
                        ),
                    )
                } else {
                    let watched = zone.clone();
                    let events = vec![RegistrarEvent::ForecastZoneAdded(zone)];
                    Ok(
                        RegistrarDecision {
                            effect: Some(RegistrarEffect::InitializeForecastZone(watched)),
                            events,
                        },
                    )
                }
            },
            RegistrarCommand::ClearZoneMonitoring => {
                let events = vec![RegistrarEvent::AllForecastZonesForgotten];
                Ok(RegistrarDecision { effect: None, events })
            },
            RegistrarCommand::ForgetForecastZone(zone) => {
                let events = vec![RegistrarEvent::ForecastZoneForgotten(zone)];
                Ok(RegistrarDecision { effect: None, events })
            },
        }
    }

    /// Advances the registrar by `event`. A zone that is added goes to the end
    /// of `zones` unless it is there; the others keep their order.
    pub fn apply(&mut self, event: RegistrarEvent)
        requires
            old(self).wf(),
        ensures
            final(self).wf(),
            final(self)@ == registrar_apply(old(self)@, event@),
            final(self).zones() == zones_after(old(self).zones(), event@),
    {
        proof {
            self.location_codes.lemma_elements();
        }
        match event {
            RegistrarEvent::ForecastZoneAdded(zone) => {
                let _ = self.location_codes.insert(zone.to_text());
            },
            RegistrarEvent::ForecastZoneForgotten(zone) => {
                let _ = self.location_codes.remove(zone.text());
            },
            RegistrarEvent::AllForecastZonesForgotten => {
                self.location_codes.clear();
            },
        }
    }

    /// Advances the registrar by each of `events` in turn.
    pub fn apply_all(&mut self, events: &Vec<RegistrarEvent>)
        requires
            old(self).wf(),
        ensures
            final(self).wf(),
            final(self)@ == registrar_replay(old(self)@, registrar_event_models(events@)),
            final(self).zones() == zones_replay(old(self).zones(), registrar_event_models(events@)),
    {
        let mut i: usize = 0;
        while i < events.len()
            invariant
                i <= events.len(),
                self.wf(),
                self@ == registrar_replay(
                    old(self)@,
                    registrar_event_models(events@.take(i as int)),
                ),
                self.zones() == zones_replay(
                    old(self).zones(),
                    registrar_event_models(events@.take(i as int)),
                ),
            decreases events.len() - i,
        {
            proof {
                assert(registrar_event_models(events@.take(i + 1)).drop_last()
                    =~= registrar_event_models(events@.take(i as int)));
            }
            self.apply(events[i].clone());
            i += 1;
        }
        proof {
            assert(events@.take(events.len() as int) =~= events@);
        }
    }

    /// The registrar that `events` lead to from the start. The same events
    /// always lead to the same registrar.
    pub fn replay(events: &Vec<RegistrarEvent>) -> (res: Self)
        ensures
            res.wf(),
            res@ == registrar_replay(Set::empty(), registrar_event_models(events@)),
            res.zones() == zones_replay(Seq::empty(), registrar_event_models(events@)),
    {
        let mut registrar = Registrar::default();
        registrar.apply_all(events);
        registrar
    }
}

/// The order of the monitored zones after each of `events` in turn.
pub open spec fn zones_replay(zones: Seq<Seq<char>>, events: Seq<RegistrarEventModel>) -> Seq<
    Seq<char>,
>
    decreases events.len(),
{
    if events.len() == 0 {
        zones
    } else {
        zones_after(zones_replay(zones, events.drop_last()), events.last())
    }
}

/// The texts of `codes` in the order in which they first occur, each once.
pub open spec fn first_occurrences(codes: Seq<Seq<char>>) -> Seq<Seq<char>>
    decreases codes.len(),
{
    if codes.len() == 0 {
        Seq::empty()
    } else {
        let before = first_occurrences(codes.drop_last());
        if before.contains(codes.last()) {
            before
        } else {
            before.push(codes.last())
        }
    }
}

/// The order of the monitored zones after `event`.
pub open spec fn zones_after(zones: Seq<Seq<char>>, event: RegistrarEventModel) -> Seq<Seq<char>> {
    match event {
        RegistrarEventModel::ForecastZoneAdded(zone) => if zones.contains(zone) {
            zones
        } else {
            zones.push(zone)
        },
        RegistrarEventModel::ForecastZoneForgotten(zone) => crate::keyed::without(zones, zone),
        RegistrarEventModel::AllForecastZonesForgotten => Seq::empty(),
    }
}

/// What becomes of a decision once the outside work that it asked for has
/// ended: its events count where the work succeeded, and the work's error is
/// the command's error where it failed.
pub fn conclude(decision: RegistrarDecision, outcome: Result<(), RegistrarError>) -> (res: Result<
    Vec<RegistrarEvent>,
    RegistrarError,
>)
    ensures
        res == match outcome {
            Ok(_) => Ok::<Vec<RegistrarEvent>, RegistrarError>(decision.events),
            Err(error) => Err(error),
        },
{
    match outcome {
        Ok(_) => Ok(decision.events),
        Err(error) => Err(error),
    }
}

/// The read model of the monitored zones.
#[derive(Debug, Clone, PartialEq, Eq)]
pub struct MonitoredZonesView {
    zones: TextSet,
}

impl View for MonitoredZonesView {
    type V = Set<Seq<char>>;

    closed spec fn view(&self) -> Set<Seq<char>> {
        self.zones@
    }
}

impl Default for MonitoredZonesView {
    /// The view that shows no zone.
    fn default() -> (res: Self)
        ensures
            res.wf(),
            res@ == Set::<Seq<char>>::empty(),
    {
        MonitoredZonesView { zones: TextSet::new() }
    }
}

impl MonitoredZonesView {
    /// Well-formedness: no zone is stored twice.
    pub closed spec fn wf(&self) -> bool {
        self.zones.wf()
    }

    /// The zones shown, in the order in which they were added, each once.
    pub closed spec fn listed(&self) -> Seq<Seq<char>> {
        self.zones.elements()
    }

    /// The view that shows `zones`, as a stored view is taken up again.
    pub fn from_zones(zones: Vec<String>) -> (res: Self)
        ensures
            res.wf(),
            res@ == crate::keyed::texts(zones@).to_set(),
            res.listed() == first_occurrences(crate::keyed::texts(zones@)),
    {
        let mut shown = TextSet::new();
        let mut i: usize = 0;
        while i < zones.len()
            invariant
                i <= zones.len(),
                shown.wf(),
                shown@ == crate::keyed::texts(zones@.take(i as int)).to_set(),
                shown.elements() == first_occurrences(crate::keyed::texts(zones@.take(i as int))),
            decreases zones.len() - i,
        {
            proof {
                shown.lemma_elements();
                let small = crate::keyed::texts(zones@.take(i as int));
                let big = crate::keyed::texts(zones@.take(i + 1));
                assert(big =~= small.push(zones[i as int]@));
                assert(big.drop_last() =~= small);
                assert forall|z: Seq<char>| big.to_set().contains(z) <==> small.to_set().insert(
                    zones[i as int]@,
                ).contains(z) by {
                    crate::seq_facts::lemma_push_contains(small, zones[i as int]@, z);
                }
            }
            let _ = shown.insert(zones[i].clone());
            i += 1;
        }
        proof {
            assert(zones@.take(zones.len() as int) =~= zones@);
        }
        MonitoredZonesView { zones: shown }
    }

    /// Follows the registrar: the view changes with `event` as the registrar
    /// does.
    pub fn update(&mut self, event: &RegistrarEvent)
        requires
            old(self).wf(),
        ensures
            final(self).wf(),
            final(self)@ == registrar_apply(old(self)@, event@),
            final(self).listed() == zones_after(old(self).listed(), event@),
    {
        proof {
            self.zones.lemma_elements();
        }
        match event {
            RegistrarEvent::ForecastZoneAdded(zone) => {
                let _ = self.zones.insert(zone.to_text());
            },
            RegistrarEvent::ForecastZoneForgotten(zone) => {
                let _ = self.zones.remove(zone.text());
            },
            RegistrarEvent::AllForecastZonesForgotten => {
                self.zones.clear();
            },
        }
    }

    /// The zones shown, in the order in which they were added.
    pub fn zones(&self) -> (res: Vec<String>)
        requires
            self.wf(),
        ensures
            crate::keyed::texts(res@) == self.listed(),
            crate::keyed::texts(res@).to_set() == self@,
    {
        let mut out: Vec<String> = Vec::new();
        let mut i: usize = 0;
        while i < self.zones.len()
            invariant
                self.zones.wf(),
                i <= self.zones.elements().len(),
                out.len() == i,
                forall|j: int| 0 <= j < i ==> (#[trigger] out[j])@ == self.zones.elements()[j],
            decreases self.zones.elements().len() - i,
        {
            out.push(self.zones.element_at(i).clone());
            i += 1;
        }
        proof {
            self.zones.lemma_elements();
        }
        out
    }
}

/// The command that has the aggregate of `zone` watch the zone, as a forecast
/// zone: what the registrar's effect `InitializeForecastZone` asks for.
pub fn initialize_forecast_zone(zone: &LocationZoneCode) -> (res: CommandEnvelope<
    LocationZoneCommand,
>)
    ensures
        res.target() == zone@,
        res.command() matches LocationZoneCommand::WatchZone(zone_type, watched) && zone_type
            == LocationZoneType::Forecast && watched@ == zone@,
        res.meta() == Seq::<(Seq<char>, Seq<char>)>::empty(),
{
    CommandEnvelope::new(
        zone.to_text(),
        LocationZoneCommand::WatchZone(LocationZoneType::Forecast, zone.clone()),
    )
}

/// The command that starts the update `saga_id` of `zones`, addressed to the
/// saga of that id and correlated with it: what the registrar's effect
/// `UpdateWeather` asks for. No zones, no update.
pub fn update_weather(saga_id: String, zones: Vec<LocationZoneCode>) -> (res: Option<
    CommandEnvelope<UpdateLocationsCommand>,
>)
    ensures
        match res {
            None => zones.len() == 0,
            Some(envelope) => {
                &&& zones.len() > 0
                &&& envelope.target() == saga_id@
                &&& envelope.command()@ == CommandModel::UpdateLocations(
                    saga_id@,
                    code_texts(zones@),
                )
                &&& envelope.meta() == seq![(CORRELATION@, saga_id@)]
            },
        },
{
    if zones.len() == 0 {
        None
    } else {
        let metadata = Metadata::correlation(&saga_id);
        let target = saga_id.clone();
        Some(
            CommandEnvelope::new_with_metadata(
                target,
                UpdateLocationsCommand::UpdateLocations(saga_id, zones),
                metadata,
            ),
        )
    }
}

/// Registrar services that do nothing and always succeed.
#[derive(Debug, Clone, Copy, PartialEq, Eq)]
pub struct HappyPathServices;

impl HappyPathServices {
    /// Succeeds without watching anything.
    pub fn initialize_forecast_zone(&self, zone: &LocationZoneCode) -> (res: Result<
        (),
        RegistrarError,
    >)
        ensures
            res is Ok,
    {
        Ok(())
    }

    /// Succeeds without starting an update.
    pub fn update_weather(&self, zones: &Vec<LocationZoneCode>) -> (res: Result<(), RegistrarError>)
        ensures
            res is Ok,
    {
        Ok(())
    }
}

/// The monitored zones after `command`, as one reads it off the command: a
/// zone to monitor is there afterwards, a zone to forget is not, and clearing
/// leaves none.
pub open spec fn reference_step(codes: Set<Seq<char>>, command: RegistrarCommandModel) -> Set<
    Seq<char>,
> {
    match command {
        RegistrarCommandModel::UpdateWeather => codes,
        RegistrarCommandModel::MonitorForecastZone(zone) => codes.insert(zone),
        RegistrarCommandModel::ClearZoneMonitoring => Set::empty(),
        RegistrarCommandModel::ForgetForecastZone(zone) => codes.remove(zone),
    }
}

/// `reference_step` for each of `commands` in turn.
pub open spec fn reference_run(codes: Set<Seq<char>>, commands: Seq<RegistrarCommandModel>) -> Set<
    Seq<char>,
>
    decreases commands.len(),
{
    if commands.len() == 0 {
        codes
    } else {
        reference_step(reference_run(codes, commands.drop_last()), commands.last())
    }
}

/// The monitored zones after the registrar has handled `command` and applied
/// the events that it answered with; a rejected command changes nothing.
pub open spec fn registrar_step(codes: Set<Seq<char>>, command: RegistrarCommandModel) -> Set<
    Seq<char>,
> {
    match registrar_events(codes, command) {
        Some(events) => registrar_replay(codes, events),
        None => codes,
    }
}

/// `registrar_step` for each of `commands` in turn.
pub open spec fn registrar_run(codes: Set<Seq<char>>, commands: Seq<RegistrarCommandModel>) -> Set<
    Seq<char>,
>
    decreases commands.len(),
{
    if commands.len() == 0 {
        codes
    } else {
        registrar_step(registrar_run(codes, commands.drop_last()), commands.last())
    }
}

/// Whatever the commands and their order, handling them one by one leaves the
/// registrar with the zones that `reference_run` reads off the commands.
pub proof fn law_commands_match_reference(
    codes: Set<Seq<char>>,
    commands: Seq<RegistrarCommandModel>,
)
    ensures
        registrar_run(codes, commands) == reference_run(codes, commands),
    decreases commands.len(),
{
    if commands.len() > 0 {
        law_commands_match_reference(codes, commands.drop_last());
        let before = registrar_run(codes, commands.drop_last());
        reveal_with_fuel(registrar_replay, 2);
        match registrar_events(before, commands.last()) {
            Some(events) => {
                if events.len() == 1 {
                    assert(events.drop_last() =~= seq![]);
                }
            },
            None => {
                assert(registrar_step(before, commands.last()) =~= reference_step(
                    before,
                    commands.last(),
                ));
            },
        }
    }
}

/// A zone is rejected exactly when it is monitored already, and a rejected
/// command changes nothing; to forget a zone that is not monitored, and to
/// clear when nothing is monitored, change nothing either.
pub proof fn law_no_ops(codes: Set<Seq<char>>, zone: Seq<char>)
    ensures
        registrar_events(codes, RegistrarCommandModel::MonitorForecastZone(zone)) is None
            <==> codes.contains(zone),
        codes.contains(zone) ==> registrar_step(
            codes,
            RegistrarCommandModel::MonitorForecastZone(zone),
        ) == codes,
        !codes.contains(zone) ==> registrar_step(
            codes,
            RegistrarCommandModel::ForgetForecastZone(zone),
        ) == codes,
        codes == Set::<Seq<char>>::empty() ==> registrar_step(
            codes,
            RegistrarCommandModel::ClearZoneMonitoring,
        ) == codes,
{
    reveal_with_fuel(registrar_replay, 2);
}

/// True when `events[i]` adds `zone` and no later event forgets the zone or
/// forgets all zones.
pub open spec fn added_last(events: Seq<RegistrarEventModel>, zone: Seq<char>, i: int) -> bool {
    &&& 0 <= i < events.len()
    &&& events[i] == RegistrarEventModel::ForecastZoneAdded(zone)
    &&& forall|j: int|
        i < j < events.len() ==> #[trigger] events[j] != RegistrarEventModel::ForecastZoneForgotten(
            zone,
        ) && events[j] != RegistrarEventModel::AllForecastZonesForgotten
}

/// After the replay of any events over no zones, a zone is monitored exactly
/// when it was added and, after that, neither forgotten nor swept away with
/// all zones: additions less removals, starting afresh at each
/// `AllForecastZonesForgotten`.
pub proof fn law_replay_membership(events: Seq<RegistrarEventModel>, zone: Seq<char>)
    ensures
        registrar_replay(Set::empty(), events).contains(zone) <==> exists|i: int|
            added_last(events, zone, i),
    decreases events.len(),
{
    if events.len() > 0 {
        let rest = events.drop_last();
        let last = events.last();
        law_replay_membership(rest, zone);
        let n = rest.len() as int;
        if registrar_replay(Set::empty(), events).contains(zone) {
            if last == RegistrarEventModel::ForecastZoneAdded(zone) {
                assert(added_last(events, zone, n));
            } else {
                let i = choose|i: int| added_last(rest, zone, i);
                assert forall|j: int| i < j < events.len() implies #[trigger] events[j]
                    != RegistrarEventModel::ForecastZoneForgotten(zone) && events[j]
                    != RegistrarEventModel::AllForecastZonesForgotten by {
                    if j < n {
                        assert(events[j] == rest[j]);
                    }
                }
                assert(added_last(events, zone, i));
            }
        }
        if exists|i: int| added_last(events, zone, i) {
            let i = choose|i: int| added_last(events, zone, i);
            if i < n {
                assert forall|j: int| i < j < rest.len() implies #[trigger] rest[j]
                    != RegistrarEventModel::ForecastZoneForgotten(zone) && rest[j]
                    != RegistrarEventModel::AllForecastZonesForgotten by {}
                assert(added_last(rest, zone, i));
            }
        }
    }
}

} // verus!
