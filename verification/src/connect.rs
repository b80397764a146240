//! The two ends of the fabric between aggregates: the query that broadcasts
//! an aggregate's events, and the relay that feeds an aggregate its commands.

use crate::envelope::{CommandEnvelope, EventEnvelope, Metadata};
use crate::seq_facts::reversed;
use vstd::prelude::*;

verus! {

/// True when `out` holds, for each of `events` in order, the event with its
/// metadata in an envelope that names `publisher` as its publisher.
pub open spec fn broadcast_of<E>(
    out: Seq<EventEnvelope<E>>,
    publisher: Seq<char>,
    events: Seq<(E, Metadata)>,
) -> bool {
    &&& out.len() == events.len()
    &&& forall|i: int|
        0 <= i < out.len() ==> {
            &&& (#[trigger] out[i]).publisher() == publisher
            &&& out[i].event() == events[i].0
            &&& out[i].meta() == events[i].1@
        }
}

/// The envelopes to broadcast for the events that the aggregate
/// `aggregate_id` has committed: one for each event, in the order of the
/// events, so that subscribers see a publisher's events in the order in
/// which they happened.
pub fn broadcast_envelopes<E>(aggregate_id: &String, events: Vec<(E, Metadata)>) -> (res: Vec<
    EventEnvelope<E>,
>)
    ensures
        broadcast_of(res@, aggregate_id@, events@),
{
    let mut out: Vec<EventEnvelope<E>> = Vec::new();
    let mut rest = reversed(events);
    while rest.len() > 0
        invariant
            rest.len() + out.len() == events.len(),
            forall|k: int| 0 <= k < rest.len() ==> rest[k] == events[events.len() - 1 - k],
            broadcast_of(out@, aggregate_id@, events@.take(out.len() as int)),
        decreases rest.len(),
    {
        let (event, metadata) = rest.pop().unwrap();
        out.push(EventEnvelope::new_with_metadata(aggregate_id.clone(), event, metadata));
    }
    out
}

/// What a relay does next.
#[derive(Debug, Clone, PartialEq, Eq)]
pub enum RelayAction<C> {
    /// Have the aggregate `aggregate_id` execute `command` with `metadata`,
    /// note a failure and go on with the next command whatever the outcome.
    Execute { aggregate_id: String, command: C, metadata: Metadata },
    /// End the task.
    Stop,
}

/// The relay of commands into one aggregate. Commands are executed one at a
/// time, in the order in which they reach the relay.
#[derive(Debug, Clone, Copy, PartialEq, Eq)]
pub struct CommandRelay;

impl CommandRelay {
    /// The relay.
    pub fn new() -> (res: Self) {
        CommandRelay
    }

    /// What the relay does with what its channel gave: a command is executed
    /// by the aggregate that it is addressed to, and the end of the channel
    /// ends the relay.
    pub fn next<C>(&self, received: Option<CommandEnvelope<C>>) -> (res: RelayAction<C>)
        ensures
            match received {
                Some(envelope) => res matches RelayAction::Execute {
                    aggregate_id,
                    command,
                    metadata,
                } && aggregate_id@ == envelope.target() && command == envelope.command()
                    && metadata@ == envelope.meta(),
                None => res is Stop,
            },
    {
        match received {
            Some(envelope) => {
                let (aggregate_id, command, metadata) = envelope.as_parts();
                RelayAction::Execute { aggregate_id, command, metadata }
            },
            None => RelayAction::Stop,
        }
    }
}

} // verus!
