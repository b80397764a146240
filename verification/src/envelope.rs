//! Envelopes in which events and commands travel between aggregates.

use vstd::prelude::*;
use vstd::string::StringExecFns;

verus! {

/// Key under which an envelope's metadata names the update that it belongs to.
pub const CORRELATION: &'static str = "correlation";

/// Text pairs that accompany an event or a command, in the order in which
/// they were added. Viewed as the sequence of the pairs' texts.
#[derive(Debug, PartialEq, Eq)]
pub struct Metadata {
    entries: Vec<(String, String)>,
}

/// The texts of a sequence of pairs, in order.
pub open spec fn pair_texts(pairs: Seq<(String, String)>) -> Seq<(Seq<char>, Seq<char>)> {
    pairs.map_values(|p: (String, String)| (p.0@, p.1@))
}

impl View for Metadata {
    type V = Seq<(Seq<char>, Seq<char>)>;

    closed spec fn view(&self) -> Seq<(Seq<char>, Seq<char>)> {
        pair_texts(self.entries@)
    }
}

impl Clone for Metadata {
    fn clone(&self) -> (res: Self)
        ensures
            res@ == self@,
    {
        let mut entries: Vec<(String, String)> = Vec::new();
        let mut i: usize = 0;
        while i < self.entries.len()
            invariant
                i <= self.entries.len(),
                entries.len() == i,
                forall|j: int|
                    0 <= j < i ==> (#[trigger] entries[j]).0@ == self.entries[j].0@ && entries[j].1@
                        == self.entries[j].1@,
            decreases self.entries.len() - i,
        {
            let key = self.entries[i].0.clone();
            let value = self.entries[i].1.clone();
            entries.push((key, value));
            i += 1;
        }
        Metadata { entries }
    }
}

impl Metadata {
    /// No pairs.
    pub fn new() -> (res: Self)
        ensures
            res@ == Seq::<(Seq<char>, Seq<char>)>::empty(),
    {
        let res = Metadata { entries: Vec::new() };
        res
    }

    /// The metadata that ties a command to the update `saga_id`: the one pair
    /// of `correlation` and the id.
    pub fn correlation(saga_id: &String) -> (res: Self)
        ensures
            res@ == seq![(CORRELATION@, saga_id@)],
    {
        let mut entries: Vec<(String, String)> = Vec::new();
        entries.push((String::from_str(CORRELATION), saga_id.clone()));
        let res = Metadata { entries };
        res
    }

    /// Adds the pair of `key` and `value` at the end.
    pub fn push(&mut self, key: String, value: String)
        ensures
            final(self)@ == old(self)@.push((key@, value@)),
    {
        self.entries.push((key, value));
    }

    /// Number of pairs.
    pub fn len(&self) -> (res: usize)
        ensures
            res == self@.len(),
    {
        self.entries.len()
    }

    /// The pair at position `i`.
    pub fn entry(&self, i: usize) -> (res: (&String, &String))
        requires
            i < self@.len(),
        ensures
            res.0@ == self@[i as int].0,
            res.1@ == self@[i as int].1,
    {
        (&self.entries[i].0, &self.entries[i].1)
    }
}

/// An event together with the id of the aggregate that published it.
#[derive(Debug, Clone, PartialEq, Eq)]
pub struct EventEnvelope<E> {
    publisher_id: String,
    event: E,
    metadata: Metadata,
}

impl<E> EventEnvelope<E> {
    /// The text of the publisher's id.
    pub closed spec fn publisher(&self) -> Seq<char> {
        self.publisher_id@
    }

    /// The event carried.
    pub closed spec fn event(&self) -> E {
        self.event
    }

    /// The metadata carried.
    pub closed spec fn meta(&self) -> Seq<(Seq<char>, Seq<char>)> {
        self.metadata@
    }

    /// An envelope without metadata.
    pub fn new(aggregate_id: String, event: E) -> (res: Self)
        ensures
            res.publisher() == aggregate_id@,
            res.event() == event,
            res.meta() == Seq::<(Seq<char>, Seq<char>)>::empty(),
    {
        Self::new_with_metadata(aggregate_id, event, Metadata::new())
    }

    /// An envelope with the metadata given.
    pub fn new_with_metadata(aggregate_id: String, event: E, metadata: Metadata) -> (res: Self)
        ensures
            res.publisher() == aggregate_id@,
            res.event() == event,
            res.meta() == metadata@,
    {
        EventEnvelope { publisher_id: aggregate_id, event, metadata }
    }

    /// The envelope taken apart.
    pub fn as_parts(self) -> (res: (String, E, Metadata))
        ensures
            res.0@ == self.publisher(),
            res.1 == self.event(),
            res.2@ == self.meta(),
    {
        (self.publisher_id, self.event, self.metadata)
    }

    /// The publisher's id.
    pub fn publisher_id(&self) -> (res: &String)
        ensures
            res@ == self.publisher(),
    {
        &self.publisher_id
    }

    /// The event carried.
    pub fn payload(&self) -> (res: &E)
        ensures
            *res == self.event(),
    {
        &self.event
    }

    /// The metadata carried.
    pub fn metadata(&self) -> (res: &Metadata)
        ensures
            res@ == self.meta(),
    {
        &self.metadata
    }
}

/// A command together with the id of the aggregate that is to take it.
#[derive(Debug, Clone, PartialEq, Eq)]
pub struct CommandEnvelope<C> {
    target_id: String,
    command: C,
    metadata: Metadata,
}

impl<C> CommandEnvelope<C> {
    /// The text of the target's id.
    pub closed spec fn target(&self) -> Seq<char> {
        self.target_id@
    }

    /// The command carried.
    pub closed spec fn command(&self) -> C {
        self.command
    }

    /// The metadata carried.
    pub closed spec fn meta(&self) -> Seq<(Seq<char>, Seq<char>)> {
        self.metadata@
    }

    /// An envelope without metadata.
    pub fn new(aggregate_id: String, command: C) -> (res: Self)
        ensures
            res.target() == aggregate_id@,
            res.command() == command,
            res.meta() == Seq::<(Seq<char>, Seq<char>)>::empty(),
    {
        Self::new_with_metadata(aggregate_id, command, Metadata::new())
    }

    /// An envelope with the metadata given.
    pub fn new_with_metadata(aggregate_id: String, command: C, metadata: Metadata) -> (res: Self)
        ensures
            res.target() == aggregate_id@,
            res.command() == command,
            res.meta() == metadata@,
    {
        CommandEnvelope { target_id: aggregate_id, command, metadata }
    }

    /// The target's id.
    pub fn target_id(&self) -> (res: &String)
        ensures
            res@ == self.target(),
    {
        &self.target_id
    }

    /// The command carried.
    pub fn payload(&self) -> (res: &C)
        ensures
            *res == self.command(),
    {
        &self.command
    }

    /// The metadata carried.
    pub fn metadata(&self) -> (res: &Metadata)
        ensures
            res@ == self.meta(),
    {
        &self.metadata
    }

    /// The envelope taken apart, as the call that executes the command takes
    /// it.
    pub fn as_parts(self) -> (res: (String, C, Metadata))
        ensures
            res.0@ == self.target(),
            res.1 == self.command(),
            res.2@ == self.meta(),
    {
        (self.target_id, self.command, self.metadata)
    }
}

} // verus!
