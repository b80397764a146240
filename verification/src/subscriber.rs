//! Subscriptions of aggregates to the events that other aggregates publish,
//! and what a subscriber does with each thing that reaches it.

use crate::envelope::{pair_texts, CommandEnvelope, EventEnvelope, Metadata};
use crate::keyed::texts;
use crate::seq_facts::{lemma_last_contains, lemma_push_contains};
use vstd::pervasive::cloned;
use vstd::prelude::*;

verus! {

/// Request to change who receives the events of which publishers.
#[derive(Debug, Clone, PartialEq, Eq)]
pub enum SubscribeCommand {
    /// `subscriber_id` is to receive the events of each of `publisher_ids`.
    Add { subscriber_id: String, publisher_ids: Vec<String> },
    /// `subscriber_id` is to receive no events any more.
    Remove { subscriber_id: String },
}

/// A subscription: the texts of a publisher's id and of a subscriber's id.
pub type Subscription = (Seq<char>, Seq<char>);

/// `pairs` and, for each of `publishers` in turn, the subscription of
/// `subscriber` to it, unless it is there already.
pub open spec fn with_subscriptions(
    pairs: Seq<Subscription>,
    publishers: Seq<Seq<char>>,
    subscriber: Seq<char>,
) -> Seq<Subscription>
    decreases publishers.len(),
{
    if publishers.len() == 0 {
        pairs
    } else {
        let before = with_subscriptions(pairs, publishers.drop_last(), subscriber);
        if before.contains((publishers.last(), subscriber)) {
            before
        } else {
            before.push((publishers.last(), subscriber))
        }
    }
}

/// `pairs` without the subscriptions of `subscriber`, the others in their
/// order.
pub open spec fn without_subscriber(pairs: Seq<Subscription>, subscriber: Seq<char>) -> Seq<
    Subscription,
>
    decreases pairs.len(),
{
    if pairs.len() == 0 {
        pairs
    } else {
        let before = without_subscriber(pairs.drop_last(), subscriber);
        if pairs.last().1 == subscriber {
            before
        } else {
            before.push(pairs.last())
        }
    }
}

/// The subscribers to `publisher` among `pairs`, in the order of `pairs`.
pub open spec fn subscribers_of(pairs: Seq<Subscription>, publisher: Seq<char>) -> Seq<Seq<char>>
    decreases pairs.len(),
{
    if pairs.len() == 0 {
        Seq::empty()
    } else {
        let before = subscribers_of(pairs.drop_last(), publisher);
        if pairs.last().0 == publisher {
            before.push(pairs.last().1)
        } else {
            before
        }
    }
}

/// True when `out` addresses one copy of each of `commands`, in order, to
/// `subscriber`, each with the metadata `meta`.
pub open spec fn batch<C: Clone>(
    out: Seq<CommandEnvelope<C>>,
    subscriber: Seq<char>,
    commands: Seq<C>,
    meta: Seq<(Seq<char>, Seq<char>)>,
) -> bool {
    &&& out.len() == commands.len()
    &&& forall|i: int|
        0 <= i < out.len() ==> {
            &&& (#[trigger] out[i]).target() == subscriber
            &&& cloned(commands[i], out[i].command())
            &&& out[i].meta() == meta
        }
}

/// True when `out` is one batch of `commands` for each of `subscribers`, in
/// their order.
pub open spec fn delivered<C: Clone>(
    out: Seq<CommandEnvelope<C>>,
    subscribers: Seq<Seq<char>>,
    commands: Seq<C>,
    meta: Seq<(Seq<char>, Seq<char>)>,
) -> bool
    decreases subscribers.len(),
{
    if subscribers.len() == 0 {
        out.len() == 0
    } else {
        let cut = out.len() - commands.len();
        &&& cut >= 0
        &&& batch(out.subrange(cut, out.len() as int), subscribers.last(), commands, meta)
        &&& delivered(out.subrange(0, cut), subscribers.drop_last(), commands, meta)
    }
}

/// What reaches a subscriber: a request on its admin channel or that
/// channel's end, an event from the broadcast with the commands that the
/// event converts to, or the broadcast's report that events were missed or
/// that it has ended.
#[derive(Debug, Clone, PartialEq, Eq)]
pub enum SubscriberInput<E, C> {
    Admin(SubscribeCommand),
    AdminClosed,
    Event { envelope: EventEnvelope<E>, commands: Vec<C> },
    Lagged(u64),
    BroadcastClosed,
}

/// What a subscriber does next.
#[derive(Debug, Clone, PartialEq, Eq)]
pub enum SubscriberAction<C> {
    /// Send these commands on, in order, and wait for the next input.
    Forward(Vec<CommandEnvelope<C>>),
    /// End the task.
    Stop,
}

/// The subscriptions that one subscriber task keeps, in the order in which
/// they were made.
#[derive(Debug, Clone, PartialEq, Eq)]
pub struct EventSubscriber {
    publisher_subscribers: Vec<(String, String)>,
}

impl EventSubscriber {
    /// Well-formedness: no subscription is stored twice.
    pub closed spec fn wf(&self) -> bool {
        pair_texts(self.publisher_subscribers@).no_duplicates()
    }

    /// The subscriptions in the order in which they were made.
    pub closed spec fn pairs(&self) -> Seq<Subscription> {
        pair_texts(self.publisher_subscribers@)
    }

    /// A subscriber without subscriptions.
    pub fn new() -> (res: Self)
        ensures
            res.wf(),
            res.pairs() == Seq::<Subscription>::empty(),
    {
        let res = EventSubscriber { publisher_subscribers: Vec::new() };
        res
    }

    /// True when `subscriber_id` is subscribed to `publisher_id`.
    pub fn is_subscribed(&self, publisher_id: &String, subscriber_id: &String) -> (res: bool)
        ensures
            res == self.pairs().contains((publisher_id@, subscriber_id@)),
    {
        let mut i: usize = 0;
        while i < self.publisher_subscribers.len()
            invariant
                i <= self.publisher_subscribers.len(),
                forall|j: int| 0 <= j < i ==> self.pairs()[j] != (publisher_id@, subscriber_id@),
            decreases self.publisher_subscribers.len() - i,
        {
            if self.publisher_subscribers[i].0 == *publisher_id && self.publisher_subscribers[i].1
                == *subscriber_id {
                proof {
                    assert(self.pairs()[i as int] == (publisher_id@, subscriber_id@));
                }
                return true;
            }
            i += 1;
        }
        false
    }

    /// Subscribes `subscriber_id` to each of `publisher_ids`.
    pub fn add_subscriber(&mut self, subscriber_id: String, publisher_ids: Vec<String>)
        requires
            old(self).wf(),
        ensures
            final(self).wf(),
            final(self).pairs() == with_subscriptions(
                old(self).pairs(),
                texts(publisher_ids@),
                subscriber_id@,
            ),
    {
        let mut i: usize = 0;
        while i < publisher_ids.len()
            invariant
                i <= publisher_ids.len(),
                self.wf(),
                self.pairs() == with_subscriptions(
                    old(self).pairs(),
                    texts(publisher_ids@.take(i as int)),
                    subscriber_id@,
                ),
            decreases publisher_ids.len() - i,
        {
            proof {
                assert(texts(publisher_ids@.take(i + 1)).drop_last() =~= texts(
                    publisher_ids@.take(i as int),
                ));
            }
            if !self.is_subscribed(&publisher_ids[i], &subscriber_id) {
                let ghost before = self.pairs();
                self.publisher_subscribers.push((publisher_ids[i].clone(), subscriber_id.clone()));
                proof {
                    assert(self.pairs() =~= before.push((publisher_ids[i as int]@, subscriber_id@)));
                }
            }
            i += 1;
        }
        proof {
            assert(publisher_ids@.take(publisher_ids.len() as int) =~= publisher_ids@);
        }
    }

    /// Ends every subscription of `subscriber_id`.
    pub fn remove_subscriber(&mut self, subscriber_id: &String)
        requires
            old(self).wf(),
        ensures
            final(self).wf(),
            final(self).pairs() == without_subscriber(old(self).pairs(), subscriber_id@),
    {
        let mut kept: Vec<(String, String)> = Vec::new();
        let mut i: usize = 0;
        while i < self.publisher_subscribers.len()
            invariant
                i <= self.publisher_subscribers.len(),
                self.wf(),
                pair_texts(kept@) == without_subscriber(
                    self.pairs().take(i as int),
                    subscriber_id@,
                ),
            decreases self.publisher_subscribers.len() - i,
        {
            proof {
                assert(self.pairs().take(i + 1).drop_last() =~= self.pairs().take(i as int));
            }
            if !(self.publisher_subscribers[i].1 == *subscriber_id) {
                kept.push(
                    (self.publisher_subscribers[i].0.clone(), self.publisher_subscribers[i].1.clone()),
                );
            }
            i += 1;
        }
        proof {
            assert(self.pairs().take(self.publisher_subscribers.len() as int) =~= self.pairs());
            lemma_without_distinct(self.pairs(), subscriber_id@);
        }
        self.publisher_subscribers = kept;
    }

    /// The subscribers to `publisher_id`, in the order in which they
    /// subscribed.
    pub fn subscribers(&self, publisher_id: &String) -> (res: Vec<String>)
        ensures
            texts(res@) == subscribers_of(self.pairs(), publisher_id@),
    {
        let mut out: Vec<String> = Vec::new();
        let mut i: usize = 0;
        while i < self.publisher_subscribers.len()
            invariant
                i <= self.publisher_subscribers.len(),
                texts(out@) == subscribers_of(self.pairs().take(i as int), publisher_id@),
            decreases self.publisher_subscribers.len() - i,
        {
            proof {
                assert(self.pairs().take(i + 1).drop_last() =~= self.pairs().take(i as int));
            }
            if self.publisher_subscribers[i].0 == *publisher_id {
                out.push(self.publisher_subscribers[i].1.clone());
            }
            i += 1;
        }
        proof {
            assert(self.pairs().take(self.publisher_subscribers.len() as int) =~= self.pairs());
        }
        out
    }

    /// The commands to send on for an event: for each subscriber to the
    /// event's publisher, in the order in which they subscribed, one copy of
    /// each of `commands`, addressed to the subscriber and carrying the
    /// event's metadata.
    pub fn handle_event<E, C: Clone>(&self, envelope: &EventEnvelope<E>, commands: &Vec<C>) -> (res:
        Vec<CommandEnvelope<C>>)
        ensures
            delivered(
                res@,
                subscribers_of(self.pairs(), envelope.publisher()),
                commands@,
                envelope.meta(),
            ),
    {
        let subscribers = self.subscribers(envelope.publisher_id());
        let mut out: Vec<CommandEnvelope<C>> = Vec::new();
        let mut i: usize = 0;
        while i < subscribers.len()
            invariant
                i <= subscribers.len(),
                delivered(out@, texts(subscribers@).take(i as int), commands@, envelope.meta()),
            decreases subscribers.len() - i,
        {
            let ghost before = out@;
            let mut sent = send_event_commands(&subscribers[i], commands, envelope.metadata());
            out.append(&mut sent);
            proof {
                let now = texts(subscribers@).take(i + 1);
                assert(now.drop_last() =~= texts(subscribers@).take(i as int));
                let cut = out@.len() - commands@.len();
                assert(out@.subrange(0, cut) =~= before);
            }
            i += 1;
        }
        proof {
            assert(texts(subscribers@).take(subscribers.len() as int) =~= texts(subscribers@));
        }
        out
    }

    /// What the subscriber does with `input`.
    ///
    /// A request changes the subscriptions and forwards nothing. An event is
    /// forwarded to the subscribers of its publisher. Missed events are passed
    /// over. The end of the admin channel or of the broadcast ends the task.
    pub fn step<E, C: Clone>(&mut self, input: SubscriberInput<E, C>) -> (res: SubscriberAction<C>)
        requires
            old(self).wf(),
        ensures
            final(self).wf(),
            match input {
                SubscriberInput::Admin(SubscribeCommand::Add { subscriber_id, publisher_ids }) => {
                    &&& final(self).pairs() == with_subscriptions(
                        old(self).pairs(),
                        texts(publisher_ids@),
                        subscriber_id@,
                    )
                    &&& res matches SubscriberAction::Forward(out) && out@.len() == 0
                },
                SubscriberInput::Admin(SubscribeCommand::Remove { subscriber_id }) => {
                    &&& final(self).pairs() == without_subscriber(
                        old(self).pairs(),
                        subscriber_id@,
                    )
                    &&& res matches SubscriberAction::Forward(out) && out@.len() == 0
                },
                SubscriberInput::AdminClosed => {
                    &&& final(self).pairs() == old(self).pairs()
                    &&& res is Stop
                },
                SubscriberInput::Event { envelope, commands } => {
                    &&& final(self).pairs() == old(self).pairs()
                    &&& res matches SubscriberAction::Forward(out) && delivered(
                        out@,
                        subscribers_of(old(self).pairs(), envelope.publisher()),
                        commands@,
                        envelope.meta(),
                    )
                },
                SubscriberInput::Lagged(_) => {
                    &&& final(self).pairs() == old(self).pairs()
                    &&& res matches SubscriberAction::Forward(out) && out@.len() == 0
                },
                SubscriberInput::BroadcastClosed => {
                    &&& final(self).pairs() == old(self).pairs()
                    &&& res is Stop
                },
            },
    {
        match input {
            SubscriberInput::Admin(SubscribeCommand::Add { subscriber_id, publisher_ids }) => {
                self.add_subscriber(subscriber_id, publisher_ids);
                SubscriberAction::Forward(Vec::new())
            },
            SubscriberInput::Admin(SubscribeCommand::Remove { subscriber_id }) => {
                self.remove_subscriber(&subscriber_id);
                SubscriberAction::Forward(Vec::new())
            },
            SubscriberInput::AdminClosed => SubscriberAction::Stop,
            SubscriberInput::Event { envelope, commands } => SubscriberAction::Forward(
                self.handle_event(&envelope, &commands),
            ),
            SubscriberInput::Lagged(_) => SubscriberAction::Forward(Vec::new()),
            SubscriberInput::BroadcastClosed => SubscriberAction::Stop,
        }
    }
}

/// The envelopes that carry one copy of each of `commands`, in order, to
/// `subscriber_id`, each with a copy of `metadata`.
pub fn send_event_commands<C: Clone>(
    subscriber_id: &String,
    commands: &Vec<C>,
    metadata: &Metadata,
) -> (res: Vec<CommandEnvelope<C>>)
    ensures
        batch(res@, subscriber_id@, commands@, metadata@),
{
    let mut out: Vec<CommandEnvelope<C>> = Vec::new();
    let mut i: usize = 0;
    while i < commands.len()
        invariant
            i <= commands.len(),
            batch(out@, subscriber_id@, commands@.take(i as int), metadata@),
        decreases commands.len() - i,
    {
        let command = commands[i].clone();
        out.push(
            CommandEnvelope::new_with_metadata(subscriber_id.clone(), command, metadata.clone()),
        );
        i += 1;
    }
    out
}

proof fn lemma_without_members(pairs: Seq<Subscription>, subscriber: Seq<char>, p: Subscription)
    ensures
        without_subscriber(pairs, subscriber).contains(p) <==> (pairs.contains(p) && p.1
            != subscriber),
    decreases pairs.len(),
{
    if pairs.len() > 0 {
        let rest = pairs.drop_last();
        lemma_without_members(rest, subscriber, p);
        lemma_last_contains(pairs, p);
        lemma_push_contains(without_subscriber(rest, subscriber), pairs.last(), p);
    }
}

proof fn lemma_without_distinct(pairs: Seq<Subscription>, subscriber: Seq<char>)
    requires
        pairs.no_duplicates(),
    ensures
        without_subscriber(pairs, subscriber).no_duplicates(),
    decreases pairs.len(),
{
    if pairs.len() > 0 {
        let rest = pairs.drop_last();
        lemma_without_distinct(rest, subscriber);
        lemma_without_members(rest, subscriber, pairs.last());
    }
}

proof fn lemma_delivered_to<C: Clone>(
    out: Seq<CommandEnvelope<C>>,
    subscribers: Seq<Seq<char>>,
    commands: Seq<C>,
    meta: Seq<(Seq<char>, Seq<char>)>,
    s: int,
    j: int,
)
    requires
        delivered(out, subscribers, commands, meta),
        0 <= s < subscribers.len(),
        0 <= j < commands.len(),
    ensures
        exists|k: int|
            0 <= k < out.len() && (#[trigger] out[k]).target() == subscribers[s] && cloned(
                commands[j],
                out[k].command(),
            ) && out[k].meta() == meta,
    decreases subscribers.len(),
{
    let cut = out.len() - commands.len();
    if s == subscribers.len() - 1 {
        let last = out.subrange(cut, out.len() as int);
        assert(last[j] == out[cut + j]);
    } else {
        let before = out.subrange(0, cut);
        lemma_delivered_to(before, subscribers.drop_last(), commands, meta, s, j);
    }
}

/// Every subscriber gets every command: where `out` is what an event of
/// `publisher` was forwarded as, a subscriber to that publisher finds among
/// `out` a copy of each of `commands`, addressed to it, with the event's
/// metadata.
pub proof fn law_subscriber_gets_commands<C: Clone>(
    pairs: Seq<Subscription>,
    publisher: Seq<char>,
    subscriber: Seq<char>,
    out: Seq<CommandEnvelope<C>>,
    commands: Seq<C>,
    meta: Seq<(Seq<char>, Seq<char>)>,
    j: int,
)
    requires
        delivered(out, subscribers_of(pairs, publisher), commands, meta),
        pairs.contains((publisher, subscriber)),
        0 <= j < commands.len(),
    ensures
        exists|k: int|
            0 <= k < out.len() && (#[trigger] out[k]).target() == subscriber && cloned(
                commands[j],
                out[k].command(),
            ) && out[k].meta() == meta,
{
    law_subscribers_are_subscriptions(pairs, publisher, subscriber);
    let subscribers = subscribers_of(pairs, publisher);
    let s = choose|s: int| 0 <= s < subscribers.len() && subscribers[s] == subscriber;
    lemma_delivered_to(out, subscribers, commands, meta, s, j);
}

/// After `subscriber` has been subscribed to `publishers`, the subscriptions
/// are those before and the subscriber's to each of the publishers.
pub proof fn law_add_subscribes(
    pairs: Seq<Subscription>,
    publishers: Seq<Seq<char>>,
    subscriber: Seq<char>,
    p: Subscription,
)
    ensures
        with_subscriptions(pairs, publishers, subscriber).contains(p) <==> (pairs.contains(p) || (
        publishers.contains(p.0) && p.1 == subscriber)),
    decreases publishers.len(),
{
    if publishers.len() > 0 {
        let rest = publishers.drop_last();
        let before = with_subscriptions(pairs, rest, subscriber);
        law_add_subscribes(pairs, rest, subscriber, p);
        lemma_last_contains(publishers, p.0);
        lemma_push_contains(before, (publishers.last(), subscriber), p);
    }
}

/// After `subscriber` has been removed, the subscriptions are those of the
/// others, and no event reaches `subscriber` any more.
pub proof fn law_remove_unsubscribes(
    pairs: Seq<Subscription>,
    subscriber: Seq<char>,
    p: Subscription,
    publisher: Seq<char>,
)
    ensures
        without_subscriber(pairs, subscriber).contains(p) <==> (pairs.contains(p) && p.1
            != subscriber),
        !subscribers_of(without_subscriber(pairs, subscriber), publisher).contains(subscriber),
{
    lemma_without_members(pairs, subscriber, p);
    lemma_without_members(pairs, subscriber, (publisher, subscriber));
    law_subscribers_are_subscriptions(
        without_subscriber(pairs, subscriber),
        publisher,
        subscriber,
    );
}

/// The subscribers to a publisher are exactly those with a subscription to it.
pub proof fn law_subscribers_are_subscriptions(
    pairs: Seq<Subscription>,
    publisher: Seq<char>,
    subscriber: Seq<char>,
)
    ensures
        subscribers_of(pairs, publisher).contains(subscriber) <==> pairs.contains(
            (publisher, subscriber),
        ),
    decreases pairs.len(),
{
    if pairs.len() > 0 {
        let rest = pairs.drop_last();
        law_subscribers_are_subscriptions(rest, publisher, subscriber);
        lemma_last_contains(pairs, (publisher, subscriber));
        lemma_push_contains(subscribers_of(rest, publisher), pairs.last().1, subscriber);
    }
}

} // verus!
