//! The relay that hands each event of a model on to the sinks that wait for
//! it: first to the cache, where one is set up, then to the caller.
//!
//! The relay itself only decides. Whoever runs it receives from the channel
//! and sends to the sinks, and tells the relay what happened.

use vstd::prelude::*;

verus! {

/// How many events the channel between the model and the relay holds before
/// the model has to wait.
pub const RELAY_CAPACITY: usize = 10000;

/// A place that events or the final message are delivered to.
#[derive(Debug, Clone, Copy, PartialEq, Eq)]
pub enum Sink {
    /// The cache's writer of events.
    CacheEvents,
    /// The caller's receiver of events.
    Outbound,
    /// The cache's receiver of the final message.
    CacheResponse,
}

/// What the relay is waiting for.
#[derive(Debug, Clone, Copy, PartialEq, Eq)]
pub enum RelayState {
    /// The next event from the channel.
    Receiving,
    /// The cache to take the event in hand.
    SendingToCache,
    /// The caller to take the event in hand.
    SendingToOutbound,
    /// Nothing: the channel was closed.
    Closed,
    /// Nothing: the sink named was gone.
    Failed(Sink),
}

/// What happened outside the relay.
#[derive(Debug, Clone, Copy, PartialEq, Eq)]
pub enum RelayEvent {
    /// An event arrived on the channel.
    Received,
    /// The channel was closed.
    ChannelClosed,
    /// The sink took the event in hand.
    Sent,
    /// The sink was gone.
    SendFailed,
}

/// What the relay asks for next.
#[derive(Debug, Clone, Copy, PartialEq, Eq)]
pub enum RelayAction {
    /// Wait for the next event on the channel.
    Receive,
    /// Send the event in hand to the sink.
    Send(Sink),
    /// Stop: every event was delivered.
    Stop,
    /// Stop with an error: the sink was gone.
    Fail(Sink),
}

/// The state after `event` and what to do next, or `None` where the relay in
/// `state` does not wait for `event`.
pub open spec fn relay_step(cache: bool, state: RelayState, event: RelayEvent) -> Option<
    (RelayState, RelayAction),
> {
    match (state, event) {
        (RelayState::Receiving, RelayEvent::Received) => if cache {
            Some((RelayState::SendingToCache, RelayAction::Send(Sink::CacheEvents)))
        } else {
            Some((RelayState::SendingToOutbound, RelayAction::Send(Sink::Outbound)))
        },
        (RelayState::Receiving, RelayEvent::ChannelClosed) => Some(
            (RelayState::Closed, RelayAction::Stop),
        ),
        (RelayState::SendingToCache, RelayEvent::Sent) => Some(
            (RelayState::SendingToOutbound, RelayAction::Send(Sink::Outbound)),
        ),
        (RelayState::SendingToCache, RelayEvent::SendFailed) => Some(
            (RelayState::Failed(Sink::CacheEvents), RelayAction::Fail(Sink::CacheEvents)),
        ),
        (RelayState::SendingToOutbound, RelayEvent::Sent) => Some(
            (RelayState::Receiving, RelayAction::Receive),
        ),
        (RelayState::SendingToOutbound, RelayEvent::SendFailed) => Some(
            (RelayState::Failed(Sink::Outbound), RelayAction::Fail(Sink::Outbound)),
        ),
        _ => None,
    }
}

/// The relay of one execution.
#[derive(Debug, Clone, Copy, PartialEq, Eq)]
pub struct Relay {
    /// Whether the cache has a writer of events.
    pub cache: bool,
    pub state: RelayState,
}

impl Relay {
    /// A relay that waits for the first event.
    pub fn new(cache: bool) -> (relay: Relay)
        ensures
            relay == (Relay { cache, state: RelayState::Receiving }),
    {
        Relay { cache, state: RelayState::Receiving }
    }

    /// Takes note of what happened and says what to do next. An event that
    /// the relay does not wait for changes nothing and gives `None`.
    pub fn step(&mut self, event: RelayEvent) -> (action: Option<RelayAction>)
        ensures
            final(self).cache == old(self).cache,
            match relay_step(old(self).cache, old(self).state, event) {
                Some((state, next)) => final(self).state == state && action == Some(next),
                None => final(self).state == old(self).state && action is None,
            },
    {
        let (state, action) = match (self.state, event) {
            (RelayState::Receiving, RelayEvent::Received) => if self.cache {
                (RelayState::SendingToCache, RelayAction::Send(Sink::CacheEvents))
            } else {
                (RelayState::SendingToOutbound, RelayAction::Send(Sink::Outbound))
            },
            (RelayState::Receiving, RelayEvent::ChannelClosed) => (
                RelayState::Closed,
                RelayAction::Stop,
            ),
            (RelayState::SendingToCache, RelayEvent::Sent) => (
                RelayState::SendingToOutbound,
                RelayAction::Send(Sink::Outbound),
            ),
            (RelayState::SendingToCache, RelayEvent::SendFailed) => (
                RelayState::Failed(Sink::CacheEvents),
                RelayAction::Fail(Sink::CacheEvents),
            ),
            (RelayState::SendingToOutbound, RelayEvent::Sent) => (
                RelayState::Receiving,
                RelayAction::Receive,
            ),
            (RelayState::SendingToOutbound, RelayEvent::SendFailed) => (
                RelayState::Failed(Sink::Outbound),
                RelayAction::Fail(Sink::Outbound),
            ),
            _ => {
                return None;
            },
        };
        self.state = state;
        Some(action)
    }
}

/// A relay together with what it has done so far: how many events it has
/// received, and which event it has delivered to which sink, in the order of
/// the deliveries. Events are counted from zero in the order of their
/// arrival.
pub struct RelayTrace {
    pub state: RelayState,
    pub received: nat,
    pub deliveries: Seq<(Sink, nat)>,
}

/// The trace of a relay that has seen nothing yet.
pub open spec fn trace_start() -> RelayTrace {
    RelayTrace { state: RelayState::Receiving, received: 0, deliveries: Seq::empty() }
}

/// The trace after one more event. An arrival is counted; a delivery that
/// the sink confirms is written down with the number of the event in hand.
pub open spec fn trace_step(cache: bool, trace: RelayTrace, event: RelayEvent) -> RelayTrace {
    match relay_step(cache, trace.state, event) {
        None => trace,
        Some((state, _)) => RelayTrace {
            state,
            received: if event == RelayEvent::Received {
                trace.received + 1
            } else {
                trace.received
            },
            deliveries: match (trace.state, event) {
                (RelayState::SendingToCache, RelayEvent::Sent) => trace.deliveries.push(
                    (Sink::CacheEvents, (trace.received - 1) as nat),
                ),
                (RelayState::SendingToOutbound, RelayEvent::Sent) => trace.deliveries.push(
                    (Sink::Outbound, (trace.received - 1) as nat),
                ),
                _ => trace.deliveries,
            },
        },
    }
}

/// The trace of a relay after the events given, in their order.
pub open spec fn trace_run(cache: bool, events: Seq<RelayEvent>) -> RelayTrace
    decreases events.len(),
{
    if events.len() == 0 {
        trace_start()
    } else {
        trace_step(cache, trace_run(cache, events.drop_last()), events.last())
    }
}

/// The delivery that comes at position `k` when every event goes to each
/// sink in turn: with a cache, event `k / 2` goes to the cache at an even
/// position and to the caller at the odd one after it; without a cache,
/// event `k` goes to the caller.
pub open spec fn scheduled(cache: bool, k: int) -> (Sink, nat) {
    if cache {
        (
            if k % 2 == 0 {
                Sink::CacheEvents
            } else {
                Sink::Outbound
            },
            (k / 2) as nat,
        )
    } else {
        (Sink::Outbound, k as nat)
    }
}

/// How many deliveries stand in a trace whose relay is in `state` and has
/// received `received` events.
pub open spec fn deliveries_due(cache: bool, state: RelayState, received: nat) -> int {
    let each: int = if cache {
        2
    } else {
        1
    };
    match state {
        RelayState::Receiving | RelayState::Closed => each * received,
        RelayState::SendingToCache | RelayState::Failed(Sink::CacheEvents) => each * (received
            - 1),
        RelayState::SendingToOutbound | RelayState::Failed(_) => each * received - 1,
    }
}

/// What holds of every trace that a relay can reach.
pub open spec fn trace_in_order(cache: bool, trace: RelayTrace) -> bool {
    &&& trace.deliveries.len() == deliveries_due(cache, trace.state, trace.received)
    &&& forall|k: int|
        0 <= k < trace.deliveries.len() ==> #[trigger] trace.deliveries[k] == scheduled(cache, k)
    &&& match trace.state {
        RelayState::Receiving | RelayState::Closed => true,
        RelayState::SendingToCache | RelayState::Failed(Sink::CacheEvents) => cache
            && trace.received >= 1,
        RelayState::SendingToOutbound | RelayState::Failed(Sink::Outbound) => trace.received >= 1,
        RelayState::Failed(Sink::CacheResponse) => false,
    }
}

/// Whatever happens outside, the relay delivers in the order of arrival:
/// the deliveries it has made are the first so many of the schedule in which
/// each event goes to the cache, where there is one, and then to the caller,
/// before the next event is touched. So each sink sees the events in the
/// order in which they were produced, none twice and none skipped. Once the
/// channel is closed, every event that arrived has reached every sink.
pub proof fn lemma_relay_keeps_order(cache: bool, events: Seq<RelayEvent>)
    ensures
        trace_in_order(cache, trace_run(cache, events)),
        trace_run(cache, events).state == RelayState::Closed ==> trace_run(
            cache,
            events,
        ).deliveries.len() == (if cache {
            2 * trace_run(cache, events).received
        } else {
            trace_run(cache, events).received
        }),
    decreases events.len(),
{
    if events.len() > 0 {
        lemma_relay_keeps_order(cache, events.drop_last());
        let before = trace_run(cache, events.drop_last());
        let after = trace_step(cache, before, events.last());
        assert forall|k: int| 0 <= k < after.deliveries.len() implies #[trigger] after.deliveries[k]
            == scheduled(cache, k) by {
            if k < before.deliveries.len() {
                assert(after.deliveries[k] == before.deliveries[k]);
            }
        }
    }
}

/// The events that a sink has seen, in the order in which it saw them.
pub open spec fn seen_by(sink: Sink, deliveries: Seq<(Sink, nat)>) -> Seq<nat>
    decreases deliveries.len(),
{
    if deliveries.len() == 0 {
        Seq::empty()
    } else if deliveries.last().0 == sink {
        seen_by(sink, deliveries.drop_last()).push(deliveries.last().1)
    } else {
        seen_by(sink, deliveries.drop_last())
    }
}

/// Each sink sees the events in the order in which they were produced: what
/// it has seen is the events from the first on, one after the other, and the
/// caller has never seen an event that a cache which is set up has not.
pub proof fn lemma_sinks_see_production_order(cache: bool, events: Seq<RelayEvent>)
    ensures
        ({
            let deliveries = trace_run(cache, events).deliveries;
            let to_cache = seen_by(Sink::CacheEvents, deliveries);
            let to_caller = seen_by(Sink::Outbound, deliveries);
            &&& forall|i: int| 0 <= i < to_cache.len() ==> to_cache[i] == i
            &&& forall|i: int| 0 <= i < to_caller.len() ==> to_caller[i] == i
            &&& cache ==> to_caller.len() <= to_cache.len() <= to_caller.len() + 1
            &&& !cache ==> to_cache.len() == 0
        }),
{
    lemma_relay_keeps_order(cache, events);
    lemma_seen_by_schedule(cache, trace_run(cache, events).deliveries);
}

/// What each sink has seen of a run of deliveries that follows the schedule.
proof fn lemma_seen_by_schedule(cache: bool, deliveries: Seq<(Sink, nat)>)
    requires
        forall|k: int| 0 <= k < deliveries.len() ==> #[trigger] deliveries[k] == scheduled(cache, k),
    ensures
        ({
            let to_cache = seen_by(Sink::CacheEvents, deliveries);
            let to_caller = seen_by(Sink::Outbound, deliveries);
            &&& forall|i: int| 0 <= i < to_cache.len() ==> to_cache[i] == i
            &&& forall|i: int| 0 <= i < to_caller.len() ==> to_caller[i] == i
            &&& cache ==> to_cache.len() == (deliveries.len() + 1) / 2
            &&& cache ==> to_caller.len() == deliveries.len() / 2
            &&& !cache ==> to_cache.len() == 0
            &&& !cache ==> to_caller.len() == deliveries.len()
        }),
    decreases deliveries.len(),
{
    if deliveries.len() > 0 {
        let shorter = deliveries.drop_last();
        assert forall|k: int| 0 <= k < shorter.len() implies #[trigger] shorter[k] == scheduled(
            cache,
            k,
        ) by {
            assert(shorter[k] == deliveries[k]);
        }
        lemma_seen_by_schedule(cache, shorter);
        assert(deliveries.last() == scheduled(cache, deliveries.len() - 1));
    }
}

} // verus!
