use gateway_core::relay::{Relay, RelayAction, RelayEvent, RelayState, Sink, RELAY_CAPACITY};

/// Runs a relay over `events` arrivals with sinks that always take what they
/// are sent, and writes down which event went to which sink.
fn deliveries(cache: bool, events: usize) -> Vec<(Sink, usize)> {
    let mut relay = Relay::new(cache);
    let mut log = Vec::new();
    for number in 0..events {
        let mut action = relay.step(RelayEvent::Received);
        while let Some(RelayAction::Send(sink)) = action {
            log.push((sink, number));
            action = relay.step(RelayEvent::Sent);
        }
        assert_eq!(action, Some(RelayAction::Receive));
    }
    assert_eq!(relay.step(RelayEvent::ChannelClosed), Some(RelayAction::Stop));
    assert_eq!(relay.state, RelayState::Closed);
    log
}

#[test]
fn the_channel_holds_ten_thousand_events() {
    assert_eq!(RELAY_CAPACITY, 10000);
}

#[test]
fn both_sinks_see_the_events_in_order() {
    let log = deliveries(true, 5);
    let expected: Vec<(Sink, usize)> = (0..5)
        .flat_map(|n| [(Sink::CacheEvents, n), (Sink::Outbound, n)])
        .collect();
    assert_eq!(log, expected);

    let to_cache: Vec<usize> =
        log.iter().filter(|d| d.0 == Sink::CacheEvents).map(|d| d.1).collect();
    let to_caller: Vec<usize> = log.iter().filter(|d| d.0 == Sink::Outbound).map(|d| d.1).collect();
    assert_eq!(to_cache, vec![0, 1, 2, 3, 4]);
    assert_eq!(to_caller, vec![0, 1, 2, 3, 4]);
}

#[test]
fn without_a_cache_only_the_caller_is_served() {
    let log = deliveries(false, 4);
    assert_eq!(
        log,
        vec![(Sink::Outbound, 0), (Sink::Outbound, 1), (Sink::Outbound, 2), (Sink::Outbound, 3)]
    );
    assert_eq!(deliveries(false, 0), vec![]);
    assert_eq!(deliveries(true, 0), vec![]);
}

#[test]
fn the_cache_comes_before_the_caller() {
    let mut relay = Relay::new(true);
    assert_eq!(relay, Relay { cache: true, state: RelayState::Receiving });
    assert_eq!(relay.step(RelayEvent::Received), Some(RelayAction::Send(Sink::CacheEvents)));
    assert_eq!(relay.state, RelayState::SendingToCache);
    assert_eq!(relay.step(RelayEvent::Sent), Some(RelayAction::Send(Sink::Outbound)));
    assert_eq!(relay.state, RelayState::SendingToOutbound);
    assert_eq!(relay.step(RelayEvent::Sent), Some(RelayAction::Receive));
    assert_eq!(relay.state, RelayState::Receiving);
}

#[test]
fn a_sink_that_is_gone_stops_the_relay() {
    let mut relay = Relay::new(true);
    relay.step(RelayEvent::Received);
    assert_eq!(relay.step(RelayEvent::SendFailed), Some(RelayAction::Fail(Sink::CacheEvents)));
    assert_eq!(relay.state, RelayState::Failed(Sink::CacheEvents));
    assert_eq!(relay.step(RelayEvent::Received), None);
    assert_eq!(relay.step(RelayEvent::Sent), None);
    assert_eq!(relay.state, RelayState::Failed(Sink::CacheEvents));

    let mut relay = Relay::new(false);
    assert_eq!(relay.step(RelayEvent::Received), Some(RelayAction::Send(Sink::Outbound)));
    assert_eq!(relay.step(RelayEvent::SendFailed), Some(RelayAction::Fail(Sink::Outbound)));
    assert_eq!(relay.state, RelayState::Failed(Sink::Outbound));
}

#[test]
fn relay_events_out_of_turn_change_nothing() {
    let mut relay = Relay::new(true);
    assert_eq!(relay.step(RelayEvent::Sent), None);
    assert_eq!(relay.step(RelayEvent::SendFailed), None);
    assert_eq!(relay.state, RelayState::Receiving);
    relay.step(RelayEvent::Received);
    assert_eq!(relay.step(RelayEvent::Received), None);
    assert_eq!(relay.step(RelayEvent::ChannelClosed), None);
    assert_eq!(relay.state, RelayState::SendingToCache);

    let mut closed = Relay::new(false);
    assert_eq!(closed.step(RelayEvent::ChannelClosed), Some(RelayAction::Stop));
    assert_eq!(closed.step(RelayEvent::Received), None);
    assert_eq!(closed.state, RelayState::Closed);
}
