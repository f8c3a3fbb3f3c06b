use futures::Stream;
use rabbitmq_adapter::relay::{
    settle, Refusal, RelayStep, Tally, Transfer, TransferRelay, QUEUE_BOUND,
};

fn payload(i: u32) -> (String, Vec<u8>) {
    ("k".to_string(), i.to_be_bytes().to_vec())
}

#[test]
fn answer_of_the_queue_is_read() {
    assert_eq!(settle(Ok(())), Transfer::Queued);
    assert_eq!(settle(Err((true, payload(1)))), Transfer::Dropped(Refusal::Full));
    assert_eq!(settle(Err((false, payload(1)))), Transfer::Dropped(Refusal::Disconnected));
}

#[test]
fn tally_counts_each_outcome_once() {
    let zero = Tally { queued: 0, dropped: 0 };
    assert_eq!(zero.count(Transfer::Queued), Tally { queued: 1, dropped: 0 });
    assert_eq!(
        zero.count(Transfer::Dropped(Refusal::Full)),
        Tally { queued: 0, dropped: 1 }
    );
    assert_eq!(
        zero.count(Transfer::Dropped(Refusal::Disconnected)),
        Tally { queued: 0, dropped: 1 }
    );
}

#[test]
fn tally_stops_at_the_largest_count() {
    let full = Tally { queued: u64::MAX, dropped: u64::MAX - 1 };
    assert_eq!(full.count(Transfer::Queued), full);
    assert_eq!(
        full.count(Transfer::Dropped(Refusal::Full)),
        Tally { queued: u64::MAX, dropped: u64::MAX }
    );
}

#[test]
fn queue_bound_is_65535() {
    assert_eq!(QUEUE_BOUND, 65535);
}

#[test]
fn payload_beyond_capacity_is_dropped() {
    let (tx, rx) = futures::sync::mpsc::channel(0);
    let mut relay = TransferRelay::new(tx);
    assert_eq!(relay.transfer(payload(1)), Transfer::Queued);
    assert_eq!(relay.transfer(payload(2)), Transfer::Dropped(Refusal::Full));
    assert_eq!(relay.transfer(payload(3)), Transfer::Dropped(Refusal::Full));
    assert_eq!(relay.counts(), Tally { queued: 1, dropped: 2 });
    drop(relay);
    let received: Vec<(String, Vec<u8>)> = rx.wait().map(|item| item.unwrap()).collect();
    assert_eq!(received, vec![payload(1)]);
}

#[test]
fn room_made_by_the_receiver_is_used_again() {
    let (tx, rx) = futures::sync::mpsc::channel(0);
    let mut relay = TransferRelay::new(tx);
    assert_eq!(relay.transfer(payload(1)), Transfer::Queued);
    assert_eq!(relay.transfer(payload(2)), Transfer::Dropped(Refusal::Full));
    let mut drain = rx.wait();
    assert_eq!(drain.next(), Some(Ok(payload(1))));
    assert_eq!(relay.transfer(payload(3)), Transfer::Queued);
    assert_eq!(relay.counts(), Tally { queued: 2, dropped: 1 });
    assert_eq!(drain.next(), Some(Ok(payload(3))));
}

#[test]
fn gone_receiver_drops_the_payload() {
    let (tx, rx) = futures::sync::mpsc::channel(4);
    let mut relay = TransferRelay::new(tx);
    drop(rx);
    assert_eq!(relay.transfer(payload(1)), Transfer::Dropped(Refusal::Disconnected));
    assert_eq!(relay.counts(), Tally { queued: 0, dropped: 1 });
}

#[test]
fn relay_goes_on_after_a_drop_and_exits_when_the_source_ends() {
    let (tx, _rx) = futures::sync::mpsc::channel(0);
    let mut relay = TransferRelay::new(tx);
    assert_eq!(relay.relay(Some(payload(1))), RelayStep::Continue(Transfer::Queued));
    assert_eq!(
        relay.relay(Some(payload(2))),
        RelayStep::Continue(Transfer::Dropped(Refusal::Full))
    );
    assert_eq!(relay.relay(None), RelayStep::Exit { status: 0 });
    assert_eq!(relay.counts(), Tally { queued: 1, dropped: 1 });
}

#[test]
fn drain_is_the_other_half_of_the_relay() {
    let (mut relay, rx) = TransferRelay::bounded();
    assert_eq!(relay.transfer(payload(7)), Transfer::Queued);
    assert_eq!(relay.transfer(payload(8)), Transfer::Queued);
    drop(relay);
    let received: Vec<(String, Vec<u8>)> = rx.wait().map(|item| item.unwrap()).collect();
    assert_eq!(received, vec![payload(7), payload(8)]);
}

#[test]
fn bounded_queue_holds_the_bound_and_one_more() {
    let (mut relay, rx) = TransferRelay::bounded();
    for i in 0..=(QUEUE_BOUND as u32) {
        assert_eq!(relay.transfer(payload(i)), Transfer::Queued);
    }
    assert_eq!(relay.transfer(payload(70000)), Transfer::Dropped(Refusal::Full));
    assert_eq!(relay.counts(), Tally { queued: 65536, dropped: 1 });
    drop(relay);
    let mut expected = 0u32;
    for item in rx.wait() {
        assert_eq!(item, Ok(payload(expected)));
        expected += 1;
    }
    assert_eq!(expected, 65536);
}
