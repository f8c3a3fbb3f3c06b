use rabbitmq_adapter::broker::{Close, Publish, Shutdown};
use rabbitmq_adapter::outbound::{is_publishable, OutboundBridge, OutboundStep, Outcome};

fn publish(key: &str, body: &[u8], awaited: bool) -> Publish {
    Publish {
        exchange: "cita".to_string(),
        routing_key: key.to_string(),
        mandatory: false,
        immediate: false,
        content_type: "text".to_string(),
        body: body.to_vec(),
        awaited,
    }
}

fn stop() -> OutboundStep {
    OutboundStep::Stop(Shutdown {
        close: Close { code: 200, reason: "Bye".to_string() },
        status: 0,
    })
}

#[test]
fn loop_starts_with_a_take() {
    assert_eq!(OutboundBridge::sequential().first(), OutboundStep::Take);
    assert_eq!(OutboundBridge::pipelined().first(), OutboundStep::Take);
}

#[test]
fn taken_payload_is_published_with_fixed_flags() {
    let bridge = OutboundBridge::sequential();
    let step = bridge.next(&OutboundStep::Take, Outcome::Taken(("k1".to_string(), vec![0x01])));
    assert_eq!(step, OutboundStep::Publish(publish("k1", &[0x01], true)));
}

#[test]
fn pipelined_publish_is_not_awaited() {
    let bridge = OutboundBridge::pipelined();
    assert!(!bridge.awaited);
    assert_eq!(bridge.publish(("a.b".to_string(), vec![7, 8])), publish("a.b", &[7, 8], false));
}

#[test]
fn publish_done_leads_to_the_next_take() {
    let bridge = OutboundBridge::sequential();
    let pending = OutboundStep::Publish(publish("k", &[1], true));
    assert_eq!(bridge.next(&pending, Outcome::Done), OutboundStep::Take);
}

#[test]
fn failed_publish_stops_the_loop() {
    let bridge = OutboundBridge::sequential();
    let pending = OutboundStep::Publish(publish("k", &[1], true));
    assert_eq!(bridge.next(&pending, Outcome::Failed), stop());
}

#[test]
fn failed_publish_in_flight_does_not_stop_the_loop() {
    let bridge = OutboundBridge::pipelined();
    let pending = OutboundStep::Publish(publish("k", &[1], false));
    assert_eq!(bridge.next(&pending, Outcome::Failed), OutboundStep::Take);
    assert_eq!(bridge.next(&pending, Outcome::Done), OutboundStep::Take);
    assert_eq!(
        bridge.next(&pending, Outcome::Taken(("k".to_string(), vec![2]))),
        OutboundStep::Take
    );
}

#[test]
fn pipelined_bridge_publishes_past_a_failed_publish() {
    let bridge = OutboundBridge::pipelined();
    let payloads: Vec<(String, Vec<u8>)> =
        (0u8..6).map(|i| (format!("key.{}", i), vec![i])).collect();
    let mut published = Vec::new();
    let mut step = bridge.first();
    let mut queue = payloads.clone().into_iter();
    loop {
        step = match step {
            OutboundStep::Take => match queue.next() {
                Some(payload) => bridge.next(&OutboundStep::Take, Outcome::Taken(payload)),
                None => bridge.next(&OutboundStep::Take, Outcome::Failed),
            },
            OutboundStep::Publish(publish) => {
                let outcome = if publish.body == vec![2] { Outcome::Failed } else { Outcome::Done };
                published.push((publish.routing_key.clone(), publish.body.clone()));
                assert!(!publish.awaited);
                bridge.next(&OutboundStep::Publish(publish), outcome)
            }
            OutboundStep::Stop(_) => break,
        };
    }
    assert_eq!(published, payloads);
}

#[test]
fn pipelined_bridge_stops_when_the_queue_closes() {
    let bridge = OutboundBridge::pipelined();
    assert_eq!(bridge.next(&OutboundStep::Take, Outcome::Failed), stop());
    assert_eq!(bridge.next(&stop(), Outcome::Done), stop());
}

#[test]
fn closed_queue_stops_the_loop_at_once() {
    let bridge = OutboundBridge::sequential();
    assert_eq!(bridge.next(&OutboundStep::Take, Outcome::Failed), stop());
    assert_eq!(bridge.next(&OutboundStep::Take, Outcome::Done), stop());
}

#[test]
fn stop_is_final() {
    let bridge = OutboundBridge::sequential();
    let mut step = bridge.next(&OutboundStep::Take, Outcome::Failed);
    for round in 0..5 {
        let outcome = match round % 3 {
            0 => Outcome::Taken(("k".to_string(), vec![1])),
            1 => Outcome::Done,
            _ => Outcome::Failed,
        };
        step = bridge.next(&step, outcome);
        assert_eq!(step, stop());
    }
}

#[test]
fn publishes_follow_the_payloads_in_order() {
    let bridge = OutboundBridge::sequential();
    let payloads: Vec<(String, Vec<u8>)> =
        (0u8..20).map(|i| (format!("key.{}", i % 3), vec![i, i + 1])).collect();
    let mut published = Vec::new();
    let mut step = bridge.first();
    let mut queue = payloads.clone().into_iter();
    loop {
        step = match step {
            OutboundStep::Take => match queue.next() {
                Some(payload) => bridge.next(&OutboundStep::Take, Outcome::Taken(payload)),
                None => bridge.next(&OutboundStep::Take, Outcome::Failed),
            },
            OutboundStep::Publish(publish) => {
                published.push((publish.routing_key.clone(), publish.body.clone()));
                bridge.next(&OutboundStep::Publish(publish), Outcome::Done)
            }
            OutboundStep::Stop(shutdown) => {
                assert_eq!(shutdown.close.code, 200);
                assert_eq!(shutdown.close.reason, "Bye");
                assert_eq!(shutdown.status, 0);
                break;
            }
        };
    }
    assert_eq!(published.len(), 20);
    assert_eq!(published, payloads);
}

#[test]
fn payload_is_publishable_with_a_key() {
    assert!(is_publishable(&("k".to_string(), vec![])));
    assert!(is_publishable(&("é".to_string(), vec![1])));
    assert!(!is_publishable(&(String::new(), vec![1, 2])));
}
