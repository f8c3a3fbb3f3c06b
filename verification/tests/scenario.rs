use rabbitmq_adapter::broker::{Ack, Delivery, SetupOp};
use rabbitmq_adapter::outbound::{OutboundStep, Outcome};
use rabbitmq_adapter::setup::SetupRun;
use rabbitmq_adapter::v1::{self, InboundStep};
use std::collections::VecDeque;
use std::sync::mpsc::{channel, Receiver, Sender};

/// A broker in memory: one queue, bound under the keys that it was bound
/// with; what is published under a bound key is delivered, in order.
struct Broker {
    bound: Vec<String>,
    queue: VecDeque<(String, Vec<u8>)>,
    next_tag: u64,
    acked: Vec<Ack>,
    publishes: usize,
    closed: Vec<(u16, String)>,
}

impl Broker {
    fn new() -> Broker {
        Broker {
            bound: Vec::new(),
            queue: VecDeque::new(),
            next_tag: 1,
            acked: Vec::new(),
            publishes: 0,
            closed: Vec::new(),
        }
    }

    fn set_up(&mut self, steps: Vec<rabbitmq_adapter::broker::SetupStep>) {
        let mut run = SetupRun::new(steps);
        while let Some(step) = run.current() {
            if let SetupOp::BindQueue { routing_key, .. } = &step.op {
                self.bound.push(routing_key.clone());
            }
            run.report(true);
        }
        assert!(run.is_ready());
    }

    fn deliver(&mut self) -> Option<Delivery> {
        let (routing_key, body) = self.queue.pop_front()?;
        let delivery_tag = self.next_tag;
        self.next_tag += 1;
        Some(Delivery { delivery_tag, routing_key, body })
    }
}

/// Drives both bridges of the blocking variant against the broker in memory
/// until the outbound queue is closed and every delivery is handled.
fn drive(
    broker: &mut Broker,
    keys: &[&str],
    outbound: Receiver<(String, Vec<u8>)>,
    inbound: Sender<(String, Vec<u8>)>,
) {
    let mut adapter = v1::start("amqp://localhost/%2f", "q1", keys, inbound);
    let subscriber = std::mem::take(&mut adapter.subscriber);
    let publisher = std::mem::take(&mut adapter.publisher);
    broker.set_up(subscriber);
    broker.set_up(publisher);
    broker.bound.sort();
    broker.bound.dedup();

    let mut step = adapter.outbound.first();
    loop {
        step = match step {
            OutboundStep::Take => match outbound.recv() {
                Ok(payload) => adapter.outbound.next(&OutboundStep::Take, Outcome::Taken(payload)),
                Err(_) => adapter.outbound.next(&OutboundStep::Take, Outcome::Failed),
            },
            OutboundStep::Publish(publish) => {
                broker.publishes += 1;
                if broker.bound.contains(&publish.routing_key) {
                    broker.queue.push_back((publish.routing_key.clone(), publish.body.clone()));
                }
                adapter.outbound.next(&OutboundStep::Publish(publish), Outcome::Done)
            }
            OutboundStep::Stop(shutdown) => {
                broker.closed.push((shutdown.close.code, shutdown.close.reason));
                assert_eq!(shutdown.status, 0);
                break;
            }
        };
        while let Some(delivery) = broker.deliver() {
            let mut forwarded = false;
            for step in adapter.handler.handle_delivery(delivery) {
                match step {
                    InboundStep::Forward(payload) => {
                        let _ = adapter.handler.forward(payload);
                        forwarded = true;
                    }
                    InboundStep::Acknowledge(ack) => {
                        assert!(forwarded);
                        broker.acked.push(ack);
                    }
                }
            }
        }
    }
}

#[test]
fn three_payloads_reach_the_subscriber() {
    let (pub_tx, pub_rx) = channel();
    let (sub_tx, sub_rx) = channel();
    pub_tx.send(("k1".to_string(), vec![0x01])).unwrap();
    pub_tx.send(("k1".to_string(), vec![0x02])).unwrap();
    pub_tx.send(("k2".to_string(), vec![0x03])).unwrap();
    drop(pub_tx);

    let mut broker = Broker::new();
    drive(&mut broker, &["k1", "k2"], pub_rx, sub_tx);

    let received: Vec<(String, Vec<u8>)> = sub_rx.try_iter().collect();
    assert_eq!(
        received,
        vec![
            ("k1".to_string(), vec![0x01]),
            ("k1".to_string(), vec![0x02]),
            ("k2".to_string(), vec![0x03]),
        ]
    );
    assert_eq!(broker.publishes, 3);
    assert_eq!(
        broker.acked,
        vec![
            Ack { delivery_tag: 1, multiple: false },
            Ack { delivery_tag: 2, multiple: false },
            Ack { delivery_tag: 3, multiple: false },
        ]
    );
    assert_eq!(broker.bound, vec!["k1".to_string(), "k2".to_string()]);
    assert_eq!(broker.closed, vec![(200, "Bye".to_string())]);
}

#[test]
fn fifty_thousand_payloads_are_all_received() {
    let (pub_tx, pub_rx) = channel();
    let (sub_tx, sub_rx) = channel();
    for _ in 0..50_000 {
        pub_tx.send(("amqp-test".to_string(), b"msg".to_vec())).unwrap();
    }
    drop(pub_tx);

    let mut broker = Broker::new();
    drive(&mut broker, &["amqp-test"], pub_rx, sub_tx);

    let mut count = 0usize;
    for (routing_key, body) in sub_rx.try_iter() {
        assert_eq!(routing_key, "amqp-test");
        assert_eq!(body, b"msg".to_vec());
        count += 1;
    }
    assert_eq!(count, 50_000);
    assert_eq!(broker.publishes, 50_000);
    assert_eq!(broker.acked.len(), 50_000);
}

#[test]
fn closing_the_outbound_queue_ends_the_bridge() {
    let (pub_tx, pub_rx) = channel::<(String, Vec<u8>)>();
    let (sub_tx, sub_rx) = channel();
    drop(pub_tx);
    let mut broker = Broker::new();
    drive(&mut broker, &["k1"], pub_rx, sub_tx);
    assert_eq!(broker.publishes, 0);
    assert_eq!(broker.closed, vec![(200, "Bye".to_string())]);
    assert!(sub_rx.try_iter().next().is_none());
}
