//! The reactor variant: one thread drives every broker operation as a
//! cooperative task, and a relay thread feeds it from the blocking outbound
//! queue.

use crate::broker::{
    required, step_views, OnFailure, SetupOp, SetupOpView, SetupStep, SetupStepView,
};
use crate::outbound::OutboundBridge;
use crate::relay::{drained_queue, Tally, TransferRelay, QUEUE_BOUND};
use crate::supervisor::{duty_of, followed, Duty, Phase, Report};
use crate::topology::{
    bind_keys, consumer_registered, declare_exchange, declare_queue, exchange_declared, key_views,
    keys_bound, purge_queue, queue_declared, queue_purged, register_consumer,
};
use crate::uri::{amqp_uri, authority, parse, BrokerUri, BrokerUriView};
use crate::v1::{Handler, Variant};
use crate::Payload;
use futures::sync::mpsc::Receiver;
use std::sync::mpsc::Sender;
use vstd::prelude::*;

pub use crate::topology::{EXCHANGE, EXCHANGE_TYPE};

verus! {

/// The setup of the outbound bridge: a channel of its own, the queue, and
/// the purge of what the queue still holds.
pub open spec fn publisher_setup(name: Seq<char>) -> Seq<SetupStepView> {
    seq![required(SetupOpView::CreateChannel), queue_declared(name), queue_purged(name)]
}

/// The setup of the inbound bridge: a channel of its own, the exchange, the
/// queue, one binding for each key, and the consumer, tagged with the
/// queue's name.
pub open spec fn consumer_setup(name: Seq<char>, keys: Seq<Seq<char>>) -> Seq<SetupStepView> {
    seq![required(SetupOpView::CreateChannel), exchange_declared(), queue_declared(name)]
        + keys_bound(name, keys) + seq![consumer_registered(name, name)]
}

/// The setup of the outbound bridge for the queue `name`.
pub fn publisher(name: &str) -> (steps: Vec<SetupStep>)
    ensures
        step_views(steps@) == publisher_setup(name@),
{
    let mut steps: Vec<SetupStep> = Vec::new();
    steps.push(SetupStep { op: SetupOp::CreateChannel, on_failure: OnFailure::Abort });
    steps.push(declare_queue(name));
    steps.push(purge_queue(name));
    assert(step_views(steps@) =~= publisher_setup(name@));
    steps
}

/// The setup of the inbound bridge for the queue `name`, bound under `keys`.
pub fn consumer(name: &str, keys: &[&str]) -> (steps: Vec<SetupStep>)
    ensures
        step_views(steps@) == consumer_setup(name@, key_views(keys@)),
{
    let mut steps: Vec<SetupStep> = Vec::new();
    steps.push(SetupStep { op: SetupOp::CreateChannel, on_failure: OnFailure::Abort });
    steps.push(declare_exchange());
    steps.push(declare_queue(name));
    let mut bindings = bind_keys(name, keys);
    let ghost declared = steps@;
    let ghost bound = bindings@;
    steps.append(&mut bindings);
    steps.push(register_consumer(name, name));
    assert(step_views(steps@) =~= consumer_setup(name@, key_views(keys@))) by {
        assert(step_views(bound) == keys_bound(name@, key_views(keys@)));
        assert(steps@ =~= declared + bound + seq![steps@.last()]);
    }
    steps
}

/// One move of the connection's supervisor: the phase that follows `phase`
/// on `report`, and what the driver does in it.
pub fn amqp_connect(phase: Phase, report: Report) -> (next: (Phase, Duty))
    ensures
        next.0 == followed(phase, report),
        next.1 == duty_of(next.0),
{
    let phase = phase.on(report);
    (phase, phase.duty())
}

/// Why a bridge could not be planned.
#[derive(Debug, Clone, PartialEq, Eq)]
pub enum StartError {
    /// The text is no AMQP URI; the message says why.
    InvalidUri(String),
}

/// A bridge of the reactor variant, ready to be driven.
pub struct Reactor {
    /// What the URI says of the broker.
    pub uri: BrokerUri,
    /// The text of the broker's network address, `host:port`.
    pub address: String,
    /// The phase of the connection: the address is still to be resolved.
    pub phase: Phase,
    /// Setup of the outbound bridge, in order.
    pub publisher: Vec<SetupStep>,
    /// Setup of the inbound bridge, in order.
    pub consumer: Vec<SetupStep>,
    /// What the inbound bridge does with each delivery.
    pub handler: Handler,
    /// The publishing loop.
    pub outbound: OutboundBridge,
    /// The relay from the blocking outbound queue into the bounded one.
    pub relay: TransferRelay,
    /// The receiving half of the bounded queue that the relay feeds.
    pub drain: Receiver<Payload>,
}

/// The bridge for a parsed URI, or the refusal of a text that is none.
pub open spec fn planned(
    reactor: Reactor,
    uri: BrokerUriView,
    name: Seq<char>,
    keys: Seq<Seq<char>>,
    tx: Sender<Payload>,
) -> bool {
    &&& reactor.uri@ == uri
    &&& reactor.address@ == authority(uri.host, uri.port)
    &&& reactor.phase == Phase::Resolving
    &&& step_views(reactor.publisher@) == publisher_setup(name)
    &&& step_views(reactor.consumer@) == consumer_setup(name, keys)
    &&& reactor.handler.sink() == tx
    &&& reactor.handler.variant() == Variant::Reactor
    &&& !reactor.outbound.awaited
    &&& reactor.relay.bound() == QUEUE_BOUND
    &&& reactor.relay.feeds() == drained_queue(reactor.drain)
    &&& reactor.relay.tally() == (Tally { queued: 0, dropped: 0 })
}

impl Reactor {
    /// Plans the bridge from what the parser made of the broker's URI.
    ///
    /// A parsed URI gives a bridge in its first phase: the address text is
    /// the URI's host and port, the two setups are those of the queue `name`
    /// and its keys, deliveries go to `tx` through a handler of the reactor
    /// variant, publishes are not awaited, and
    /// the relay feeds a new queue of `QUEUE_BOUND` payloads, whose receiving
    /// half is `drain`, and has counted nothing. The parser's refusal is handed on with
    /// its message.
    pub fn plan(
        parsed: Result<BrokerUri, String>,
        name: &str,
        keys: &[&str],
        tx: Sender<Payload>,
    ) -> (started: Result<Reactor, StartError>)
        ensures
            match parsed {
                Err(reason) => started matches Err(StartError::InvalidUri(message)) && message
                    == reason,
                Ok(uri) => started matches Ok(reactor) && planned(
                    reactor,
                    uri@,
                    name@,
                    key_views(keys@),
                    tx,
                ),
            },
    {
        match parsed {
            Err(message) => Err(StartError::InvalidUri(message)),
            Ok(uri) => {
                let address = uri.address();
                let (relay, drain) = TransferRelay::bounded();
                Ok(
                    Reactor {
                        uri,
                        address,
                        phase: Phase::initial(),
                        publisher: publisher(name),
                        consumer: consumer(name, keys),
                        handler: Handler::reactor(tx),
                        outbound: OutboundBridge::pipelined(),
                        relay,
                        drain,
                    },
                )
            },
        }
    }
}

/// Plans the bridge between the broker at `amqp_url` and the two queues of
/// the caller: deliveries of the queue `name`, bound under `keys`, go to
/// `tx`; payloads of the outbound queue pass through the relay and are
/// published without waiting for the broker's answer.
///
/// A text that is no AMQP URI is refused with the parser's message.
pub fn start(amqp_url: &str, name: &str, keys: &[&str], tx: Sender<Payload>) -> (started: Result<
    Reactor,
    StartError,
>)
    ensures
        match amqp_uri(amqp_url@) {
            Err(reason) => started matches Err(StartError::InvalidUri(message)) && message@
                == reason,
            Ok(uri) => started matches Ok(reactor) && planned(
                reactor,
                uri,
                name@,
                key_views(keys@),
                tx,
            ),
        },
{
    Reactor::plan(parse(amqp_url), name, keys, tx)
}

} // verus!
