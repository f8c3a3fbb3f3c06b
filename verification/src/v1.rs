//! The blocking variant: one thread consumes, one thread publishes, and each
//! broker operation is awaited before the next one starts.

use crate::broker::{
    graceful_shutdown, optional, required, step_views, Ack, Delivery, DeliveryView, OnFailure,
    SetupOp, SetupOpView, SetupStep, SetupStepView, Shutdown,
};
use crate::outbound::OutboundBridge;
use crate::supervisor::Report;
use crate::topology::{
    bind_keys, consumer_registered, declare_exchange, declare_queue, exchange_declared, key_views,
    keys_bound, queue_declared, register_consumer,
};
use crate::Payload;
use std::sync::mpsc::Sender;
use vstd::prelude::*;

verus! {

/// The sending half of a channel of the standard library. Nothing inside it
/// is visible here: a value of this type is only carried and handed on.
#[verifier::external_type_specification]
#[verifier::external_body]
#[verifier::reject_recursive_types(T)]
pub struct ExSender<T>(Sender<T>);

/// `std::sync::mpsc::Sender::send`: offers `payload` to the receiving half
/// without waiting. Whether the offer is taken depends on the receiver, which
/// may be gone; the one thing known of every outcome is that a refused
/// payload comes back as it was.
#[verifier::external_body]
fn send(tx: &Sender<Payload>, payload: Payload) -> (outcome: Result<(), Payload>)
    ensures
        outcome matches Err(back) ==> back == payload,
{
    tx.send(payload).map_err(|refused| refused.0)
}

/// Channel number of the one channel that each blocking session opens.
pub const CHANNEL_ID: u16 = 1;

/// Number of unacknowledged deliveries that the broker may have in flight.
pub const PREFETCH_COUNT: u16 = 10;

/// One thing to do for a delivery.
#[derive(Debug, PartialEq, Eq)]
pub enum InboundStep {
    /// Offer the payload to the inbound queue; a refusal is passed over.
    Forward(Payload),
    /// Acknowledge to the broker.
    Acknowledge(Ack),
}

/// An inbound step with sequences in place of the string and the vector.
pub enum InboundStepView {
    Forward((Seq<char>, Seq<u8>)),
    Acknowledge(Ack),
}

impl View for InboundStep {
    type V = InboundStepView;

    open spec fn view(&self) -> InboundStepView {
        match *self {
            InboundStep::Forward(payload) => InboundStepView::Forward(payload@),
            InboundStep::Acknowledge(ack) => InboundStepView::Acknowledge(ack),
        }
    }
}

/// The views of a sequence of inbound steps, in the same order.
pub open spec fn inbound_views(steps: Seq<InboundStep>) -> Seq<InboundStepView> {
    steps.map_values(|step: InboundStep| step@)
}

/// What is done for `delivery`, in this order: its routing key and body are
/// offered to the inbound queue, then the delivery, and no other, is
/// acknowledged.
pub open spec fn delivery_steps(delivery: DeliveryView) -> Seq<InboundStepView> {
    seq![
        InboundStepView::Forward((delivery.routing_key, delivery.body)),
        InboundStepView::Acknowledge(Ack { delivery_tag: delivery.delivery_tag, multiple: false }),
    ]
}

/// What is done for `deliveries` as they arrive one after the other.
pub open spec fn steps_for(deliveries: Seq<DeliveryView>) -> Seq<InboundStepView>
    decreases deliveries.len(),
{
    if deliveries.len() == 0 {
        Seq::empty()
    } else {
        delivery_steps(deliveries[0]) + steps_for(deliveries.drop_first())
    }
}

/// What is done for `deliveries` as they arrive one after the other, where
/// the acknowledgment of the i-th delivery succeeds or not as
/// `acknowledged[i]` says: after a verdict to give up, nothing more is done.
pub open spec fn steps_while(
    variant: Variant,
    deliveries: Seq<DeliveryView>,
    acknowledged: Seq<bool>,
) -> Seq<InboundStepView>
    recommends
        acknowledged.len() == deliveries.len(),
    decreases deliveries.len(),
{
    if deliveries.len() == 0 || acknowledged.len() == 0 {
        Seq::empty()
    } else {
        match after_acknowledgment(variant, acknowledged[0]) {
            InboundVerdict::GoOn => delivery_steps(deliveries[0]) + steps_while(
                variant,
                deliveries.drop_first(),
                acknowledged.drop_first(),
            ),
            InboundVerdict::GiveUp { .. } => delivery_steps(deliveries[0]),
        }
    }
}

/// The acknowledgments among `steps`, in their order.
pub open spec fn acknowledgments(steps: Seq<InboundStepView>) -> Seq<Ack>
    decreases steps.len(),
{
    if steps.len() == 0 {
        Seq::empty()
    } else {
        match steps[0] {
            InboundStepView::Acknowledge(ack) => seq![ack] + acknowledgments(steps.drop_first()),
            _ => acknowledgments(steps.drop_first()),
        }
    }
}

/// How a bridge is driven.
#[derive(Debug, Clone, Copy, PartialEq, Eq, Structural)]
pub enum Variant {
    /// By a thread of its own that waits for each broker operation.
    Blocking,
    /// By the tasks of a reactor, under a supervisor.
    Reactor,
}

/// What follows an acknowledgment.
#[derive(Debug, Clone, Copy, PartialEq, Eq, Structural)]
pub enum InboundVerdict {
    /// The next delivery is taken from the stream.
    GoOn,
    /// No further delivery is taken, forwarded or acknowledged: the inbound
    /// bridge fails, and the supervisor is told so with `report`.
    GiveUp { report: Report },
}

/// What follows an acknowledgment that succeeded or not.
///
/// The blocking variant goes on in either case: a failed acknowledgment is
/// passed over. The reactor variant goes on after a success and gives up
/// after a failure, which is reported to the supervisor as a failure.
pub open spec fn after_acknowledgment(variant: Variant, succeeded: bool) -> InboundVerdict {
    if succeeded || variant == Variant::Blocking {
        InboundVerdict::GoOn
    } else {
        InboundVerdict::GiveUp { report: Report::Failed }
    }
}

impl Variant {
    /// What follows an acknowledgment that succeeded or not.
    pub fn acknowledged(self, succeeded: bool) -> (verdict: InboundVerdict)
        ensures
            verdict == after_acknowledgment(self, succeeded),
    {
        if succeeded {
            InboundVerdict::GoOn
        } else {
            match self {
                Variant::Blocking => InboundVerdict::GoOn,
                Variant::Reactor => InboundVerdict::GiveUp { report: Report::Failed },
            }
        }
    }
}

/// The inbound bridge: it holds the sending half of the inbound queue.
pub struct Handler {
    tx: Sender<Payload>,
    variant: Variant,
}

impl Handler {
    /// The sending half that this handler forwards to.
    pub closed spec fn sink(&self) -> Sender<Payload> {
        self.tx
    }

    /// How the bridge of this handler is driven.
    pub closed spec fn spec_variant(&self) -> Variant {
        self.variant
    }

    /// A handler of the blocking variant that forwards to `tx`.
    pub fn new(tx: Sender<Payload>) -> (handler: Handler)
        ensures
            handler.sink() == tx,
            handler.variant() == Variant::Blocking,
    {
        Handler { tx: tx, variant: Variant::Blocking }
    }

    /// A handler of the reactor variant that forwards to `tx`.
    pub fn reactor(tx: Sender<Payload>) -> (handler: Handler)
        ensures
            handler.sink() == tx,
            handler.variant() == Variant::Reactor,
    {
        Handler { tx: tx, variant: Variant::Reactor }
    }

    /// How the bridge of this handler is driven.
    #[verifier::when_used_as_spec(spec_variant)]
    pub fn variant(&self) -> (variant: Variant)
        ensures
            variant == self.spec_variant(),
    {
        self.variant
    }

    /// The steps for one delivery: forward it, then acknowledge it. The
    /// acknowledgment does not depend on how the forwarding ends. What
    /// follows the acknowledgment is for `Variant::acknowledged` to say.
    pub fn handle_delivery(&mut self, delivery: Delivery) -> (steps: Vec<InboundStep>)
        ensures
            inbound_views(steps@) == delivery_steps(delivery@),
            final(self).sink() == old(self).sink(),
            final(self).variant() == old(self).variant(),
    {
        let mut steps: Vec<InboundStep> = Vec::new();
        steps.push(InboundStep::Forward((delivery.routing_key, delivery.body)));
        steps.push(
            InboundStep::Acknowledge(Ack { delivery_tag: delivery.delivery_tag, multiple: false }),
        );
        assert(inbound_views(steps@) =~= delivery_steps(delivery@));
        steps
    }

    /// Carries out a `Forward` step: offers `payload` to the inbound queue
    /// without waiting. A payload that the queue refuses, because its
    /// receiver is gone, is handed back.
    pub fn forward(&self, payload: Payload) -> (outcome: Result<(), Payload>)
        ensures
            outcome matches Err(back) ==> back == payload,
    {
        send(&self.tx, payload)
    }

    /// What follows the regular end of the stream of deliveries: the
    /// channel is closed in the regular way and the process exits with
    /// status 0. A bridge that gave up does not come here.
    pub fn stream_closed(&self) -> (shutdown: Shutdown)
        ensures
            shutdown@ == graceful_shutdown(),
    {
        Shutdown::graceful()
    }
}

/// A delivery is acknowledged exactly once, by its own tag and without the
/// `multiple` flag, and never before its payload has been offered to the
/// inbound queue: among the steps for one delivery there is one
/// acknowledgment, and the step before it forwards the delivery's routing
/// key and body.
pub proof fn lemma_acknowledged_once_after_forward(delivery: DeliveryView)
    ensures
        acknowledgments(delivery_steps(delivery)) == seq![
            Ack { delivery_tag: delivery.delivery_tag, multiple: false },
        ],
        forall|i: int|
            0 <= i < delivery_steps(delivery).len() && (#[trigger] delivery_steps(
                delivery,
            )[i]) is Acknowledge ==> i > 0 && delivery_steps(delivery)[i - 1]
                == InboundStepView::Forward((delivery.routing_key, delivery.body)),
{
    let steps = delivery_steps(delivery);
    let ack = Ack { delivery_tag: delivery.delivery_tag, multiple: false };
    reveal_with_fuel(acknowledgments, 3);
    assert(steps.drop_first() =~= seq![InboundStepView::Acknowledge(ack)]);
    assert(steps.drop_first().drop_first() =~= Seq::<InboundStepView>::empty());
    assert(acknowledgments(steps) =~= seq![ack]);
}

/// Over any run of deliveries there are as many acknowledgments as
/// deliveries, the i-th for the tag of the i-th delivery.
pub proof fn lemma_one_acknowledgment_per_delivery(deliveries: Seq<DeliveryView>)
    ensures
        acknowledgments(steps_for(deliveries)) == deliveries.map_values(
            |delivery: DeliveryView| Ack { delivery_tag: delivery.delivery_tag, multiple: false },
        ),
    decreases deliveries.len(),
{
    let expected = deliveries.map_values(
        |delivery: DeliveryView| Ack { delivery_tag: delivery.delivery_tag, multiple: false },
    );
    if deliveries.len() == 0 {
        assert(acknowledgments(steps_for(deliveries)) =~= expected);
    } else {
        let rest = deliveries.drop_first();
        lemma_one_acknowledgment_per_delivery(rest);
        let steps = steps_for(deliveries);
        let ack = Ack { delivery_tag: deliveries[0].delivery_tag, multiple: false };
        assert(steps.drop_first() =~= seq![InboundStepView::Acknowledge(ack)] + steps_for(rest));
        assert(steps.drop_first().drop_first() =~= steps_for(rest));
        assert(acknowledgments(steps.drop_first()) == seq![ack] + acknowledgments(
            steps_for(rest),
        ));
        assert(acknowledgments(steps) =~= expected);
    }
}

/// The blocking variant handles every delivery, whether the acknowledgments
/// before it succeeded or not.
pub proof fn lemma_blocking_goes_on(deliveries: Seq<DeliveryView>, acknowledged: Seq<bool>)
    requires
        acknowledged.len() == deliveries.len(),
    ensures
        steps_while(Variant::Blocking, deliveries, acknowledged) == steps_for(deliveries),
    decreases deliveries.len(),
{
    if deliveries.len() > 0 {
        lemma_blocking_goes_on(deliveries.drop_first(), acknowledged.drop_first());
    }
}

/// The reactor variant stops at the first acknowledgment that fails: the
/// deliveries up to that one are forwarded and acknowledged, each once and
/// in order, and none after it is forwarded or acknowledged.
pub proof fn lemma_reactor_gives_up(
    deliveries: Seq<DeliveryView>,
    acknowledged: Seq<bool>,
    failed: int,
)
    requires
        acknowledged.len() == deliveries.len(),
        0 <= failed < deliveries.len(),
        !acknowledged[failed],
        forall|i: int| 0 <= i < failed ==> acknowledged[i],
    ensures
        steps_while(Variant::Reactor, deliveries, acknowledged) == steps_for(
            deliveries.take(failed + 1),
        ),
    decreases failed,
{
    let handled = deliveries.take(failed + 1);
    assert(handled[0] == deliveries[0]);
    if failed == 0 {
        assert(handled.drop_first() =~= Seq::<DeliveryView>::empty());
        assert(steps_for(handled.drop_first()) =~= Seq::<InboundStepView>::empty());
        assert(steps_for(handled) =~= delivery_steps(deliveries[0]));
    } else {
        assert(acknowledged[0]);
        lemma_reactor_gives_up(deliveries.drop_first(), acknowledged.drop_first(), failed - 1);
        assert(handled.drop_first() =~= deliveries.drop_first().take(failed));
    }
}

/// The steps that open a channel of the blocking variant on the broker at
/// `amqp_url`: the session, the channel, the prefetch limit, whose refusal
/// is passed over, and the exchange.
pub open spec fn channel_opened(amqp_url: Seq<char>) -> Seq<SetupStepView> {
    seq![
        required(SetupOpView::OpenSession { url: amqp_url }),
        required(SetupOpView::OpenChannel { id: CHANNEL_ID }),
        optional(SetupOpView::Prefetch { count: PREFETCH_COUNT }),
        exchange_declared(),
    ]
}

/// Plans the opening of one channel on the broker at `amqp_url`.
pub fn init_channel(amqp_url: &str) -> (steps: Vec<SetupStep>)
    ensures
        step_views(steps@) == channel_opened(amqp_url@),
{
    let mut steps: Vec<SetupStep> = Vec::new();
    steps.push(
        SetupStep {
            op: SetupOp::OpenSession { url: amqp_url.to_owned() },
            on_failure: OnFailure::Abort,
        },
    );
    steps.push(
        SetupStep { op: SetupOp::OpenChannel { id: CHANNEL_ID }, on_failure: OnFailure::Abort },
    );
    steps.push(
        SetupStep { op: SetupOp::Prefetch { count: PREFETCH_COUNT }, on_failure: OnFailure::Ignore },
    );
    steps.push(declare_exchange());
    assert(step_views(steps@) =~= channel_opened(amqp_url@));
    steps
}

/// Consumer tag of the blocking variant: empty, so that the broker picks one.
pub const CONSUMER_TAG: &'static str = "";

/// The setup of the subscriber's channel: the channel is opened, the queue
/// declared and bound once for each key, and the consumer registered.
pub open spec fn subscriber_setup(
    amqp_url: Seq<char>,
    name: Seq<char>,
    keys: Seq<Seq<char>>,
) -> Seq<SetupStepView> {
    channel_opened(amqp_url) + seq![queue_declared(name)] + keys_bound(name, keys) + seq![
        consumer_registered(name, CONSUMER_TAG@),
    ]
}

/// A bridge of the blocking variant, ready to be driven.
pub struct Adapter {
    /// Setup of the subscriber's channel, in order.
    pub subscriber: Vec<SetupStep>,
    /// What the subscriber does with each delivery.
    pub handler: Handler,
    /// Setup of the publisher's channel, in order.
    pub publisher: Vec<SetupStep>,
    /// The publishing loop.
    pub outbound: OutboundBridge,
}

/// Plans the bridge between the broker at `amqp_url` and the two queues of
/// the caller: deliveries of the queue `name`, bound under `keys`, go to
/// `tx`; payloads of the outbound queue are published one at a time.
pub fn start(amqp_url: &str, name: &str, keys: &[&str], tx: Sender<Payload>) -> (adapter: Adapter)
    ensures
        step_views(adapter.subscriber@) == subscriber_setup(amqp_url@, name@, key_views(keys@)),
        adapter.handler.sink() == tx,
        adapter.handler.variant() == Variant::Blocking,
        step_views(adapter.publisher@) == channel_opened(amqp_url@),
        adapter.outbound.awaited,
{
    let mut subscriber = init_channel(amqp_url);
    subscriber.push(declare_queue(name));
    let mut bindings = bind_keys(name, keys);
    let ghost opened = subscriber@;
    let ghost bound = bindings@;
    subscriber.append(&mut bindings);
    subscriber.push(register_consumer(name, CONSUMER_TAG));
    assert(step_views(subscriber@) =~= subscriber_setup(amqp_url@, name@, key_views(keys@))) by {
        assert(step_views(opened) =~= channel_opened(amqp_url@) + seq![
            queue_declared(name@),
        ]);
        assert(step_views(bound) == keys_bound(name@, key_views(keys@)));
        assert(subscriber@ =~= opened + bound + seq![subscriber@.last()]);
    }
    Adapter {
        subscriber,
        handler: Handler::new(tx),
        publisher: init_channel(amqp_url),
        outbound: OutboundBridge::sequential(),
    }
}

} // verus!
