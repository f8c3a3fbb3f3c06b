//! The topology declarator: which exchange, queue and bindings a bridge
//! declares before it consumes or publishes.

use crate::broker::{
    required, step_views, OnFailure, SetupOp, SetupOpView, SetupStep, SetupStepView,
};
use vstd::prelude::*;

verus! {

/// Name of the one exchange that every bridge publishes to and binds to.
pub const EXCHANGE: &'static str = "cita";

/// Type of that exchange: routing keys are matched as hierarchical patterns.
pub const EXCHANGE_TYPE: &'static str = "topic";

/// The declaration of the exchange: not passive, so that it is created where
/// it is missing and accepted where it exists; not durable, not deleted when
/// unused, not internal, and answered by the broker.
pub open spec fn exchange_declared() -> SetupStepView {
    required(
        SetupOpView::DeclareExchange {
            exchange: EXCHANGE@,
            kind: EXCHANGE_TYPE@,
            passive: false,
            durable: false,
            auto_delete: false,
            internal: false,
            nowait: false,
        },
    )
}

/// The declaration of the queue `queue`: not passive, not durable, not
/// exclusive, not deleted when unused, and answered by the broker.
pub open spec fn queue_declared(queue: Seq<char>) -> SetupStepView {
    required(
        SetupOpView::DeclareQueue {
            queue,
            passive: false,
            durable: false,
            exclusive: false,
            auto_delete: false,
            nowait: false,
        },
    )
}

/// The purge of the queue `queue`, answered by the broker.
pub open spec fn queue_purged(queue: Seq<char>) -> SetupStepView {
    required(SetupOpView::PurgeQueue { queue, nowait: false })
}

/// The binding of `queue` to the exchange under `routing_key`, answered by
/// the broker.
pub open spec fn queue_bound(queue: Seq<char>, routing_key: Seq<char>) -> SetupStepView {
    required(
        SetupOpView::BindQueue { queue, exchange: EXCHANGE@, routing_key, nowait: false },
    )
}

/// One binding of `queue` for each of `keys`, in their order.
pub open spec fn keys_bound(queue: Seq<char>, keys: Seq<Seq<char>>) -> Seq<SetupStepView> {
    Seq::new(keys.len(), |i: int| queue_bound(queue, keys[i]))
}

/// The registration of a consumer on `queue`: deliveries wait for an
/// acknowledgment (`no_ack` is off), the consumer shares the queue, and the
/// broker answers.
pub open spec fn consumer_registered(queue: Seq<char>, consumer_tag: Seq<char>) -> SetupStepView {
    required(
        SetupOpView::Consume {
            queue,
            consumer_tag,
            no_local: false,
            no_ack: false,
            exclusive: false,
            nowait: false,
        },
    )
}

/// The binding keys as sequences of characters.
pub open spec fn key_views(keys: Seq<&str>) -> Seq<Seq<char>> {
    keys.map_values(|key: &str| key@)
}

/// Plans the declaration of the exchange.
pub fn declare_exchange() -> (step: SetupStep)
    ensures
        step@ == exchange_declared(),
{
    SetupStep {
        op: SetupOp::DeclareExchange {
            exchange: EXCHANGE.to_owned(),
            kind: EXCHANGE_TYPE.to_owned(),
            passive: false,
            durable: false,
            auto_delete: false,
            internal: false,
            nowait: false,
        },
        on_failure: OnFailure::Abort,
    }
}

/// Plans the declaration of the queue `queue`.
pub fn declare_queue(queue: &str) -> (step: SetupStep)
    ensures
        step@ == queue_declared(queue@),
{
    SetupStep {
        op: SetupOp::DeclareQueue {
            queue: queue.to_owned(),
            passive: false,
            durable: false,
            exclusive: false,
            auto_delete: false,
            nowait: false,
        },
        on_failure: OnFailure::Abort,
    }
}

/// Plans the purge of the queue `queue`.
pub fn purge_queue(queue: &str) -> (step: SetupStep)
    ensures
        step@ == queue_purged(queue@),
{
    SetupStep {
        op: SetupOp::PurgeQueue { queue: queue.to_owned(), nowait: false },
        on_failure: OnFailure::Abort,
    }
}

/// Plans the binding of `queue` under `routing_key`.
pub fn bind_queue(queue: &str, routing_key: &str) -> (step: SetupStep)
    ensures
        step@ == queue_bound(queue@, routing_key@),
{
    SetupStep {
        op: SetupOp::BindQueue {
            queue: queue.to_owned(),
            exchange: EXCHANGE.to_owned(),
            routing_key: routing_key.to_owned(),
            nowait: false,
        },
        on_failure: OnFailure::Abort,
    }
}

/// Binds `queue` once for each key, in the order of `keys`.
pub fn bind_keys(queue: &str, keys: &[&str]) -> (steps: Vec<SetupStep>)
    ensures
        step_views(steps@) == keys_bound(queue@, key_views(keys@)),
{
    let mut steps: Vec<SetupStep> = Vec::new();
    let mut i: usize = 0;
    while i < keys.len()
        invariant
            i <= keys.len(),
            steps.len() == i,
            forall|j: int|
                0 <= j < i ==> (#[trigger] steps@[j])@ == queue_bound(queue@, keys@[j]@),
        decreases keys.len() - i,
    {
        steps.push(bind_queue(queue, keys[i]));
        i += 1;
    }
    assert(step_views(steps@) =~= keys_bound(queue@, key_views(keys@)));
    steps
}

/// Plans the registration of a consumer, tagged `consumer_tag`, on `queue`.
pub fn register_consumer(queue: &str, consumer_tag: &str) -> (step: SetupStep)
    ensures
        step@ == consumer_registered(queue@, consumer_tag@),
{
    SetupStep {
        op: SetupOp::Consume {
            queue: queue.to_owned(),
            consumer_tag: consumer_tag.to_owned(),
            no_local: false,
            no_ack: false,
            exclusive: false,
            nowait: false,
        },
        on_failure: OnFailure::Abort,
    }
}

/// Binding a queue to K keys gives exactly K bind operations, the i-th for
/// the i-th key, each naming that queue and the one exchange; where the keys
/// differ from each other, so do the operations.
pub proof fn lemma_one_binding_per_key(queue: Seq<char>, keys: Seq<Seq<char>>)
    ensures
        keys_bound(queue, keys).len() == keys.len(),
        forall|i: int|
            0 <= i < keys.len() ==> #[trigger] keys_bound(queue, keys)[i].op
                == (SetupOpView::BindQueue {
                queue,
                exchange: EXCHANGE@,
                routing_key: keys[i],
                nowait: false,
            }),
        keys.no_duplicates() ==> keys_bound(queue, keys).no_duplicates(),
{
    let bound = keys_bound(queue, keys);
    if keys.no_duplicates() {
        assert forall|i: int, j: int|
            0 <= i < bound.len() && 0 <= j < bound.len() && i != j implies bound[i]
            != bound[j] by {
            assert(bound[i].op->BindQueue_routing_key == keys[i]);
            assert(bound[j].op->BindQueue_routing_key == keys[j]);
        }
    }
}

} // verus!
