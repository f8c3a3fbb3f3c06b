//! The outbound bridge: the loop that takes payloads from the outbound queue
//! and publishes them, as a function from the step that was just carried out
//! and its outcome to the next step.

use crate::broker::{graceful_shutdown, Publish, PublishView, Shutdown, ShutdownView};
use crate::topology::EXCHANGE;
use crate::Payload;
use vstd::prelude::*;

verus! {

/// Content type that every published message is tagged with.
pub const CONTENT_TYPE: &'static str = "text";

/// What the driver is to do next.
#[derive(Debug, Clone, PartialEq, Eq)]
pub enum OutboundStep {
    /// Take the next payload from the outbound queue, waiting for it.
    Take,
    /// Publish to the broker.
    Publish(Publish),
    /// Leave the loop: close the channel and exit.
    Stop(Shutdown),
}

/// An outbound step with views in place of the values it holds.
pub enum OutboundStepView {
    Take,
    Publish(PublishView),
    Stop(ShutdownView),
}

impl View for OutboundStep {
    type V = OutboundStepView;

    open spec fn view(&self) -> OutboundStepView {
        match *self {
            OutboundStep::Take => OutboundStepView::Take,
            OutboundStep::Publish(publish) => OutboundStepView::Publish(publish@),
            OutboundStep::Stop(shutdown) => OutboundStepView::Stop(shutdown@),
        }
    }
}

/// How the step that was carried out ended.
#[derive(Debug, PartialEq, Eq)]
pub enum Outcome {
    /// The queue handed out a payload.
    Taken(Payload),
    /// The step succeeded and left nothing to hand over.
    Done,
    /// The step failed; for `Take`, the producers of the queue are gone.
    Failed,
}

/// An outcome with sequences in place of the string and the vector.
pub enum OutcomeView {
    Taken((Seq<char>, Seq<u8>)),
    Done,
    Failed,
}

impl View for Outcome {
    type V = OutcomeView;

    open spec fn view(&self) -> OutcomeView {
        match *self {
            Outcome::Taken(payload) => OutcomeView::Taken(payload@),
            Outcome::Done => OutcomeView::Done,
            Outcome::Failed => OutcomeView::Failed,
        }
    }
}

/// A payload may be published only under a routing key that is not empty.
pub open spec fn publishable(payload: (Seq<char>, Seq<u8>)) -> bool {
    payload.0.len() > 0
}

/// The publish of `payload`: to the one exchange, under the payload's
/// routing key, neither mandatory nor immediate, tagged with the fixed
/// content type, carrying the payload's body.
pub open spec fn publication(payload: (Seq<char>, Seq<u8>), awaited: bool) -> PublishView {
    PublishView {
        exchange: EXCHANGE@,
        routing_key: payload.0,
        mandatory: false,
        immediate: false,
        content_type: CONTENT_TYPE@,
        body: payload.1,
        awaited,
    }
}

/// The step that follows `pending` once it ended with `outcome`.
///
/// A payload that was taken is published; a take that hands out nothing
/// ends the loop, since the queue has no producers left. What follows a
/// publish depends on the bridge. One that awaits its publishes goes on to
/// the next take when the publish is done and ends the loop when it failed.
/// One that leaves them in flight goes on to the next take whatever is
/// reported: how a publish ends is its own matter and never ends the loop.
/// The end is final: after a stop comes the graceful stop, whatever is
/// reported.
pub open spec fn next_step(
    awaited: bool,
    pending: OutboundStepView,
    outcome: OutcomeView,
) -> OutboundStepView {
    match pending {
        OutboundStepView::Take => match outcome {
            OutcomeView::Taken(payload) => OutboundStepView::Publish(
                publication(payload, awaited),
            ),
            _ => OutboundStepView::Stop(graceful_shutdown()),
        },
        OutboundStepView::Publish(_) => if !awaited {
            OutboundStepView::Take
        } else {
            match outcome {
                OutcomeView::Done => OutboundStepView::Take,
                _ => OutboundStepView::Stop(graceful_shutdown()),
            }
        },
        OutboundStepView::Stop(_) => OutboundStepView::Stop(graceful_shutdown()),
    }
}

/// The steps that the bridge hands out, one for each of `outcomes`, where
/// `pending` is the step that the first outcome belongs to.
pub open spec fn steps_after(
    awaited: bool,
    pending: OutboundStepView,
    outcomes: Seq<OutcomeView>,
) -> Seq<OutboundStepView>
    decreases outcomes.len(),
{
    if outcomes.len() == 0 {
        Seq::empty()
    } else {
        let step = next_step(awaited, pending, outcomes[0]);
        seq![step] + steps_after(awaited, step, outcomes.drop_first())
    }
}

/// The publishes among `steps`, in their order.
pub open spec fn publishes(steps: Seq<OutboundStepView>) -> Seq<PublishView>
    decreases steps.len(),
{
    if steps.len() == 0 {
        Seq::empty()
    } else {
        match steps[0] {
            OutboundStepView::Publish(publish) => seq![publish] + publishes(steps.drop_first()),
            _ => publishes(steps.drop_first()),
        }
    }
}

/// What the driver reports while every take hands out the next of
/// `payloads` and every publish succeeds.
pub open spec fn served(payloads: Seq<(Seq<char>, Seq<u8>)>) -> Seq<OutcomeView>
    decreases payloads.len(),
{
    if payloads.len() == 0 {
        Seq::empty()
    } else {
        seq![OutcomeView::Taken(payloads[0]), OutcomeView::Done] + served(payloads.drop_first())
    }
}

/// What the driver reports while every take hands out the next of
/// `payloads` and the publish of the i-th payload ends as `answers[i]`.
pub open spec fn answered(
    payloads: Seq<(Seq<char>, Seq<u8>)>,
    answers: Seq<OutcomeView>,
) -> Seq<OutcomeView>
    recommends
        answers.len() == payloads.len(),
    decreases payloads.len(),
{
    if payloads.len() == 0 || answers.len() == 0 {
        Seq::empty()
    } else {
        seq![OutcomeView::Taken(payloads[0]), answers[0]] + answered(
            payloads.drop_first(),
            answers.drop_first(),
        )
    }
}

/// The outbound bridge of one channel.
#[derive(Debug, Clone, Copy, PartialEq, Eq, Structural)]
pub struct OutboundBridge {
    /// Whether each publish is awaited before the next payload is taken.
    pub awaited: bool,
}

impl OutboundBridge {
    /// A bridge that publishes one payload at a time: the next payload is
    /// taken only when the broker has answered the publish before it.
    pub fn sequential() -> (bridge: OutboundBridge)
        ensures
            bridge.awaited,
    {
        OutboundBridge { awaited: true }
    }

    /// A bridge that leaves each publish in flight and takes the next
    /// payload at once; no publish, however it ends, ends the loop.
    pub fn pipelined() -> (bridge: OutboundBridge)
        ensures
            !bridge.awaited,
    {
        OutboundBridge { awaited: false }
    }

    /// The step that the loop starts with.
    pub fn first(&self) -> (step: OutboundStep)
        ensures
            step@ == OutboundStepView::Take,
    {
        OutboundStep::Take
    }

    /// The publish of `payload`.
    pub fn publish(&self, payload: Payload) -> (publish: Publish)
        ensures
            publish@ == publication(payload@, self.awaited),
    {
        Publish {
            exchange: EXCHANGE.to_owned(),
            routing_key: payload.0,
            mandatory: false,
            immediate: false,
            content_type: CONTENT_TYPE.to_owned(),
            body: payload.1,
            awaited: self.awaited,
        }
    }

    /// The step that follows `pending` once it ended with `outcome`.
    pub fn next(&self, pending: &OutboundStep, outcome: Outcome) -> (step: OutboundStep)
        ensures
            step@ == next_step(self.awaited, pending@, outcome@),
    {
        match pending {
            OutboundStep::Take => match outcome {
                Outcome::Taken(payload) => OutboundStep::Publish(self.publish(payload)),
                _ => OutboundStep::Stop(Shutdown::graceful()),
            },
            OutboundStep::Publish(_) => if !self.awaited {
                OutboundStep::Take
            } else {
                match outcome {
                    Outcome::Done => OutboundStep::Take,
                    _ => OutboundStep::Stop(Shutdown::graceful()),
                }
            },
            OutboundStep::Stop(_) => OutboundStep::Stop(Shutdown::graceful()),
        }
    }
}

/// Whether `payload` may be published: its routing key is not empty.
pub fn is_publishable(payload: &Payload) -> (yes: bool)
    ensures
        yes == publishable(payload@),
{
    !payload.0.as_str().is_empty()
}

/// While payloads are taken and their publishes succeed, the bridge hands
/// out one publish for each payload, in the order in which the payloads were
/// taken, each with the routing key and the body of its payload.
pub proof fn lemma_publishes_follow_payloads(awaited: bool, payloads: Seq<(Seq<char>, Seq<u8>)>)
    ensures
        publishes(steps_after(awaited, OutboundStepView::Take, served(payloads)))
            == payloads.map_values(|payload: (Seq<char>, Seq<u8>)| publication(payload, awaited)),
        publishes(steps_after(awaited, OutboundStepView::Take, served(payloads))).len()
            == payloads.len(),
    decreases payloads.len(),
{
    let outcomes = served(payloads);
    let steps = steps_after(awaited, OutboundStepView::Take, outcomes);
    let expected = payloads.map_values(
        |payload: (Seq<char>, Seq<u8>)| publication(payload, awaited),
    );
    if payloads.len() == 0 {
        assert(publishes(steps) =~= expected);
    } else {
        let rest = payloads.drop_first();
        lemma_publishes_follow_payloads(awaited, rest);
        let first = OutboundStepView::Publish(publication(payloads[0], awaited));
        let after_first = outcomes.drop_first();
        assert(after_first[0] == OutcomeView::Done);
        assert(after_first.drop_first() =~= served(rest));
        assert(steps_after(awaited, first, after_first) == seq![OutboundStepView::Take]
            + steps_after(awaited, OutboundStepView::Take, served(rest)));
        let tail = steps_after(awaited, OutboundStepView::Take, served(rest));
        assert(steps == seq![first] + (seq![OutboundStepView::Take] + tail));
        assert(steps.drop_first() =~= seq![OutboundStepView::Take] + tail);
        assert(steps.drop_first().drop_first() =~= tail);
        assert(publishes(steps.drop_first()) == publishes(tail));
        assert(publishes(steps) == seq![publication(payloads[0], awaited)] + publishes(tail));
        assert(publishes(steps) =~= expected);
    }
}

/// A bridge that leaves its publishes in flight publishes every payload that
/// it takes, in the order in which they were taken, however the publishes
/// before it ended: a failed publish keeps none of the later ones back.
pub proof fn lemma_pipelined_publishes_all(
    payloads: Seq<(Seq<char>, Seq<u8>)>,
    answers: Seq<OutcomeView>,
)
    requires
        answers.len() == payloads.len(),
    ensures
        publishes(steps_after(false, OutboundStepView::Take, answered(payloads, answers)))
            == payloads.map_values(|payload: (Seq<char>, Seq<u8>)| publication(payload, false)),
    decreases payloads.len(),
{
    let outcomes = answered(payloads, answers);
    let steps = steps_after(false, OutboundStepView::Take, outcomes);
    let expected = payloads.map_values(
        |payload: (Seq<char>, Seq<u8>)| publication(payload, false),
    );
    if payloads.len() == 0 {
        assert(publishes(steps) =~= expected);
    } else {
        let rest = payloads.drop_first();
        let later = answers.drop_first();
        lemma_pipelined_publishes_all(rest, later);
        let first = OutboundStepView::Publish(publication(payloads[0], false));
        let after_first = outcomes.drop_first();
        assert(after_first[0] == answers[0]);
        assert(after_first.drop_first() =~= answered(rest, later));
        let tail = steps_after(false, OutboundStepView::Take, answered(rest, later));
        assert(steps_after(false, first, after_first) == seq![OutboundStepView::Take] + tail);
        assert(steps == seq![first] + (seq![OutboundStepView::Take] + tail));
        assert(steps.drop_first() =~= seq![OutboundStepView::Take] + tail);
        assert(steps.drop_first().drop_first() =~= tail);
        assert(publishes(steps.drop_first()) == publishes(tail));
        assert(publishes(steps) == seq![publication(payloads[0], false)] + publishes(tail));
        assert(publishes(steps) =~= expected);
    }
}

/// A publishable payload is published under a routing key that is not empty.
pub proof fn lemma_publishable_has_key(awaited: bool, payload: (Seq<char>, Seq<u8>))
    requires
        publishable(payload),
    ensures
        publication(payload, awaited).routing_key.len() > 0,
{
}

/// When a take finds the queue without producers, the next step is the
/// graceful stop, and whatever is reported afterwards, every further step is
/// that stop again: the bridge takes and publishes nothing more.
pub proof fn lemma_stops_when_queue_closes(
    awaited: bool,
    outcome: OutcomeView,
    later: Seq<OutcomeView>,
)
    requires
        !(outcome is Taken),
    ensures
        next_step(awaited, OutboundStepView::Take, outcome) == OutboundStepView::Stop(
            graceful_shutdown(),
        ),
        steps_after(awaited, OutboundStepView::Stop(graceful_shutdown()), later).len()
            == later.len(),
        forall|i: int|
            0 <= i < later.len() ==> #[trigger] steps_after(
                awaited,
                OutboundStepView::Stop(graceful_shutdown()),
                later,
            )[i] == OutboundStepView::Stop(graceful_shutdown()),
    decreases later.len(),
{
    let stop = OutboundStepView::Stop(graceful_shutdown());
    if later.len() > 0 {
        lemma_stops_when_queue_closes(awaited, outcome, later.drop_first());
        let tail = steps_after(awaited, stop, later.drop_first());
        assert(steps_after(awaited, stop, later) == seq![stop] + tail);
        assert forall|i: int| 0 <= i < later.len() implies #[trigger] steps_after(
            awaited,
            stop,
            later,
        )[i] == stop by {
            if i > 0 {
                assert((seq![stop] + tail)[i] == tail[i - 1]);
            }
        }
    }
}

} // verus!
