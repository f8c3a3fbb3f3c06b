//! The transfer relay: payloads that arrive on the blocking outbound queue
//! are handed to the bounded queue that the reactor drains. The relay never
//! waits for room: a payload that the bounded queue refuses is dropped, and
//! the relay counts it.

use crate::broker::EXIT_SUCCESS;
use crate::Payload;
use futures::sync::mpsc::{Receiver, Sender};
use vstd::prelude::*;

verus! {

/// Number of payloads that the bounded queue buffers beside the one slot
/// that its sender is always granted.
pub const QUEUE_BOUND: usize = 65535;

/// The sending half of the bounded queue of `futures`. Nothing inside it is
/// visible here: a value of this type is only carried and handed on.
#[verifier::external_type_specification]
#[verifier::external_body]
#[verifier::reject_recursive_types(T)]
pub struct ExBoundedSender<T>(Sender<T>);

/// The receiving half of the bounded queue of `futures`, which the reactor
/// drains. It is only carried here.
#[verifier::external_type_specification]
#[verifier::external_body]
#[verifier::reject_recursive_types(T)]
pub struct ExBoundedReceiver<T>(Receiver<T>);

/// The number of payloads that the bounded queue behind `queue` was made to
/// buffer. It is fixed when the queue is made.
pub uninterp spec fn buffer_of(queue: Sender<Payload>) -> usize;

/// The queue that `queue` sends into, as a number that stands for it.
pub uninterp spec fn fed_queue(queue: Sender<Payload>) -> int;

/// The queue that `drain` takes from, as a number that stands for it.
pub uninterp spec fn drained_queue(drain: Receiver<Payload>) -> int;

/// `futures::sync::mpsc::channel`: makes a bounded queue that buffers
/// `bound` payloads, and hands out its two halves. The call fails an
/// assertion for a bound of a quarter of the address space or more, which
/// the precondition keeps out. Claimed are the bound that the queue was made
/// with, and that the two halves belong to one queue.
#[verifier::external_body]
fn channel(bound: usize) -> (halves: (Sender<Payload>, Receiver<Payload>))
    requires
        bound <= QUEUE_BOUND,
    ensures
        buffer_of(halves.0) == bound,
        fed_queue(halves.0) == drained_queue(halves.1),
{
    futures::sync::mpsc::channel(bound)
}

/// `futures::sync::mpsc::Sender::try_send`: offers `payload` to the bounded
/// queue without waiting. Whether the queue takes it depends on how far the
/// receiver has come, so nothing is claimed of that; a refused payload
/// comes back as it was, with the flag set where the queue was full and
/// clear where the receiver is gone. The sending half stays on its queue,
/// whose bound does not change.
#[verifier::external_body]
fn try_send(queue: &mut Sender<Payload>, payload: Payload) -> (outcome: Result<
    (),
    (bool, Payload),
>)
    ensures
        outcome matches Err((_, back)) ==> back == payload,
        buffer_of(*final(queue)) == buffer_of(*old(queue)),
        fed_queue(*final(queue)) == fed_queue(*old(queue)),
{
    queue.try_send(payload).map_err(|refused| (refused.is_full(), refused.into_inner()))
}

/// Why the bounded queue refused a payload.
#[derive(Debug, Clone, Copy, PartialEq, Eq, Structural)]
pub enum Refusal {
    /// The queue is at capacity.
    Full,
    /// The receiving half is gone.
    Disconnected,
}

/// What became of a payload that was handed to the relay.
#[derive(Debug, Clone, Copy, PartialEq, Eq, Structural)]
pub enum Transfer {
    /// The bounded queue holds it now.
    Queued,
    /// It was dropped: the bounded queue refused it.
    Dropped(Refusal),
}

/// What the relay's thread does next.
#[derive(Debug, Clone, Copy, PartialEq, Eq, Structural)]
pub enum RelayStep {
    /// Take the next payload from the blocking queue; the payload before it
    /// ended as the `Transfer` says.
    Continue(Transfer),
    /// The blocking queue has no producers left: exit with `status`.
    Exit { status: i32 },
}

/// How many payloads the relay has queued and how many it has dropped. Each
/// count stops at the largest value of its type.
#[derive(Debug, Clone, Copy, PartialEq, Eq, Structural)]
pub struct Tally {
    pub queued: u64,
    pub dropped: u64,
}

/// What the answer of the bounded queue means for the payload: taken, it is
/// queued; refused, it is dropped, whatever the reason.
pub open spec fn transferred<T>(outcome: Result<(), (bool, T)>) -> Transfer {
    match outcome {
        Ok(_) => Transfer::Queued,
        Err((full, _)) => if full {
            Transfer::Dropped(Refusal::Full)
        } else {
            Transfer::Dropped(Refusal::Disconnected)
        },
    }
}

/// `count` and one more, as far as the type reaches.
pub open spec fn one_more(count: u64) -> u64 {
    if count < u64::MAX {
        (count + 1) as u64
    } else {
        count
    }
}

/// The tally after one more payload ended as `transfer`. A dropped payload
/// adds nothing to the count of the queued ones.
pub open spec fn tallied(tally: Tally, transfer: Transfer) -> Tally {
    match transfer {
        Transfer::Queued => Tally { queued: one_more(tally.queued), ..tally },
        Transfer::Dropped(_) => Tally { dropped: one_more(tally.dropped), ..tally },
    }
}

/// The tally after the payloads ended as `transfers`, in turn.
pub open spec fn tallied_all(tally: Tally, transfers: Seq<Transfer>) -> Tally
    decreases transfers.len(),
{
    if transfers.len() == 0 {
        tally
    } else {
        tallied_all(tallied(tally, transfers[0]), transfers.drop_first())
    }
}

/// Reads the answer of the bounded queue. A refused payload ends here: it is
/// neither kept nor offered again.
pub fn settle(outcome: Result<(), (bool, Payload)>) -> (transfer: Transfer)
    ensures
        transfer == transferred(outcome),
{
    match outcome {
        Ok(_) => Transfer::Queued,
        Err((full, _)) => if full {
            Transfer::Dropped(Refusal::Full)
        } else {
            Transfer::Dropped(Refusal::Disconnected)
        },
    }
}

impl Tally {
    /// The tally after one more payload ended as `transfer`.
    pub fn count(self, transfer: Transfer) -> (tally: Tally)
        ensures
            tally == tallied(self, transfer),
    {
        match transfer {
            Transfer::Queued => Tally {
                queued: self.queued.saturating_add(1),
                dropped: self.dropped,
            },
            Transfer::Dropped(_) => Tally {
                queued: self.queued,
                dropped: self.dropped.saturating_add(1),
            },
        }
    }
}

/// The transfer relay of one bridge.
pub struct TransferRelay {
    queue: Sender<Payload>,
    tally: Tally,
}

impl TransferRelay {
    /// The sending half that the relay hands payloads to.
    pub closed spec fn queue(&self) -> Sender<Payload> {
        self.queue
    }

    /// The number of payloads that the relay's queue was made to buffer.
    pub open spec fn bound(&self) -> usize {
        buffer_of(self.queue())
    }

    /// The queue that the relay feeds, as a number that stands for it.
    pub open spec fn feeds(&self) -> int {
        fed_queue(self.queue())
    }

    /// What the relay has queued and dropped so far.
    pub closed spec fn tally(&self) -> Tally {
        self.tally
    }

    /// A relay into the bounded queue whose sending half is `queue`.
    pub fn new(queue: Sender<Payload>) -> (relay: TransferRelay)
        ensures
            relay.queue() == queue,
            relay.tally() == (Tally { queued: 0, dropped: 0 }),
    {
        TransferRelay { queue, tally: Tally { queued: 0, dropped: 0 } }
    }

    /// A relay into a new bounded queue of `QUEUE_BOUND` payloads, with the
    /// receiving half of that queue. The relay has counted nothing yet.
    pub fn bounded() -> (made: (TransferRelay, Receiver<Payload>))
        ensures
            made.0.bound() == QUEUE_BOUND,
            made.0.feeds() == drained_queue(made.1),
            made.0.tally() == (Tally { queued: 0, dropped: 0 }),
    {
        let (queue, drain) = channel(QUEUE_BOUND);
        (TransferRelay::new(queue), drain)
    }

    /// What the relay has queued and dropped so far.
    pub fn counts(&self) -> (tally: Tally)
        ensures
            tally == self.tally(),
    {
        self.tally
    }

    /// Hands `payload` to the bounded queue, once and without waiting, and
    /// counts what became of it.
    pub fn transfer(&mut self, payload: Payload) -> (transfer: Transfer)
        ensures
            final(self).tally() == tallied(old(self).tally(), transfer),
            final(self).bound() == old(self).bound(),
            final(self).feeds() == old(self).feeds(),
    {
        let transfer = settle(try_send(&mut self.queue, payload));
        self.tally = self.tally.count(transfer);
        transfer
    }

    /// One turn of the relay's loop, given what the blocking queue handed
    /// out: a payload is transferred and the loop goes on, whether the
    /// payload was queued or dropped; the end of the blocking queue ends the
    /// loop with exit status 0.
    pub fn relay(&mut self, taken: Option<Payload>) -> (step: RelayStep)
        ensures
            taken is Some <==> step is Continue,
            taken is None <==> step == (RelayStep::Exit { status: EXIT_SUCCESS }),
            step matches RelayStep::Continue(transfer) ==> final(self).tally() == tallied(
                old(self).tally(),
                transfer,
            ),
            step is Exit ==> final(self).tally() == old(self).tally(),
            final(self).bound() == old(self).bound(),
            final(self).feeds() == old(self).feeds(),
    {
        match taken {
            Some(payload) => RelayStep::Continue(self.transfer(payload)),
            None => RelayStep::Exit { status: EXIT_SUCCESS },
        }
    }
}

/// While the bounded queue is at capacity, every payload handed to the relay
/// is dropped and nothing else happens: the count of queued payloads stays
/// as it was, so nothing that was queued before is queued again, and the
/// drops are counted one by one.
pub proof fn lemma_full_queue_drops(tally: Tally, transfers: Seq<Transfer>)
    requires
        forall|i: int|
            0 <= i < transfers.len() ==> transfers[i] == Transfer::Dropped(Refusal::Full),
    ensures
        tallied_all(tally, transfers).queued == tally.queued,
        tally.dropped + transfers.len() <= u64::MAX ==> tallied_all(tally, transfers).dropped
            == tally.dropped + transfers.len(),
    decreases transfers.len(),
{
    if transfers.len() > 0 {
        assert(transfers[0] == Transfer::Dropped(Refusal::Full));
        lemma_full_queue_drops(tallied(tally, transfers[0]), transfers.drop_first());
    }
}

} // verus!
