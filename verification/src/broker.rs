//! Broker operations as plain values.
//!
//! Each type names one operation of an AMQP channel with every flag that the
//! driver has to pass, so that no flag is chosen outside this crate. The
//! views replace strings and vectors by sequences; contracts speak of views.

use vstd::prelude::*;

verus! {

/// Reply code of a regular close.
pub const REPLY_SUCCESS: u16 = 200;

/// Reply text of a regular close.
pub const REPLY_TEXT: &'static str = "Bye";

/// Exit status of a process whose bridge ended in the regular way.
pub const EXIT_SUCCESS: i32 = 0;

/// A message as the broker delivers it: the tag by which it is
/// acknowledged, the key it was routed by, and its body.
#[derive(Debug, Clone, PartialEq, Eq)]
pub struct Delivery {
    pub delivery_tag: u64,
    pub routing_key: String,
    pub body: Vec<u8>,
}

/// A delivery with sequences in place of the string and the vector.
pub struct DeliveryView {
    pub delivery_tag: u64,
    pub routing_key: Seq<char>,
    pub body: Seq<u8>,
}

impl View for Delivery {
    type V = DeliveryView;

    open spec fn view(&self) -> DeliveryView {
        DeliveryView {
            delivery_tag: self.delivery_tag,
            routing_key: self.routing_key@,
            body: self.body@,
        }
    }
}

/// Acknowledges the delivery with tag `delivery_tag`; with `multiple`, every
/// delivery up to it as well.
#[derive(Debug, Clone, Copy, PartialEq, Eq, Structural)]
pub struct Ack {
    pub delivery_tag: u64,
    pub multiple: bool,
}

/// Publishes `body` to `exchange` under `routing_key`.
///
/// With `awaited` the driver waits for the broker's answer before it reports
/// the outcome; without it the publish is left in flight, and the loop goes
/// on whatever is reported of it.
#[derive(Debug, Clone, PartialEq, Eq)]
pub struct Publish {
    pub exchange: String,
    pub routing_key: String,
    pub mandatory: bool,
    pub immediate: bool,
    pub content_type: String,
    pub body: Vec<u8>,
    pub awaited: bool,
}

/// A publish with sequences in place of the strings and the vector.
pub struct PublishView {
    pub exchange: Seq<char>,
    pub routing_key: Seq<char>,
    pub mandatory: bool,
    pub immediate: bool,
    pub content_type: Seq<char>,
    pub body: Seq<u8>,
    pub awaited: bool,
}

impl View for Publish {
    type V = PublishView;

    open spec fn view(&self) -> PublishView {
        PublishView {
            exchange: self.exchange@,
            routing_key: self.routing_key@,
            mandatory: self.mandatory,
            immediate: self.immediate,
            content_type: self.content_type@,
            body: self.body@,
            awaited: self.awaited,
        }
    }
}

/// Closes the channel with the close handshake of the broker.
#[derive(Debug, Clone, PartialEq, Eq)]
pub struct Close {
    pub code: u16,
    pub reason: String,
}

/// A close with a sequence in place of the string.
pub struct CloseView {
    pub code: u16,
    pub reason: Seq<char>,
}

impl View for Close {
    type V = CloseView;

    open spec fn view(&self) -> CloseView {
        CloseView { code: self.code, reason: self.reason@ }
    }
}

/// The end of a bridge: the channel is closed with `close`, whatever the
/// broker answers, and the process exits with `status`.
#[derive(Debug, Clone, PartialEq, Eq)]
pub struct Shutdown {
    pub close: Close,
    pub status: i32,
}

/// A shutdown with the view of its close.
pub struct ShutdownView {
    pub close: CloseView,
    pub status: i32,
}

impl View for Shutdown {
    type V = ShutdownView;

    open spec fn view(&self) -> ShutdownView {
        ShutdownView { close: self.close@, status: self.status }
    }
}

/// The regular end: close with reply code 200 and the text "Bye", then exit
/// with status 0.
pub open spec fn graceful_shutdown() -> ShutdownView {
    ShutdownView {
        close: CloseView { code: REPLY_SUCCESS, reason: REPLY_TEXT@ },
        status: EXIT_SUCCESS,
    }
}

impl Shutdown {
    /// The shutdown of a bridge whose queue or stream has ended.
    pub fn graceful() -> (shutdown: Shutdown)
        ensures
            shutdown@ == graceful_shutdown(),
    {
        Shutdown {
            close: Close { code: REPLY_SUCCESS, reason: REPLY_TEXT.to_owned() },
            status: EXIT_SUCCESS,
        }
    }
}

/// One operation of connection setup.
#[derive(Debug, Clone, PartialEq, Eq)]
pub enum SetupOp {
    /// Opens a session to the broker at `url`.
    OpenSession { url: String },
    /// Opens the channel numbered `id` on the session.
    OpenChannel { id: u16 },
    /// Creates a channel whose number the client picks.
    CreateChannel,
    /// Limits the deliveries in flight to `count`.
    Prefetch { count: u16 },
    DeclareExchange {
        exchange: String,
        kind: String,
        passive: bool,
        durable: bool,
        auto_delete: bool,
        internal: bool,
        nowait: bool,
    },
    DeclareQueue {
        queue: String,
        passive: bool,
        durable: bool,
        exclusive: bool,
        auto_delete: bool,
        nowait: bool,
    },
    PurgeQueue { queue: String, nowait: bool },
    BindQueue { queue: String, exchange: String, routing_key: String, nowait: bool },
    Consume {
        queue: String,
        consumer_tag: String,
        no_local: bool,
        no_ack: bool,
        exclusive: bool,
        nowait: bool,
    },
}

/// A setup operation with sequences in place of the strings.
pub enum SetupOpView {
    OpenSession { url: Seq<char> },
    OpenChannel { id: u16 },
    CreateChannel,
    Prefetch { count: u16 },
    DeclareExchange {
        exchange: Seq<char>,
        kind: Seq<char>,
        passive: bool,
        durable: bool,
        auto_delete: bool,
        internal: bool,
        nowait: bool,
    },
    DeclareQueue {
        queue: Seq<char>,
        passive: bool,
        durable: bool,
        exclusive: bool,
        auto_delete: bool,
        nowait: bool,
    },
    PurgeQueue { queue: Seq<char>, nowait: bool },
    BindQueue { queue: Seq<char>, exchange: Seq<char>, routing_key: Seq<char>, nowait: bool },
    Consume {
        queue: Seq<char>,
        consumer_tag: Seq<char>,
        no_local: bool,
        no_ack: bool,
        exclusive: bool,
        nowait: bool,
    },
}

impl View for SetupOp {
    type V = SetupOpView;

    open spec fn view(&self) -> SetupOpView {
        match *self {
            SetupOp::OpenSession { url } => SetupOpView::OpenSession { url: url@ },
            SetupOp::OpenChannel { id } => SetupOpView::OpenChannel { id },
            SetupOp::CreateChannel => SetupOpView::CreateChannel,
            SetupOp::Prefetch { count } => SetupOpView::Prefetch { count },
            SetupOp::DeclareExchange {
                exchange,
                kind,
                passive,
                durable,
                auto_delete,
                internal,
                nowait,
            } => SetupOpView::DeclareExchange {
                exchange: exchange@,
                kind: kind@,
                passive,
                durable,
                auto_delete,
                internal,
                nowait,
            },
            SetupOp::DeclareQueue { queue, passive, durable, exclusive, auto_delete, nowait } => {
                SetupOpView::DeclareQueue {
                    queue: queue@,
                    passive,
                    durable,
                    exclusive,
                    auto_delete,
                    nowait,
                }
            },
            SetupOp::PurgeQueue { queue, nowait } => SetupOpView::PurgeQueue {
                queue: queue@,
                nowait,
            },
            SetupOp::BindQueue { queue, exchange, routing_key, nowait } => SetupOpView::BindQueue {
                queue: queue@,
                exchange: exchange@,
                routing_key: routing_key@,
                nowait,
            },
            SetupOp::Consume { queue, consumer_tag, no_local, no_ack, exclusive, nowait } => {
                SetupOpView::Consume {
                    queue: queue@,
                    consumer_tag: consumer_tag@,
                    no_local,
                    no_ack,
                    exclusive,
                    nowait,
                }
            },
        }
    }
}

/// What a failed setup operation means for the setup as a whole.
#[derive(Debug, Clone, Copy, PartialEq, Eq, Structural)]
pub enum OnFailure {
    /// The setup is given up.
    Abort,
    /// The setup goes on as if the operation had succeeded.
    Ignore,
}

/// A setup operation together with what its failure means.
#[derive(Debug, Clone, PartialEq, Eq)]
pub struct SetupStep {
    pub op: SetupOp,
    pub on_failure: OnFailure,
}

/// A setup step with the view of its operation.
pub struct SetupStepView {
    pub op: SetupOpView,
    pub on_failure: OnFailure,
}

impl View for SetupStep {
    type V = SetupStepView;

    open spec fn view(&self) -> SetupStepView {
        SetupStepView { op: self.op@, on_failure: self.on_failure }
    }
}

/// The views of a sequence of setup steps, in the same order.
pub open spec fn step_views(steps: Seq<SetupStep>) -> Seq<SetupStepView> {
    steps.map_values(|step: SetupStep| step@)
}

/// A setup operation whose failure ends the setup.
pub open spec fn required(op: SetupOpView) -> SetupStepView {
    SetupStepView { op, on_failure: OnFailure::Abort }
}

/// A setup operation whose failure is passed over.
pub open spec fn optional(op: SetupOpView) -> SetupStepView {
    SetupStepView { op, on_failure: OnFailure::Ignore }
}

} // verus!
