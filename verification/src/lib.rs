//! A bridge between blocking `(routing key, body)` channels and an AMQP
//! message broker.
//!
//! The crate holds the decisions of the bridge as verified functions, and
//! hands the network operations out as plain values for a driver to carry
//! out:
//!
//! - `broker`: the broker operations, with every flag they are sent with;
//! - `topology`: the exchange, the queue and its bindings;
//! - `setup`: the run of a setup, operation by operation;
//! - `outbound`: the publishing loop;
//! - `relay`: the hand-over from the blocking outbound queue to the bounded
//!   queue of the reactor;
//! - `supervisor`: the phases of a connection;
//! - `uri`: the broker's URI and network address;
//! - `v1`: the blocking variant, with the handler of deliveries;
//! - `v2`: the reactor variant.
//!
//! A driver asks for a step, carries it out, and reports the outcome; the
//! answer is the next step. Contracts are stated over views: sequences of
//! characters and bytes in place of strings and vectors.

use vstd::prelude::*;

pub mod broker;
pub mod outbound;
pub mod relay;
pub mod setup;
pub mod supervisor;
pub mod topology;
pub mod uri;
pub mod v1;
pub mod v2;

verus! {

/// A message as callers see it: the routing key and the body.
pub type Payload = (String, Vec<u8>);

} // verus!
