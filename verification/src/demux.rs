//! Where an inbound reply goes: the decision the reader of a connection
//! takes for every reply, before it touches any state.

use crate::japrotocol::{JaResponse, JaSuccessProtocol, ResponseType};
use vstd::prelude::*;

verus! {

/// The sink an inbound reply is delivered to.
#[derive(Debug, Clone, Copy, PartialEq, Eq, Structural)]
pub enum Delivery {
    /// No sink.
    Nowhere,
    /// The sink of one handle.
    Handle { session_id: u64, handle_id: u64 },
    /// The root sink.
    Root,
}

/// Everything the reader does with one inbound reply.
#[derive(Debug, Clone, Copy, PartialEq, Eq, Structural)]
pub struct Dispatch {
    /// Store the reply in the response cache under its transaction.
    pub cache: bool,
    /// Retire the transaction of the reply from the transaction manager.
    pub retire: bool,
    /// Deliver the reply to this sink.
    pub delivery: Delivery,
}

/// The sink of the handle a reply names, if it names both a session and a
/// sender.
pub open spec fn handle_sink(rsp: JaResponse) -> Delivery {
    match (rsp.session_id, rsp.sender) {
        (Some(session_id), Some(handle_id)) => Delivery::Handle { session_id, handle_id },
        _ => Delivery::Nowhere,
    }
}

/// The decision table of the reader; the first row that matches wins.
/// `known` says whether the transaction of the reply is pending in the
/// transaction manager.
///
/// 1. An `ack` with a transaction is cached; its transaction stays pending,
///    because the caller may still wait for the terminal reply.
/// 2. A `success` with a transaction, without sender and without plugin
///    data, answers `create` or `attach`: it is cached and its transaction
///    retired.
/// 3. A plugin `success` with a sender is cached, its transaction retired,
///    and it is also delivered to the sender's sink.
/// 4. An `error` with a transaction is cached, its transaction retired, and
///    it is delivered to the sender's sink if it names one.
/// 5. A handle event with a sender is delivered to the sender's sink, and
///    cached as well if it carries a pending transaction.
/// 6. `timeout` and `keepalive`, and whatever else carries a session and
///    neither sender nor transaction, go to the root sink.
/// 7. Everything else is dropped.
///
/// Caching and retiring need a transaction, and delivery to a handle needs
/// both session and sender: a row that matches a reply without them skips
/// that part.
pub open spec fn dispatch_of(rsp: JaResponse, known: bool) -> Dispatch {
    let has_transaction = rsp.transaction is Some;
    if rsp.janus is Ack && has_transaction {
        Dispatch { cache: true, retire: false, delivery: Delivery::Nowhere }
    } else if rsp.janus is Success && has_transaction && rsp.sender is None && !(rsp.janus matches ResponseType::Success(
        JaSuccessProtocol::Plugin { .. },
    )) {
        Dispatch { cache: true, retire: true, delivery: Delivery::Nowhere }
    } else if rsp.janus matches ResponseType::Success(JaSuccessProtocol::Plugin { .. })
        && rsp.sender is Some {
        Dispatch { cache: has_transaction, retire: has_transaction, delivery: handle_sink(rsp) }
    } else if rsp.janus is Error && has_transaction {
        Dispatch { cache: true, retire: true, delivery: handle_sink(rsp) }
    } else if rsp.janus.spec_is_handle_event() && rsp.sender is Some {
        Dispatch { cache: has_transaction && known, retire: false, delivery: handle_sink(rsp) }
    } else if rsp.janus is Timeout || rsp.janus is Keepalive || (rsp.session_id is Some
        && rsp.sender is None && !has_transaction) {
        Dispatch { cache: false, retire: false, delivery: Delivery::Root }
    } else {
        Dispatch { cache: false, retire: false, delivery: Delivery::Nowhere }
    }
}

/// A reply is cached or its transaction retired only if it carries a
/// transaction, and it is delivered to a handle only if it names that
/// handle as its sender, in its own session.
pub proof fn lemma_dispatch_sound(rsp: JaResponse, known: bool)
    ensures
        dispatch_of(rsp, known).cache ==> rsp.transaction is Some,
        dispatch_of(rsp, known).retire ==> rsp.transaction is Some,
        dispatch_of(rsp, known).retire ==> dispatch_of(rsp, known).cache,
        dispatch_of(rsp, known).delivery matches Delivery::Handle { session_id, handle_id }
            ==> rsp.session_id == Some(session_id) && rsp.sender == Some(handle_id),
        rsp.janus is Ack ==> !dispatch_of(rsp, known).retire,
{
}

fn sink_of(rsp: &JaResponse) -> (r: Delivery)
    ensures
        r == handle_sink(*rsp),
{
    match (rsp.session_id, rsp.sender) {
        (Some(session_id), Some(handle_id)) => Delivery::Handle { session_id, handle_id },
        _ => Delivery::Nowhere,
    }
}

/// Decides what to do with one inbound reply.
pub fn dispatch(rsp: &JaResponse, known: bool) -> (r: Dispatch)
    ensures
        r == dispatch_of(*rsp, known),
{
    let has_transaction = rsp.transaction.is_some();
    let has_sender = rsp.sender.is_some();
    let nowhere = Delivery::Nowhere;
    match &rsp.janus {
        ResponseType::Ack => {
            if has_transaction {
                Dispatch { cache: true, retire: false, delivery: nowhere }
            } else {
                rootward(rsp)
            }
        },
        ResponseType::Success(JaSuccessProtocol::Data { .. }) => {
            if has_transaction && !has_sender {
                Dispatch { cache: true, retire: true, delivery: nowhere }
            } else {
                rootward(rsp)
            }
        },
        ResponseType::Success(JaSuccessProtocol::Plugin { .. }) => {
            if has_sender {
                Dispatch { cache: has_transaction, retire: has_transaction, delivery: sink_of(rsp) }
            } else {
                rootward(rsp)
            }
        },
        ResponseType::Error { .. } => {
            if has_transaction {
                Dispatch { cache: true, retire: true, delivery: sink_of(rsp) }
            } else {
                rootward(rsp)
            }
        },
        ResponseType::Timeout => Dispatch { cache: false, retire: false, delivery: Delivery::Root },
        ResponseType::Keepalive => Dispatch {
            cache: false,
            retire: false,
            delivery: Delivery::Root,
        },
        ResponseType::ServerInfo(_) => rootward(rsp),
        _ => {
            if has_sender {
                Dispatch { cache: has_transaction && known, retire: false, delivery: sink_of(rsp) }
            } else {
                rootward(rsp)
            }
        },
    }
}

/// The last two rows of the table, for a reply that no earlier row took.
fn rootward(rsp: &JaResponse) -> (r: Dispatch)
    ensures
        r == (Dispatch {
            cache: false,
            retire: false,
            delivery: if rsp.janus is Timeout || rsp.janus is Keepalive || (rsp.session_id is Some
                && rsp.sender is None && rsp.transaction is None) {
                Delivery::Root
            } else {
                Delivery::Nowhere
            },
        }),
{
    let root = match &rsp.janus {
        ResponseType::Timeout => true,
        ResponseType::Keepalive => true,
        _ => rsp.session_id.is_some() && rsp.sender.is_none() && rsp.transaction.is_none(),
    };
    Dispatch {
        cache: false,
        retire: false,
        delivery: if root {
            Delivery::Root
        } else {
            Delivery::Nowhere
        },
    }
}

} // verus!
