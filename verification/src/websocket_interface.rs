//! The WebSocket transport, without the socket.
//!
//! One connection carries every session. Requests leave stamped with a
//! transaction; the replies come back in any order, mixed with events
//! nobody asked for. This module holds the state that sorts them out: the
//! transaction manager, the response cache and the router. Somebody else
//! writes the frames, reads them, and delays the callers that have to wait.

use crate::demux::{dispatch, dispatch_of, Delivery, Dispatch};
use crate::error::JaTransportError;
use crate::fifo::{has_key, lookup, put, without, Entries};
use crate::handle_msg::{
    HandleMessage, HandleMessageWithEstablishment, HandleMessageWithEstablishmentAndTimeout,
    HandleMessageWithTimeout,
};
use crate::janus_interface::ConnectionParams;
use crate::japrotocol::{JaResponse, ResponseType, ServerInfoRsp};
use crate::json::{json_is_object, json_members};
use crate::napmap::{keys_of, Nap, NapMap};
use crate::reply::{
    answers, created_id, created_id_of, first_reply, first_reply_of, server_info,
    server_info_of, terminal_reply, terminal_reply_of,
};
use crate::request::{
    address, addressed, attach_request, carries_stamp, create_request, destroy_request,
    info_request, is_attach_request, is_message_request, is_message_request_with_est,
    is_plain_request, keepalive_request, lemma_stamped_payload,
    message_request, message_request_with_est, payload, stamp, text_view,
};
use crate::router::{has_session, oldest, opened, published, received, Router, Sinks};
use crate::tgenerator::{GenerateTransaction, TransactionGenerator};
use crate::transaction_manager::{PendingTransaction, TransactionManager};
use vstd::prelude::*;

verus! {

/// One frame to write to the socket: a stamped request.
#[derive(Debug)]
pub struct Frame {
    pub request: serde_json::Value,
    pub transaction: String,
}

/// What the reader did with one inbound reply.
#[derive(Debug, Clone, Copy, PartialEq, Eq, Structural)]
pub struct Handled {
    /// The decision taken.
    pub dispatch: Dispatch,
    /// A caller waits for this reply and has to be woken.
    pub woken: bool,
    /// The reply reached the sink of a handle.
    pub delivered: bool,
}

/// What closing the connection released.
#[derive(Debug)]
pub struct Closing {
    /// The transactions whose callers waited; each completes with
    /// `TransportClosed`.
    pub woken: Vec<String>,
    /// The sessions that were told, by a `timeout` event on the root sink.
    pub sessions: Vec<u64>,
}

/// Every cached reply is cached under the transaction it carries.
pub open spec fn all_answer(entries: Entries<Seq<char>, JaResponse>) -> bool {
    forall|i: int| 0 <= i < entries.len() ==> answers((#[trigger] entries[i]).1, entries[i].0)
}

/// A reply that is delivered to the sink of a handle names that handle as
/// its sender, in its own session; it arrives at the back of that sink, and
/// the sink of every other handle holds what it held before.
pub proof fn lemma_delivery_reaches_only_sender(
    sinks: Sinks,
    rsp: JaResponse,
    known: bool,
    other: (u64, u64),
)
    requires
        crate::fifo::distinct_keys(sinks),
    ensures
        dispatch_of(rsp, known).delivery matches Delivery::Handle { session_id, handle_id } ==> {
            &&& rsp.session_id == Some(session_id)
            &&& rsp.sender == Some(handle_id)
            &&& has_key(sinks, (session_id, handle_id)) ==> lookup(
                published(sinks, (session_id, handle_id), rsp),
                (session_id, handle_id),
            ) == Some(lookup(sinks, (session_id, handle_id)).unwrap().push(rsp))
            &&& other != (session_id, handle_id) ==> lookup(
                published(sinks, (session_id, handle_id), rsp),
                other,
            ) == lookup(sinks, other)
        },
{
    match dispatch_of(rsp, known).delivery {
        Delivery::Handle { session_id, handle_id } => {
            crate::router::lemma_published_reaches_only_target(
                sinks,
                (session_id, handle_id),
                rsp,
                other,
            );
        },
        _ => {},
    }
}

/// The event that tells a session that its connection is gone.
pub open spec fn timeout_event(session_id: u64) -> JaResponse {
    JaResponse {
        janus: ResponseType::Timeout,
        transaction: None,
        session_id: Some(session_id),
        sender: None,
        establishment_protocol: None,
    }
}

/// The transaction a reply carries, as text; empty if it carries none.
pub open spec fn transaction_of(rsp: JaResponse) -> Seq<char> {
    match rsp.transaction {
        Some(t) => t@,
        None => Seq::<char>::empty(),
    }
}

/// The state of one WebSocket connection.
pub struct WebSocketInterface<G: GenerateTransaction> {
    namespace: String,
    apisecret: Option<String>,
    transaction_generator: TransactionGenerator<G>,
    rsp_map: NapMap<JaResponse>,
    router: Router,
    transaction_manager: TransactionManager,
}

impl<G: GenerateTransaction> WebSocketInterface<G> {
    /// The secret every request is stamped with, if any.
    pub closed spec fn apisecret(&self) -> Option<Seq<char>> {
        text_view(self.apisecret)
    }

    /// The path segment under which the server answers.
    pub closed spec fn namespace(&self) -> Seq<char> {
        self.namespace@
    }

    /// The generator the transactions come from.
    pub closed spec fn generator(&self) -> G {
        self.transaction_generator.generator()
    }

    /// The bound of the response cache and of the transaction manager.
    pub closed spec fn capacity(&self) -> nat {
        self.rsp_map.capacity()
    }

    /// The cached replies, oldest first.
    pub closed spec fn cached(&self) -> Entries<Seq<char>, JaResponse> {
        self.rsp_map.entries()
    }

    /// The transactions callers wait on.
    pub closed spec fn waiting(&self) -> Set<Seq<char>> {
        self.rsp_map.waiting()
    }

    /// Whether the connection has been closed.
    pub closed spec fn is_closed(&self) -> bool {
        self.rsp_map.is_closed()
    }

    /// The pending transactions, oldest first.
    pub closed spec fn pending(&self) -> Entries<Seq<char>, PendingTransaction> {
        self.transaction_manager.pending()
    }

    /// The sinks of the attached handles.
    pub closed spec fn sinks(&self) -> Sinks {
        self.router.sinks()
    }

    /// The events waiting in the root sink.
    pub closed spec fn root(&self) -> Seq<JaResponse> {
        self.router.root()
    }

    /// What holds of every connection: the cache and the transaction
    /// manager stay within the capacity, there is at most one sink per
    /// handle, and every cached reply lies under the transaction it
    /// carries.
    pub closed spec fn wf(&self) -> bool {
        &&& self.rsp_map.wf()
        &&& self.router.wf()
        &&& self.transaction_manager.wf()
        &&& self.transaction_manager.capacity() == self.rsp_map.capacity()
        &&& all_answer(self.rsp_map.entries())
    }

    /// The configuration of the connection stays as it is.
    pub open spec fn same_setup(&self, other: &Self) -> bool {
        &&& self.apisecret() == other.apisecret()
        &&& self.namespace() == other.namespace()
        &&& self.capacity() == other.capacity()
        &&& self.generator() == other.generator()
    }

    /// On a well-formed connection no handle has two sinks.
    pub proof fn lemma_sinks_distinct(&self)
        requires
            self.wf(),
        ensures
            crate::fifo::distinct_keys(self.sinks()),
    {
    }

    /// On a well-formed connection the cache and the transaction manager
    /// hold at most `capacity` entries each, and every cached reply carries
    /// the transaction it lies under.
    pub proof fn lemma_invariants(&self)
        requires
            self.wf(),
        ensures
            self.cached().len() <= self.capacity(),
            self.pending().len() <= self.capacity(),
            all_answer(self.cached()),
    {
        self.rsp_map.lemma_bounded();
        self.transaction_manager.lemma_bounded();
    }

    /// On a closed connection nobody waits, and whoever asks for the
    /// outcome of an operation learns at once that the transport is
    /// closed.
    pub proof fn lemma_closed_completes(&self, transaction: Seq<char>)
        requires
            self.wf(),
            self.is_closed(),
        ensures
            self.waiting() == Set::<Seq<char>>::empty(),
            self.created_outcome(transaction) == Some(
                Err::<u64, JaTransportError>(JaTransportError::TransportClosed),
            ),
            self.server_info_outcome(transaction) == Some(
                Err::<ServerInfoRsp, JaTransportError>(JaTransportError::TransportClosed),
            ),
            self.ack_outcome(transaction) == Some(
                Err::<JaResponse, JaTransportError>(JaTransportError::TransportClosed),
            ),
            self.rsp_outcome(transaction) == Some(
                Err::<JaResponse, JaTransportError>(JaTransportError::TransportClosed),
            ),
    {
        self.rsp_map.lemma_bounded();
    }

    /// Sets up the state of a fresh, open connection.
    pub fn make_interface(conn_params: ConnectionParams, transaction_generator: G) -> (r: Self)
        ensures
            r.wf(),
            !r.is_closed(),
            r.apisecret() == text_view(conn_params.apisecret),
            r.namespace() == conn_params.namespace@,
            r.capacity() == conn_params.capacity,
            r.generator() == transaction_generator,
            r.cached() == Seq::<(Seq<char>, JaResponse)>::empty(),
            r.pending() == Seq::<(Seq<char>, PendingTransaction)>::empty(),
            r.waiting() == Set::<Seq<char>>::empty(),
            r.sinks() == Seq::<((u64, u64), Seq<JaResponse>)>::empty(),
            r.root() == Seq::<JaResponse>::empty(),
    {
        WebSocketInterface {
            namespace: conn_params.namespace,
            apisecret: conn_params.apisecret,
            transaction_generator: TransactionGenerator::new(transaction_generator),
            rsp_map: NapMap::new(conn_params.capacity),
            router: Router::new(),
            transaction_manager: TransactionManager::new(conn_params.capacity),
        }
    }

    /// Whether the connection has been closed.
    pub fn closed(&self) -> (r: bool)
        ensures
            r == self.is_closed(),
    {
        self.rsp_map.closed()
    }

    /// Whether `transaction` is pending in the transaction manager.
    pub fn is_pending(&self, transaction: &String) -> (r: bool)
        requires
            self.wf(),
        ensures
            r == has_key(self.pending(), transaction@),
    {
        self.transaction_manager.contains(transaction)
    }

    /// Whether a reply is cached under `transaction`.
    pub fn is_cached(&self, transaction: &String) -> (r: bool)
        requires
            self.wf(),
        ensures
            r == has_key(self.cached(), transaction@),
    {
        self.rsp_map.get(transaction).is_some()
    }

    /// The number of cached replies, never more than the capacity.
    pub fn cached_len(&self) -> (r: usize)
        requires
            self.wf(),
        ensures
            r == self.cached().len(),
            r <= self.capacity(),
    {
        self.rsp_map.len()
    }

    /// The number of pending transactions, never more than the capacity.
    pub fn pending_len(&self) -> (r: usize)
        requires
            self.wf(),
        ensures
            r == self.pending().len(),
            r <= self.capacity(),
    {
        self.transaction_manager.len()
    }

    /// What sending does to the state, and what the frame holds beside its
    /// payload. The frame carries the API secret, if one is configured, and
    /// its transaction, which is the one the generator hands out for it,
    /// and names the session and the handle. A correlated
    /// request is registered with the transaction manager under its
    /// transaction, and its caller waits on the cache under the same key.
    /// Nothing else changes.
    pub open spec fn sent(
        &self,
        before: &Self,
        frame: Frame,
        session_id: Option<u64>,
        handle_id: Option<u64>,
        correlated: bool,
    ) -> bool {
        &&& self.wf()
        &&& self.same_setup(before)
        &&& !self.is_closed()
        &&& json_is_object(frame.request)
        &&& before.generator().yields(frame.transaction@)
        &&& carries_stamp(frame.request, before.apisecret(), frame.transaction@)
        &&& addressed(frame.request, session_id, handle_id)
        &&& self.cached() == before.cached()
        &&& self.sinks() == before.sinks()
        &&& self.root() == before.root()
        &&& self.pending() == if correlated {
            put(
                before.pending(),
                frame.transaction@,
                PendingTransaction { session_id, handle_id },
                before.capacity(),
            )
        } else {
            before.pending()
        }
        &&& self.waiting() == if correlated {
            before.waiting().insert(frame.transaction@)
        } else {
            before.waiting()
        }
    }

    /// Nothing changes.
    pub open spec fn unchanged(&self, before: &Self) -> bool {
        &&& self.wf()
        &&& self.same_setup(before)
        &&& self.is_closed() == before.is_closed()
        &&& self.cached() == before.cached()
        &&& self.sinks() == before.sinks()
        &&& self.root() == before.root()
        &&& self.pending() == before.pending()
        &&& self.waiting() == before.waiting()
    }

    fn send(
        &mut self,
        request: serde_json::Value,
        session_id: Option<u64>,
        handle_id: Option<u64>,
        correlated: bool,
    ) -> (r: Result<Frame, JaTransportError>)
        requires
            old(self).wf(),
            json_is_object(request),
            addressed(request, None, None),
            !json_members(request).contains_key("apisecret"@),
        ensures
            old(self).is_closed() ==> r == Err::<Frame, JaTransportError>(
                JaTransportError::TransportClosed,
            ) && final(self).unchanged(old(self)),
            !old(self).is_closed() ==> r is Ok && final(self).sent(
                old(self),
                r.unwrap(),
                session_id,
                handle_id,
                correlated,
            ) && payload(r.unwrap().request) == payload(request),
    {
        if self.rsp_map.closed() {
            return Err(JaTransportError::TransportClosed);
        }
        let request = address(request, session_id, handle_id);
        let transaction = self.transaction_generator.generate_transaction();
        let stamped_request = stamp(request, &self.apisecret, &transaction);
        proof {
            lemma_stamped_payload(
                request,
                self.apisecret(),
                transaction@,
                stamped_request,
                session_id,
                handle_id,
            );
        }
        if correlated {
            self.transaction_manager.create(transaction.clone(), session_id, handle_id);
            self.rsp_map.park(transaction.clone());
        }
        Ok(Frame { request: stamped_request, transaction })
    }

    /// The frame that opens a session.
    pub fn create(&mut self) -> (r: Result<Frame, JaTransportError>)
        requires
            old(self).wf(),
        ensures
            old(self).is_closed() ==> r == Err::<Frame, JaTransportError>(
                JaTransportError::TransportClosed,
            ) && final(self).unchanged(old(self)),
            !old(self).is_closed() ==> r is Ok && final(self).sent(
                old(self),
                r.unwrap(),
                None,
                None,
                true,
            ) && is_plain_request(r.unwrap().request, "create"@),
    {
        self.send(create_request(), None, None, true)
    }

    /// The frame that asks the server about itself.
    pub fn server_info(&mut self) -> (r: Result<Frame, JaTransportError>)
        requires
            old(self).wf(),
        ensures
            old(self).is_closed() ==> r == Err::<Frame, JaTransportError>(
                JaTransportError::TransportClosed,
            ) && final(self).unchanged(old(self)),
            !old(self).is_closed() ==> r is Ok && final(self).sent(
                old(self),
                r.unwrap(),
                None,
                None,
                true,
            ) && is_plain_request(r.unwrap().request, "info"@),
    {
        self.send(info_request(), None, None, true)
    }

    /// The frame that attaches a handle of `plugin_id` to a session.
    pub fn attach(&mut self, session_id: u64, plugin_id: String) -> (r: Result<
        Frame,
        JaTransportError,
    >)
        requires
            old(self).wf(),
        ensures
            old(self).is_closed() ==> r == Err::<Frame, JaTransportError>(
                JaTransportError::TransportClosed,
            ) && final(self).unchanged(old(self)),
            !old(self).is_closed() ==> r is Ok && final(self).sent(
                old(self),
                r.unwrap(),
                Some(session_id),
                None,
                true,
            ) && is_attach_request(r.unwrap().request, plugin_id@),
    {
        self.send(attach_request(plugin_id.as_str()), Some(session_id), None, true)
    }

    /// The frame that closes a session.
    pub fn destory(&mut self, session_id: u64) -> (r: Result<Frame, JaTransportError>)
        requires
            old(self).wf(),
        ensures
            old(self).is_closed() ==> r == Err::<Frame, JaTransportError>(
                JaTransportError::TransportClosed,
            ) && final(self).unchanged(old(self)),
            !old(self).is_closed() ==> r is Ok && final(self).sent(
                old(self),
                r.unwrap(),
                Some(session_id),
                None,
                true,
            ) && is_plain_request(r.unwrap().request, "destroy"@),
    {
        self.send(destroy_request(), Some(session_id), None, true)
    }

    /// What the outcome of `destory` is: closing a session is done on a
    /// best effort, so the caller is told of success whether the frame
    /// could be sent and answered or the transport failed.
    pub fn destory_reply(&self, sent: bool) -> (r: Result<(), JaTransportError>)
        ensures
            r is Ok,
    {
        Ok(())
    }

    /// The frame that keeps a session alive.
    pub fn keep_alive(&mut self, session_id: u64) -> (r: Result<Frame, JaTransportError>)
        requires
            old(self).wf(),
        ensures
            old(self).is_closed() ==> r == Err::<Frame, JaTransportError>(
                JaTransportError::TransportClosed,
            ) && final(self).unchanged(old(self)),
            !old(self).is_closed() ==> r is Ok && final(self).sent(
                old(self),
                r.unwrap(),
                Some(session_id),
                None,
                true,
            ) && is_plain_request(r.unwrap().request, "keepalive"@),
    {
        self.send(keepalive_request(), Some(session_id), None, true)
    }

    fn message(
        &mut self,
        session_id: u64,
        handle_id: u64,
        body: serde_json::Value,
        correlated: bool,
    ) -> (r: Result<Frame, JaTransportError>)
        requires
            old(self).wf(),
        ensures
            old(self).is_closed() ==> r == Err::<Frame, JaTransportError>(
                JaTransportError::TransportClosed,
            ) && final(self).unchanged(old(self)),
            !old(self).is_closed() ==> r is Ok && final(self).sent(
                old(self),
                r.unwrap(),
                Some(session_id),
                Some(handle_id),
                correlated,
            ) && is_message_request(r.unwrap().request, body),
    {
        self.send(message_request(body), Some(session_id), Some(handle_id), correlated)
    }

    fn message_with_est(
        &mut self,
        session_id: u64,
        handle_id: u64,
        body: serde_json::Value,
        protocol: crate::japrotocol::EstablishmentProtocol,
        correlated: bool,
    ) -> (r: Result<Frame, JaTransportError>)
        requires
            old(self).wf(),
        ensures
            old(self).is_closed() ==> r == Err::<Frame, JaTransportError>(
                JaTransportError::TransportClosed,
            ) && final(self).unchanged(old(self)),
            !old(self).is_closed() ==> r is Ok && final(self).sent(
                old(self),
                r.unwrap(),
                Some(session_id),
                Some(handle_id),
                correlated,
            ) && is_message_request_with_est(r.unwrap().request, body, protocol),
    {
        let request = message_request_with_est(body, protocol);
        self.send(request, Some(session_id), Some(handle_id), correlated)
    }

    /// The frame that sends a message to a plugin without waiting for any
    /// reply: nothing is registered.
    pub fn fire_and_forget_msg(&mut self, message: HandleMessage) -> (r: Result<
        Frame,
        JaTransportError,
    >)
        requires
            old(self).wf(),
        ensures
            old(self).is_closed() ==> r == Err::<Frame, JaTransportError>(
                JaTransportError::TransportClosed,
            ) && final(self).unchanged(old(self)),
            !old(self).is_closed() ==> r is Ok && final(self).sent(
                old(self),
                r.unwrap(),
                Some(message.session_id),
                Some(message.handle_id),
                false,
            ) && is_message_request(r.unwrap().request, message.body),
    {
        self.message(message.session_id, message.handle_id, message.body, false)
    }

    /// The frame that sends a message to a plugin whose caller waits for
    /// the first reply.
    pub fn send_msg_waiton_ack(&mut self, message: HandleMessageWithTimeout) -> (r: Result<
        Frame,
        JaTransportError,
    >)
        requires
            old(self).wf(),
        ensures
            old(self).is_closed() ==> r == Err::<Frame, JaTransportError>(
                JaTransportError::TransportClosed,
            ) && final(self).unchanged(old(self)),
            !old(self).is_closed() ==> r is Ok && final(self).sent(
                old(self),
                r.unwrap(),
                Some(message.session_id),
                Some(message.handle_id),
                true,
            ) && is_message_request(r.unwrap().request, message.body),
    {
        self.message(message.session_id, message.handle_id, message.body, true)
    }

    /// The frame that sends a message to a plugin whose caller waits for
    /// the terminal reply.
    pub fn internal_send_msg_waiton_rsp(&mut self, message: HandleMessageWithTimeout) -> (r:
        Result<Frame, JaTransportError>)
        requires
            old(self).wf(),
        ensures
            old(self).is_closed() ==> r == Err::<Frame, JaTransportError>(
                JaTransportError::TransportClosed,
            ) && final(self).unchanged(old(self)),
            !old(self).is_closed() ==> r is Ok && final(self).sent(
                old(self),
                r.unwrap(),
                Some(message.session_id),
                Some(message.handle_id),
                true,
            ) && is_message_request(r.unwrap().request, message.body),
    {
        self.message(message.session_id, message.handle_id, message.body, true)
    }

    /// The frame that sends a message with an establishment payload to a
    /// plugin without waiting for any reply: nothing is registered.
    pub fn fire_and_forget_msg_with_est(&mut self, message: HandleMessageWithEstablishment) -> (r:
        Result<Frame, JaTransportError>)
        requires
            old(self).wf(),
        ensures
            old(self).is_closed() ==> r == Err::<Frame, JaTransportError>(
                JaTransportError::TransportClosed,
            ) && final(self).unchanged(old(self)),
            !old(self).is_closed() ==> r is Ok && final(self).sent(
                old(self),
                r.unwrap(),
                Some(message.session_id),
                Some(message.handle_id),
                false,
            ) && is_message_request_with_est(r.unwrap().request, message.body, message.protocol),
    {
        self.message_with_est(
            message.session_id,
            message.handle_id,
            message.body,
            message.protocol,
            false,
        )
    }

    /// The frame that sends a message with an establishment payload to a
    /// plugin whose caller waits for the first reply.
    pub fn send_msg_waiton_ack_with_est(
        &mut self,
        message: HandleMessageWithEstablishmentAndTimeout,
    ) -> (r: Result<Frame, JaTransportError>)
        requires
            old(self).wf(),
        ensures
            old(self).is_closed() ==> r == Err::<Frame, JaTransportError>(
                JaTransportError::TransportClosed,
            ) && final(self).unchanged(old(self)),
            !old(self).is_closed() ==> r is Ok && final(self).sent(
                old(self),
                r.unwrap(),
                Some(message.session_id),
                Some(message.handle_id),
                true,
            ) && is_message_request_with_est(r.unwrap().request, message.body, message.protocol),
    {
        self.message_with_est(
            message.session_id,
            message.handle_id,
            message.body,
            message.protocol,
            true,
        )
    }

    /// Whether the transaction of a reply is pending.
    pub open spec fn knows(&self, rsp: JaResponse) -> bool {
        rsp.transaction is Some && has_key(self.pending(), transaction_of(rsp))
    }

    /// Takes one inbound reply through the decision table and does what it
    /// says. A cached reply goes under its own transaction, overwriting
    /// what was cached there, and wakes the caller that waits on it; a
    /// closed connection caches nothing. A retired transaction leaves the
    /// transaction manager. A reply for a handle goes to the back of the
    /// sink of that handle and to no other sink; without such a sink it is
    /// dropped. A reply for the root sink goes to its back.
    pub fn on_response(&mut self, rsp: JaResponse) -> (r: Handled)
        requires
            old(self).wf(),
        ensures
            final(self).wf(),
            final(self).same_setup(old(self)),
            final(self).is_closed() == old(self).is_closed(),
            r.dispatch == dispatch_of(rsp, old(self).knows(rsp)),
            final(self).cached() == if r.dispatch.cache && !old(self).is_closed() {
                put(old(self).cached(), transaction_of(rsp), rsp, old(self).capacity())
            } else {
                old(self).cached()
            },
            r.woken == (r.dispatch.cache && !old(self).is_closed() && old(self).waiting().contains(
                transaction_of(rsp),
            )),
            final(self).waiting() == if r.dispatch.cache && !old(self).is_closed() {
                old(self).waiting().remove(transaction_of(rsp))
            } else {
                old(self).waiting()
            },
            final(self).pending() == if r.dispatch.retire {
                without(old(self).pending(), transaction_of(rsp))
            } else {
                old(self).pending()
            },
            final(self).sinks() == match r.dispatch.delivery {
                Delivery::Handle { session_id, handle_id } => published(
                    old(self).sinks(),
                    (session_id, handle_id),
                    rsp,
                ),
                _ => old(self).sinks(),
            },
            r.delivered == match r.dispatch.delivery {
                Delivery::Handle { session_id, handle_id } => has_key(
                    old(self).sinks(),
                    (session_id, handle_id),
                ),
                _ => false,
            },
            final(self).root() == if r.dispatch.delivery is Root {
                old(self).root().push(rsp)
            } else {
                old(self).root()
            },
    {
        let known = match &rsp.transaction {
            Some(transaction) => self.transaction_manager.contains(transaction),
            None => false,
        };
        let decision = dispatch(&rsp, known);
        let mut woken = false;
        match &rsp.transaction {
            Some(transaction) => {
                if decision.cache {
                    woken = self.rsp_map.insert(transaction.clone(), rsp.clone());
                }
                if decision.retire {
                    match &rsp.janus {
                        ResponseType::Error { .. } => {
                            self.transaction_manager.error_close(transaction);
                        },
                        _ => {
                            self.transaction_manager.success_close(transaction);
                        },
                    }
                }
            },
            None => {},
        }
        let delivered = match decision.delivery {
            Delivery::Handle { session_id, handle_id } => self.router.pub_subroute(
                session_id,
                handle_id,
                rsp,
            ),
            Delivery::Root => {
                self.router.pub_root(rsp);
                false
            },
            Delivery::Nowhere => false,
        };
        Handled { dispatch: decision, woken, delivered }
    }

    /// What a caller that waits on `transaction` finds right now: an error
    /// if the connection is closed, the cached reply if there is one, and
    /// nothing otherwise.
    pub open spec fn answer_of(&self, transaction: Seq<char>) -> Option<
        Result<JaResponse, JaTransportError>,
    > {
        if self.is_closed() {
            Some(Err(JaTransportError::TransportClosed))
        } else {
            match lookup(self.cached(), transaction) {
                Some(rsp) => Some(Ok(rsp)),
                None => None,
            }
        }
    }

    /// What waiting does to the state: a caller that got its outcome waits
    /// no longer, one that got none waits on. Nothing else changes.
    pub open spec fn waited(&self, before: &Self, transaction: Seq<char>, done: bool) -> bool {
        &&& self.wf()
        &&& self.same_setup(before)
        &&& self.is_closed() == before.is_closed()
        &&& self.cached() == before.cached()
        &&& self.pending() == before.pending()
        &&& self.sinks() == before.sinks()
        &&& self.root() == before.root()
        &&& self.waiting() == if done || before.is_closed() {
            before.waiting().remove(transaction)
        } else {
            before.waiting().insert(transaction)
        }
    }

    fn answer(&self, transaction: &String) -> (r: Option<Result<JaResponse, JaTransportError>>)
        requires
            self.wf(),
        ensures
            r == self.answer_of(transaction@),
            r matches Some(Ok(rsp)) ==> answers(rsp, transaction@),
    {
        match self.rsp_map.poll(transaction) {
            Nap::Closed => Some(Err(JaTransportError::TransportClosed)),
            Nap::Ready(rsp) => {
                Some(Ok(rsp.clone()))
            },
            Nap::Pending => None,
        }
    }

    fn settle(&mut self, transaction: &String, done: bool)
        requires
            old(self).wf(),
        ensures
            final(self).waited(old(self), transaction@, done),
    {
        if done {
            self.rsp_map.unpark(transaction);
        } else {
            if self.rsp_map.closed() {
                self.rsp_map.unpark(transaction);
            } else {
                self.rsp_map.park(transaction.clone());
            }
        }
    }

    /// The outcome of `create` or `attach` as far as it is known: the id
    /// out of the cached reply, or why there is none.
    pub open spec fn created_outcome(&self, transaction: Seq<char>) -> Option<
        Result<u64, JaTransportError>,
    > {
        match self.answer_of(transaction) {
            Some(Ok(rsp)) => Some(created_id_of(rsp)),
            Some(Err(e)) => Some(Err(e)),
            None => None,
        }
    }

    /// Looks for the reply to `create`. `None` means that the caller has to
    /// wait and ask again when it is woken.
    pub fn wait_created(&mut self, transaction: &String) -> (r: Option<
        Result<u64, JaTransportError>,
    >)
        requires
            old(self).wf(),
        ensures
            r == old(self).created_outcome(transaction@),
            final(self).waited(old(self), transaction@, r is Some),
    {
        let r = match self.answer(transaction) {
            Some(Ok(rsp)) => Some(created_id(rsp)),
            Some(Err(e)) => Some(Err(e)),
            None => None,
        };
        self.settle(transaction, r.is_some());
        r
    }

    /// Looks for the reply to `attach`. With a new handle comes a fresh,
    /// empty sink for its events. `None` means that the caller has to wait
    /// and ask again when it is woken.
    pub fn wait_attached(&mut self, session_id: u64, transaction: &String) -> (r: Option<
        Result<u64, JaTransportError>,
    >)
        requires
            old(self).wf(),
        ensures
            r == old(self).created_outcome(transaction@),
            final(self).wf(),
            final(self).same_setup(old(self)),
            final(self).is_closed() == old(self).is_closed(),
            final(self).cached() == old(self).cached(),
            final(self).pending() == old(self).pending(),
            final(self).root() == old(self).root(),
            final(self).waiting() == if r is Some || old(self).is_closed() {
                old(self).waiting().remove(transaction@)
            } else {
                old(self).waiting().insert(transaction@)
            },
            final(self).sinks() == match r {
                Some(Ok(handle_id)) => opened(old(self).sinks(), (session_id, handle_id)),
                _ => old(self).sinks(),
            },
    {
        let r = self.wait_created(transaction);
        match &r {
            Some(Ok(handle_id)) => {
                self.router.add_subroute(session_id, *handle_id);
            },
            _ => {},
        }
        r
    }

    /// The outcome of the server-info request as far as it is known.
    pub open spec fn server_info_outcome(&self, transaction: Seq<char>) -> Option<
        Result<ServerInfoRsp, JaTransportError>,
    > {
        match self.answer_of(transaction) {
            Some(Ok(rsp)) => Some(server_info_of(rsp)),
            Some(Err(e)) => Some(Err(e)),
            None => None,
        }
    }

    /// Looks for the reply to the server-info request. `None` means that
    /// the caller has to wait and ask again when it is woken.
    pub fn wait_server_info(&mut self, transaction: &String) -> (r: Option<
        Result<ServerInfoRsp, JaTransportError>,
    >)
        requires
            old(self).wf(),
        ensures
            r == old(self).server_info_outcome(transaction@),
            final(self).waited(old(self), transaction@, r is Some),
    {
        let r = match self.answer(transaction) {
            Some(Ok(rsp)) => Some(server_info(rsp)),
            Some(Err(e)) => Some(Err(e)),
            None => None,
        };
        self.settle(transaction, r.is_some());
        r
    }

    /// The outcome of a message whose caller waits for the first reply, as
    /// far as it is known.
    pub open spec fn ack_outcome(&self, transaction: Seq<char>) -> Option<
        Result<JaResponse, JaTransportError>,
    > {
        match self.answer_of(transaction) {
            Some(Ok(rsp)) => Some(first_reply_of(rsp, transaction)),
            Some(Err(e)) => Some(Err(e)),
            None => None,
        }
    }

    /// Looks for the first reply to a message: whatever is cached under the
    /// transaction. What it returns on success carries that transaction.
    /// `None` means that the caller has to wait and ask again when it is
    /// woken.
    pub fn wait_ack(&mut self, transaction: &String) -> (r: Option<
        Result<JaResponse, JaTransportError>,
    >)
        requires
            old(self).wf(),
        ensures
            r == old(self).ack_outcome(transaction@),
            r matches Some(Ok(v)) ==> answers(v, transaction@),
            final(self).waited(old(self), transaction@, r is Some),
    {
        let r = match self.answer(transaction) {
            Some(Ok(rsp)) => Some(first_reply(rsp, transaction)),
            Some(Err(e)) => Some(Err(e)),
            None => None,
        };
        self.settle(transaction, r.is_some());
        r
    }

    /// The outcome of a message whose caller waits for the terminal reply,
    /// as far as it is known. An `ack` in the cache is no outcome.
    pub open spec fn rsp_outcome(&self, transaction: Seq<char>) -> Option<
        Result<JaResponse, JaTransportError>,
    > {
        match self.answer_of(transaction) {
            Some(Ok(rsp)) => terminal_reply_of(rsp, transaction),
            Some(Err(e)) => Some(Err(e)),
            None => None,
        }
    }

    /// Looks for the terminal reply to a message. An `ack` cached under the
    /// transaction is passed over: the caller waits on until the terminal
    /// reply overwrites it. What it returns on success is terminal, never
    /// an `ack`, and carries the transaction. `None` means that the caller
    /// has to wait and ask again when it is woken.
    pub fn wait_rsp(&mut self, transaction: &String) -> (r: Option<
        Result<JaResponse, JaTransportError>,
    >)
        requires
            old(self).wf(),
        ensures
            r == old(self).rsp_outcome(transaction@),
            r matches Some(Ok(v)) ==> v.janus.spec_is_terminal() && !(v.janus is Ack) && answers(
                v,
                transaction@,
            ),
            final(self).waited(old(self), transaction@, r is Some),
    {
        let r = match self.answer(transaction) {
            Some(Ok(rsp)) => terminal_reply(rsp, transaction),
            Some(Err(e)) => Some(Err(e)),
            None => None,
        };
        self.settle(transaction, r.is_some());
        r
    }

    /// Gives up waiting on `transaction` because the caller's deadline has
    /// passed. The caller waits no longer; the transaction stays pending
    /// until it is evicted, and a late reply is cached and never read.
    pub fn timed_out(&mut self, transaction: &String) -> (r: JaTransportError)
        requires
            old(self).wf(),
        ensures
            r == JaTransportError::Timeout,
            final(self).waited(old(self), transaction@, true),
    {
        self.settle(transaction, true);
        JaTransportError::Timeout
    }

    /// Closes the connection. Every caller that waits is handed out, to
    /// complete with `TransportClosed`, and nobody waits afterwards; every
    /// session that has a sink is told by a `timeout` event on the root
    /// sink. Closing a closed connection does nothing.
    #[verifier::loop_isolation(false)]
    pub fn close(&mut self) -> (r: Closing)
        requires
            old(self).wf(),
        ensures
            final(self).wf(),
            final(self).same_setup(old(self)),
            final(self).is_closed(),
            final(self).waiting() == Set::<Seq<char>>::empty(),
            final(self).cached() == old(self).cached(),
            final(self).pending() == old(self).pending(),
            final(self).sinks() == old(self).sinks(),
            final(self).root() == old(self).root() + r.sessions@.map_values(
                |id: u64| timeout_event(id),
            ),
            r.sessions@.no_duplicates(),
            old(self).is_closed() ==> r.sessions@.len() == 0,
            !old(self).is_closed() ==> forall|id: u64|
                r.sessions@.contains(id) <==> has_session(old(self).sinks(), id),
            keys_of(r.woken@) == old(self).waiting(),
    {
        if self.rsp_map.closed() {
            let woken: Vec<String> = Vec::new();
            let sessions: Vec<u64> = Vec::new();
            proof {
                self.rsp_map.lemma_bounded();
            }
            return Closing { woken, sessions };
        }
        let woken = self.rsp_map.close();
        let sessions = self.router.sessions();
        let ghost closed = *self;
        let mut i: usize = 0;
        while i < sessions.len()
            invariant
                i <= sessions.len(),
                self.rsp_map == closed.rsp_map,
                self.transaction_manager == closed.transaction_manager,
                self.namespace == closed.namespace,
                self.apisecret == closed.apisecret,
                self.transaction_generator == closed.transaction_generator,
                self.router.wf(),
                self.router.sinks() == old(self).router.sinks(),
                self.router.root() == old(self).router.root() + sessions@.subrange(
                    0,
                    i as int,
                ).map_values(|id: u64| timeout_event(id)),
            decreases sessions.len() - i,
        {
            let event = JaResponse {
                janus: ResponseType::Timeout,
                transaction: None,
                session_id: Some(sessions[i]),
                sender: None,
                establishment_protocol: None,
            };
            self.router.pub_root(event);
            i += 1;
        }
        Closing { woken, sessions }
    }

    /// Takes the oldest event out of the sink of a handle.
    pub fn next_event(&mut self, session_id: u64, handle_id: u64) -> (r: Option<JaResponse>)
        requires
            old(self).wf(),
        ensures
            final(self).wf(),
            final(self).same_setup(old(self)),
            final(self).is_closed() == old(self).is_closed(),
            final(self).cached() == old(self).cached(),
            final(self).pending() == old(self).pending(),
            final(self).waiting() == old(self).waiting(),
            final(self).root() == old(self).root(),
            r == oldest(old(self).sinks(), (session_id, handle_id)),
            final(self).sinks() == received(old(self).sinks(), (session_id, handle_id)),
    {
        self.router.recv_subroute(session_id, handle_id)
    }

    /// Takes the oldest event out of the root sink.
    pub fn next_root_event(&mut self) -> (r: Option<JaResponse>)
        requires
            old(self).wf(),
        ensures
            final(self).wf(),
            final(self).same_setup(old(self)),
            final(self).is_closed() == old(self).is_closed(),
            final(self).cached() == old(self).cached(),
            final(self).pending() == old(self).pending(),
            final(self).waiting() == old(self).waiting(),
            final(self).sinks() == old(self).sinks(),
            old(self).root().len() == 0 ==> r is None && final(self).root() == old(self).root(),
            old(self).root().len() > 0 ==> r == Some(old(self).root()[0]) && final(self).root()
                == old(self).root().drop_first(),
    {
        self.router.recv_root()
    }

    /// Closes the sink of a handle, dropping what waits in it: events that
    /// arrive for it later are dropped. Returns whether it had one.
    pub fn detach(&mut self, session_id: u64, handle_id: u64) -> (r: bool)
        requires
            old(self).wf(),
        ensures
            final(self).wf(),
            final(self).same_setup(old(self)),
            final(self).is_closed() == old(self).is_closed(),
            final(self).cached() == old(self).cached(),
            final(self).pending() == old(self).pending(),
            final(self).waiting() == old(self).waiting(),
            final(self).root() == old(self).root(),
            final(self).sinks() == without(old(self).sinks(), (session_id, handle_id)),
            r == has_key(old(self).sinks(), (session_id, handle_id)),
    {
        self.router.remove_subroute(session_id, handle_id)
    }
}

} // verus!
