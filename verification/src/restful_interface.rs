//! The long-poll HTTP transport, without the HTTP.
//!
//! Every operation comes in two halves. The first builds the request to
//! send: method, address and stamped JSON body. The second says what the
//! reply means. In between somebody else talks to the network.

use crate::error::{JaError, JaTransportError};
use crate::handle_msg::{
    HandleMessage, HandleMessageWithEstablishment, HandleMessageWithEstablishmentAndTimeout,
    HandleMessageWithTimeout,
};
use crate::janus_interface::ConnectionParams;
use crate::japrotocol::{JaResponse, ServerInfoRsp};
use crate::json::{is_object, json_is_object};
use crate::reply::{
    created_id, created_id_of, first_reply, first_reply_of, server_info, server_info_of,
    terminal_reply, terminal_reply_of,
};
use crate::request::{
    addressed, attach_request, carries_stamp, create_request, destroy_request,
    is_attach_request, is_message_request, is_message_request_with_est, is_plain_request,
    lemma_request_keys, lemma_stamped_payload, message_request, message_request_with_est, stamp,
    stamped, text_view,
};
use crate::fifo::{distinct_keys, has_key, lookup};
use crate::reply::{answers, carries};
use crate::router::{
    fanned_out, lemma_fanned_out_by_sender, oldest, opened, received, meant_for, Router, Sinks,
};
use crate::text::{decimal, push_decimal};
use crate::tgenerator::{GenerateTransaction, TransactionGenerator};
use std::time::Duration;
use vstd::prelude::*;

verus! {

/// How many events one long-poll asks for at most.
pub const MAX_EVENTS: u64 = 5;

/// The HTTP method of a request.
#[derive(Debug, Clone, Copy, PartialEq, Eq, Structural)]
pub enum Method {
    Get,
    Post,
}

/// One HTTP request to send.
#[derive(Debug)]
pub struct RestRequest {
    pub method: Method,
    pub url: String,
    /// The JSON body, for a `Post`.
    pub body: Option<serde_json::Value>,
    /// The transaction the body is stamped with.
    pub transaction: Option<String>,
    /// How long to wait for the reply, if there is a limit.
    pub timeout: Option<Duration>,
}

/// The address for requests outside any session.
pub open spec fn root_url(base: Seq<char>) -> Seq<char> {
    base + "/janus"@
}

/// The address of the server's description.
pub open spec fn info_url(base: Seq<char>) -> Seq<char> {
    base + "/janus/info"@
}

/// The address for requests to a session.
pub open spec fn session_url(base: Seq<char>, session_id: u64) -> Seq<char> {
    base + "/janus/"@ + decimal(session_id as nat)
}

/// The address for requests to a handle.
pub open spec fn handle_url(base: Seq<char>, session_id: u64, handle_id: u64) -> Seq<char> {
    session_url(base, session_id) + "/"@ + decimal(handle_id as nat)
}

/// The address a long-poll for the events of a session goes to.
pub open spec fn long_poll_url(base: Seq<char>, session_id: u64) -> Seq<char> {
    session_url(base, session_id) + "?maxev="@ + decimal(MAX_EVENTS as nat)
}

/// The state of the long-poll transport: where the server is, how requests
/// are stamped, and the sinks of the handles attached through it.
pub struct RestfulInterface<G: GenerateTransaction> {
    namespace: String,
    apisecret: Option<String>,
    transaction_generator: TransactionGenerator<G>,
    baseurl: String,
    capacity: usize,
    router: Router,
}

impl<G: GenerateTransaction> RestfulInterface<G> {
    /// The address of the server.
    pub closed spec fn baseurl(&self) -> Seq<char> {
        self.baseurl@
    }

    /// The secret every request is stamped with, if any.
    pub closed spec fn apisecret(&self) -> Option<Seq<char>> {
        text_view(self.apisecret)
    }

    /// The path segment under which the server answers.
    pub closed spec fn namespace(&self) -> Seq<char> {
        self.namespace@
    }

    /// The configured bound of caches.
    pub closed spec fn capacity(&self) -> nat {
        self.capacity as nat
    }

    /// The generator the transactions come from.
    pub closed spec fn generator(&self) -> G {
        self.transaction_generator.generator()
    }

    /// The sinks of the attached handles.
    pub closed spec fn sinks(&self) -> Sinks {
        self.router.sinks()
    }

    /// What holds of every interface: at most one sink per handle.
    pub closed spec fn wf(&self) -> bool {
        self.router.wf()
    }

    /// The configuration of the interface stays as it is.
    pub open spec fn same_setup(&self, other: &Self) -> bool {
        &&& self.baseurl() == other.baseurl()
        &&& self.apisecret() == other.apisecret()
        &&& self.namespace() == other.namespace()
        &&& self.capacity() == other.capacity()
        &&& self.generator() == other.generator()
    }

    /// On a well-formed interface no handle has two sinks.
    pub proof fn lemma_sinks_distinct(&self)
        requires
            self.wf(),
        ensures
            distinct_keys(self.sinks()),
    {
    }

    /// Sets up the transport for a server. No handle is attached yet.
    pub fn make_interface(conn_params: ConnectionParams, transaction_generator: G) -> (r: Self)
        ensures
            r.wf(),
            r.baseurl() == conn_params.url@,
            r.apisecret() == text_view(conn_params.apisecret),
            r.namespace() == conn_params.namespace@,
            r.capacity() == conn_params.capacity,
            r.generator() == transaction_generator,
            r.sinks() == Seq::<((u64, u64), Seq<JaResponse>)>::empty(),
    {
        RestfulInterface {
            namespace: conn_params.namespace,
            apisecret: conn_params.apisecret,
            transaction_generator: TransactionGenerator::new(transaction_generator),
            baseurl: conn_params.url,
            capacity: conn_params.capacity,
            router: Router::new(),
        }
    }

    /// Stamps a request with the API secret, if one is configured, and with
    /// a fresh transaction, which is returned beside the request. The
    /// transaction is the one the generator hands out for this request.
    pub fn decorate_request(&self, request: serde_json::Value) -> (r: (serde_json::Value, String))
        requires
            json_is_object(request),
        ensures
            self.generator().yields(r.1@),
            stamped(request, self.apisecret(), r.1@, r.0),
    {
        let transaction = self.transaction_generator.generate_transaction();
        let request = stamp(request, &self.apisecret, &transaction);
        (request, transaction)
    }

    /// Stamps a request like `decorate_request`, if it is one: a document
    /// that is no JSON object is refused.
    pub fn try_decorate_request(&self, request: serde_json::Value) -> (r: Result<
        (serde_json::Value, String),
        JaError,
    >)
        ensures
            json_is_object(request) ==> r is Ok && self.generator().yields(r.unwrap().1@)
                && stamped(request, self.apisecret(), r.unwrap().1@, r.unwrap().0),
            !json_is_object(request) ==> r matches Err(JaError::InvalidJanusRequest),
    {
        if is_object(&request) {
            Ok(self.decorate_request(request))
        } else {
            Err(JaError::InvalidJanusRequest)
        }
    }

    fn post(&self, url: String, body: serde_json::Value, timeout: Option<Duration>) -> (r:
        RestRequest)
        requires
            json_is_object(body),
        ensures
            r.method == Method::Post,
            r.url == url,
            r.timeout == timeout,
            r.body is Some,
            r.transaction is Some,
            self.generator().yields(r.transaction.unwrap()@),
            stamped(body, self.apisecret(), r.transaction.unwrap()@, r.body.unwrap()),
    {
        let (body, transaction) = self.decorate_request(body);
        RestRequest {
            method: Method::Post,
            url,
            body: Some(body),
            transaction: Some(transaction),
            timeout,
        }
    }

    fn session_path(&self, session_id: u64) -> (r: String)
        ensures
            r@ == session_url(self.baseurl(), session_id),
    {
        let mut url = self.baseurl.clone();
        url.append("/janus/");
        push_decimal(&mut url, session_id);
        url
    }

    fn handle_path(&self, session_id: u64, handle_id: u64) -> (r: String)
        ensures
            r@ == handle_url(self.baseurl(), session_id, handle_id),
    {
        let mut url = self.session_path(session_id);
        url.append("/");
        push_decimal(&mut url, handle_id);
        url
    }

    /// The request that opens a session.
    pub fn create(&self, timeout: Duration) -> (r: RestRequest)
        ensures
            r.method == Method::Post,
            r.url@ == root_url(self.baseurl()),
            r.timeout == Some(timeout),
            r.body is Some && r.transaction is Some,
            is_plain_request(r.body.unwrap(), "create"@),
            carries_stamp(r.body.unwrap(), self.apisecret(), r.transaction.unwrap()@),
            self.generator().yields(r.transaction.unwrap()@),
            addressed(r.body.unwrap(), None, None),
    {
        let mut url = self.baseurl.clone();
        url.append("/janus");
        let body = create_request();
        let r = self.post(url, body, Some(timeout));
        proof {
            lemma_request_keys();
        }
        r
    }

    /// What the reply to `create` means: the id of the new session, or why
    /// there is none.
    pub fn create_reply(&self, response: JaResponse) -> (r: Result<u64, JaTransportError>)
        ensures
            r == created_id_of(response),
    {
        created_id(response)
    }

    /// The request for the server's description.
    pub fn server_info(&self, timeout: Duration) -> (r: RestRequest)
        ensures
            r.method == Method::Get,
            r.url@ == info_url(self.baseurl()),
            r.timeout == Some(timeout),
            r.body is None,
            r.transaction is None,
    {
        let mut url = self.baseurl.clone();
        url.append("/janus/info");
        RestRequest { method: Method::Get, url, body: None, transaction: None, timeout: Some(timeout) }
    }

    /// What the reply to the server-info request means.
    pub fn server_info_reply(&self, response: JaResponse) -> (r: Result<
        ServerInfoRsp,
        JaTransportError,
    >)
        ensures
            r == server_info_of(response),
    {
        server_info(response)
    }

    /// The request that attaches a handle of `plugin_id` to a session.
    pub fn attach(&self, session_id: u64, plugin_id: String, timeout: Duration) -> (r: RestRequest)
        ensures
            r.method == Method::Post,
            r.url@ == session_url(self.baseurl(), session_id),
            r.timeout == Some(timeout),
            r.body is Some && r.transaction is Some,
            is_attach_request(r.body.unwrap(), plugin_id@),
            carries_stamp(r.body.unwrap(), self.apisecret(), r.transaction.unwrap()@),
            self.generator().yields(r.transaction.unwrap()@),
            addressed(r.body.unwrap(), None, None),
    {
        let url = self.session_path(session_id);
        let body = attach_request(plugin_id.as_str());
        let r = self.post(url, body, Some(timeout));
        proof {
            lemma_request_keys();
        }
        r
    }

    /// What the reply to `attach` means: the id of the new handle, or why
    /// there is none. With a new handle comes a fresh, empty sink for its
    /// events; without one the sinks stay as they are.
    pub fn attach_reply(&mut self, session_id: u64, response: JaResponse) -> (r: Result<
        u64,
        JaTransportError,
    >)
        requires
            old(self).wf(),
        ensures
            final(self).wf(),
            r == created_id_of(response),
            final(self).same_setup(old(self)),
            final(self).sinks() == match r {
                Ok(handle_id) => opened(old(self).sinks(), (session_id, handle_id)),
                Err(_) => old(self).sinks(),
            },
    {
        let r = created_id(response);
        match &r {
            Ok(handle_id) => {
                self.router.add_subroute(session_id, *handle_id);
            },
            Err(_) => {},
        }
        r
    }

    /// The long-poll that asks for the next events of a session.
    pub fn long_poll(&self, session_id: u64) -> (r: RestRequest)
        ensures
            r.method == Method::Get,
            r.url@ == long_poll_url(self.baseurl(), session_id),
            r.timeout is None,
            r.body is None,
            r.transaction is None,
    {
        let mut url = self.session_path(session_id);
        url.append("?maxev=");
        push_decimal(&mut url, MAX_EVENTS);
        RestRequest { method: Method::Get, url, body: None, transaction: None, timeout: None }
    }

    /// Forwards what one long-poll of a session returned, in the order in
    /// which the server listed it. An event that names a sender goes to the
    /// sink of that handle, behind what already waits there, and to no
    /// other sink; without such a sink it is dropped. An event that names no
    /// sender goes to the sink of every handle of the session. So the sink
    /// of a handle gains exactly the events that name it or nobody.
    pub fn long_poll_reply(&mut self, session_id: u64, events: &Vec<JaResponse>)
        requires
            old(self).wf(),
        ensures
            final(self).wf(),
            final(self).same_setup(old(self)),
            final(self).sinks() == fanned_out(old(self).sinks(), session_id, events@),
            forall|key: (u64, u64)| #[trigger]
                has_key(final(self).sinks(), key) == has_key(old(self).sinks(), key),
            forall|key: (u64, u64)|
                has_key(old(self).sinks(), key) ==> #[trigger] lookup(final(self).sinks(), key)
                    == if key.0 == session_id {
                    Some(lookup(old(self).sinks(), key).unwrap() + meant_for(events@, key.1))
                } else {
                    lookup(old(self).sinks(), key)
                },
    {
        proof {
            assert forall|key: (u64, u64)|
                #![trigger has_key(fanned_out(self.sinks(), session_id, events@), key)]
                #![trigger lookup(fanned_out(self.sinks(), session_id, events@), key)]
                {
                    &&& has_key(fanned_out(self.sinks(), session_id, events@), key) == has_key(
                        self.sinks(),
                        key,
                    )
                    &&& has_key(self.sinks(), key) ==> lookup(
                        fanned_out(self.sinks(), session_id, events@),
                        key,
                    ) == if key.0 == session_id {
                        Some(lookup(self.sinks(), key).unwrap() + meant_for(events@, key.1))
                    } else {
                        lookup(self.sinks(), key)
                    }
                } by {
                lemma_fanned_out_by_sender(self.sinks(), session_id, events@, key);
            }
        }
        self.router.pub_subroutes(session_id, events);
    }

    /// Takes the oldest event out of the sink of a handle.
    pub fn next_event(&mut self, session_id: u64, handle_id: u64) -> (r: Option<JaResponse>)
        requires
            old(self).wf(),
        ensures
            final(self).wf(),
            final(self).same_setup(old(self)),
            r == oldest(old(self).sinks(), (session_id, handle_id)),
            final(self).sinks() == received(old(self).sinks(), (session_id, handle_id)),
    {
        self.router.recv_subroute(session_id, handle_id)
    }

    /// Keeping a session alive takes no request on this transport: every
    /// long-poll does it.
    pub fn keep_alive(&self, session_id: u64, timeout: Duration) -> (r: Option<RestRequest>)
        ensures
            r is None,
    {
        None
    }

    /// The request that closes a session. Its reply is not looked at.
    pub fn destory(&self, session_id: u64, timeout: Duration) -> (r: RestRequest)
        ensures
            r.method == Method::Post,
            r.url@ == session_url(self.baseurl(), session_id),
            r.timeout == Some(timeout),
            r.body is Some && r.transaction is Some,
            is_plain_request(r.body.unwrap(), "destroy"@),
            carries_stamp(r.body.unwrap(), self.apisecret(), r.transaction.unwrap()@),
            self.generator().yields(r.transaction.unwrap()@),
            addressed(r.body.unwrap(), None, None),
    {
        let url = self.session_path(session_id);
        let body = destroy_request();
        let r = self.post(url, body, Some(timeout));
        proof {
            lemma_request_keys();
        }
        r
    }

    /// What the outcome of `destory` is: closing a session is done on a
    /// best effort, so the caller is told of success whether the request
    /// could be sent or the transport failed.
    pub fn destory_reply(&self, sent: bool) -> (r: Result<(), JaTransportError>)
        ensures
            r is Ok,
    {
        Ok(())
    }

    /// What an operation fails with when the caller's deadline has passed
    /// before the reply arrived.
    pub fn timed_out(&self) -> (r: JaTransportError)
        ensures
            r == JaTransportError::Timeout,
    {
        JaTransportError::Timeout
    }

    fn message(&self, session_id: u64, handle_id: u64, body: serde_json::Value, timeout: Option<
        Duration,
    >) -> (r: RestRequest)
        ensures
            r.method == Method::Post,
            r.url@ == handle_url(self.baseurl(), session_id, handle_id),
            r.timeout == timeout,
            r.body is Some && r.transaction is Some,
            is_message_request(r.body.unwrap(), body),
            carries_stamp(r.body.unwrap(), self.apisecret(), r.transaction.unwrap()@),
            self.generator().yields(r.transaction.unwrap()@),
            addressed(r.body.unwrap(), None, None),
    {
        let url = self.handle_path(session_id, handle_id);
        let request = message_request(body);
        let r = self.post(url, request, timeout);
        proof {
            lemma_request_keys();
        }
        r
    }

    fn message_with_est(
        &self,
        session_id: u64,
        handle_id: u64,
        body: serde_json::Value,
        protocol: crate::japrotocol::EstablishmentProtocol,
        timeout: Option<Duration>,
    ) -> (r: RestRequest)
        ensures
            r.method == Method::Post,
            r.url@ == handle_url(self.baseurl(), session_id, handle_id),
            r.timeout == timeout,
            r.body is Some && r.transaction is Some,
            is_message_request_with_est(r.body.unwrap(), body, protocol),
            carries_stamp(r.body.unwrap(), self.apisecret(), r.transaction.unwrap()@),
            self.generator().yields(r.transaction.unwrap()@),
            addressed(r.body.unwrap(), None, None),
    {
        let url = self.handle_path(session_id, handle_id);
        let request = message_request_with_est(body, protocol);
        let r = self.post(url, request, timeout);
        proof {
            lemma_stamped_payload(
                request,
                self.apisecret(),
                r.transaction.unwrap()@,
                r.body.unwrap(),
                None,
                None,
            );
        }
        r
    }

    /// The request that sends a message to a plugin without waiting for any
    /// reply.
    pub fn fire_and_forget_msg(&self, message: HandleMessage) -> (r: RestRequest)
        ensures
            r.method == Method::Post,
            r.url@ == handle_url(self.baseurl(), message.session_id, message.handle_id),
            r.timeout is None,
            r.body is Some && r.transaction is Some,
            is_message_request(r.body.unwrap(), message.body),
            carries_stamp(r.body.unwrap(), self.apisecret(), r.transaction.unwrap()@),
            self.generator().yields(r.transaction.unwrap()@),
            addressed(r.body.unwrap(), None, None),
    {
        self.message(message.session_id, message.handle_id, message.body, None)
    }

    /// The request that sends a message to a plugin and waits for the
    /// first reply.
    pub fn send_msg_waiton_ack(&self, message: HandleMessageWithTimeout) -> (r: RestRequest)
        ensures
            r.method == Method::Post,
            r.url@ == handle_url(self.baseurl(), message.session_id, message.handle_id),
            r.timeout == Some(message.timeout),
            r.body is Some && r.transaction is Some,
            is_message_request(r.body.unwrap(), message.body),
            carries_stamp(r.body.unwrap(), self.apisecret(), r.transaction.unwrap()@),
            self.generator().yields(r.transaction.unwrap()@),
            addressed(r.body.unwrap(), None, None),
    {
        self.message(message.session_id, message.handle_id, message.body, Some(message.timeout))
    }

    /// What the first reply to a message means to a caller that waits for
    /// the acknowledgement. What it returns on success carries the
    /// transaction of the request.
    pub fn send_msg_waiton_ack_reply(&self, response: JaResponse, transaction: &String) -> (r: Result<
        JaResponse,
        JaTransportError,
    >)
        ensures
            r == first_reply_of(response, transaction@),
            r matches Ok(v) ==> answers(v, transaction@),
    {
        first_reply(response, transaction)
    }

    /// The request that sends a message to a plugin and waits for the
    /// terminal reply.
    pub fn internal_send_msg_waiton_rsp(&self, message: HandleMessageWithTimeout) -> (r:
        RestRequest)
        ensures
            r.method == Method::Post,
            r.url@ == handle_url(self.baseurl(), message.session_id, message.handle_id),
            r.timeout == Some(message.timeout),
            r.body is Some && r.transaction is Some,
            is_message_request(r.body.unwrap(), message.body),
            carries_stamp(r.body.unwrap(), self.apisecret(), r.transaction.unwrap()@),
            self.generator().yields(r.transaction.unwrap()@),
            addressed(r.body.unwrap(), None, None),
    {
        self.message(message.session_id, message.handle_id, message.body, Some(message.timeout))
    }

    /// What a reply to a message means to a caller that waits for the
    /// terminal reply: `None` as long as the reply is not terminal. What it
    /// returns on success is never an `ack`.
    pub fn internal_send_msg_waiton_rsp_reply(&self, response: JaResponse, transaction: &String) -> (r:
        Option<Result<JaResponse, JaTransportError>>)
        ensures
            r == terminal_reply_of(response, transaction@),
            r matches Some(Ok(v)) ==> v.janus.spec_is_terminal() && !(v.janus is Ack),
    {
        terminal_reply(response, transaction)
    }

    /// What an event of the session means to a caller that waits for the
    /// terminal reply to `transaction`: an event of another transaction is
    /// none of its business, so that the caller waits on; an event of its
    /// own is read like a reply.
    pub fn waiton_rsp_event(&self, event: JaResponse, transaction: &String) -> (r: Option<
        Result<JaResponse, JaTransportError>,
    >)
        ensures
            r == if answers(event, transaction@) {
                terminal_reply_of(event, transaction@)
            } else {
                None
            },
            r matches Some(Ok(v)) ==> v.janus.spec_is_terminal() && !(v.janus is Ack) && answers(
                v,
                transaction@,
            ),
    {
        if carries(&event, transaction) {
            terminal_reply(event, transaction)
        } else {
            None
        }
    }

    /// The request that sends a message with an establishment payload to a
    /// plugin without waiting for any reply.
    pub fn fire_and_forget_msg_with_est(&self, message: HandleMessageWithEstablishment) -> (r:
        RestRequest)
        ensures
            r.method == Method::Post,
            r.url@ == handle_url(self.baseurl(), message.session_id, message.handle_id),
            r.timeout is None,
            r.body is Some && r.transaction is Some,
            is_message_request_with_est(r.body.unwrap(), message.body, message.protocol),
            carries_stamp(r.body.unwrap(), self.apisecret(), r.transaction.unwrap()@),
            self.generator().yields(r.transaction.unwrap()@),
            addressed(r.body.unwrap(), None, None),
    {
        self.message_with_est(
            message.session_id,
            message.handle_id,
            message.body,
            message.protocol,
            None,
        )
    }

    /// The request that sends a message with an establishment payload to a
    /// plugin and waits for the first reply.
    pub fn send_msg_waiton_ack_with_est(
        &self,
        message: HandleMessageWithEstablishmentAndTimeout,
    ) -> (r: RestRequest)
        ensures
            r.method == Method::Post,
            r.url@ == handle_url(self.baseurl(), message.session_id, message.handle_id),
            r.timeout == Some(message.timeout),
            r.body is Some && r.transaction is Some,
            is_message_request_with_est(r.body.unwrap(), message.body, message.protocol),
            carries_stamp(r.body.unwrap(), self.apisecret(), r.transaction.unwrap()@),
            self.generator().yields(r.transaction.unwrap()@),
            addressed(r.body.unwrap(), None, None),
    {
        self.message_with_est(
            message.session_id,
            message.handle_id,
            message.body,
            message.protocol,
            Some(message.timeout),
        )
    }
}

} // verus!
