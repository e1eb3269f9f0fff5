//! The Janus reply envelope and the establishment payloads.

use crate::json::clone_value;
use vstd::prelude::*;

verus! {

/// The role of a session description in an offer/answer exchange.
#[derive(Debug, Clone, Copy, PartialEq, Eq, Structural)]
pub enum JsepType {
    Offer,
    Answer,
    Pranswer,
    Rollback,
}

/// A session description travelling with a request or a reply.
#[derive(Debug, PartialEq)]
pub struct Jsep {
    pub jsep_type: JsepType,
    pub sdp: String,
    pub trickle: Option<bool>,
}

/// What a request or reply carries to establish media.
#[derive(Debug, PartialEq)]
pub enum EstablishmentProtocol {
    JSEP(Jsep),
    /// A plain-RTP description, kept as the JSON object it arrived as.
    RTP(serde_json::Value),
}

/// The `error` member of an error reply.
#[derive(Debug, PartialEq)]
pub struct ErrorResponse {
    pub code: u16,
    pub reason: String,
}

/// The `data` member of the reply to `create` and `attach`.
#[derive(Debug, Clone, Copy, PartialEq, Eq, Structural)]
pub struct JaData {
    pub id: u64,
}

/// The `plugindata` member: the plugin's name and its opaque payload.
#[derive(Debug, PartialEq)]
pub struct PluginData {
    pub plugin: String,
    pub data: serde_json::Value,
}

/// The two shapes of a `success` reply.
#[derive(Debug, PartialEq)]
pub enum JaSuccessProtocol {
    Data { data: JaData },
    Plugin { plugin_data: PluginData },
}

/// What the server reports about itself. The three registries are kept as
/// the JSON objects they arrived as.
#[derive(Debug, PartialEq)]
pub struct ServerInfoRsp {
    pub name: String,
    pub version: u64,
    pub version_string: String,
    pub author: String,
    pub commit_hash: String,
    pub compile_time: String,
    pub plugins: serde_json::Value,
    pub transports: serde_json::Value,
    pub events: serde_json::Value,
}

/// The discriminant of a reply, with what is specific to each kind.
#[derive(Debug, PartialEq)]
pub enum ResponseType {
    Ack,
    Success(JaSuccessProtocol),
    Error { error: ErrorResponse },
    Event { plugin_data: Option<PluginData> },
    ServerInfo(ServerInfoRsp),
    Detached,
    WebRTCUp,
    Media,
    SlowLink,
    HangUp,
    Trickle,
    Timeout,
    Keepalive,
}

/// One reply or event as the server sent it.
#[derive(Debug, PartialEq)]
pub struct JaResponse {
    pub janus: ResponseType,
    pub transaction: Option<String>,
    pub session_id: Option<u64>,
    pub sender: Option<u64>,
    pub establishment_protocol: Option<EstablishmentProtocol>,
}

impl Clone for Jsep {
    fn clone(&self) -> (r: Self)
        ensures
            r == *self,
    {
        Jsep { jsep_type: self.jsep_type, sdp: self.sdp.clone(), trickle: self.trickle }
    }
}

impl Clone for EstablishmentProtocol {
    fn clone(&self) -> (r: Self)
        ensures
            r == *self,
    {
        match self {
            EstablishmentProtocol::JSEP(jsep) => EstablishmentProtocol::JSEP(jsep.clone()),
            EstablishmentProtocol::RTP(rtp) => EstablishmentProtocol::RTP(clone_value(rtp)),
        }
    }
}

impl Clone for ErrorResponse {
    fn clone(&self) -> (r: Self)
        ensures
            r == *self,
    {
        ErrorResponse { code: self.code, reason: self.reason.clone() }
    }
}

impl Clone for PluginData {
    fn clone(&self) -> (r: Self)
        ensures
            r == *self,
    {
        PluginData { plugin: self.plugin.clone(), data: clone_value(&self.data) }
    }
}

impl Clone for JaSuccessProtocol {
    fn clone(&self) -> (r: Self)
        ensures
            r == *self,
    {
        match self {
            JaSuccessProtocol::Data { data } => JaSuccessProtocol::Data { data: *data },
            JaSuccessProtocol::Plugin { plugin_data } => JaSuccessProtocol::Plugin {
                plugin_data: plugin_data.clone(),
            },
        }
    }
}

impl Clone for ServerInfoRsp {
    fn clone(&self) -> (r: Self)
        ensures
            r == *self,
    {
        ServerInfoRsp {
            name: self.name.clone(),
            version: self.version,
            version_string: self.version_string.clone(),
            author: self.author.clone(),
            commit_hash: self.commit_hash.clone(),
            compile_time: self.compile_time.clone(),
            plugins: clone_value(&self.plugins),
            transports: clone_value(&self.transports),
            events: clone_value(&self.events),
        }
    }
}

impl Clone for ResponseType {
    fn clone(&self) -> (r: Self)
        ensures
            r == *self,
    {
        match self {
            ResponseType::Ack => ResponseType::Ack,
            ResponseType::Success(protocol) => ResponseType::Success(protocol.clone()),
            ResponseType::Error { error } => ResponseType::Error { error: error.clone() },
            ResponseType::Event { plugin_data } => ResponseType::Event {
                plugin_data: match plugin_data {
                    Some(data) => Some(data.clone()),
                    None => None,
                },
            },
            ResponseType::ServerInfo(info) => ResponseType::ServerInfo(info.clone()),
            ResponseType::Detached => ResponseType::Detached,
            ResponseType::WebRTCUp => ResponseType::WebRTCUp,
            ResponseType::Media => ResponseType::Media,
            ResponseType::SlowLink => ResponseType::SlowLink,
            ResponseType::HangUp => ResponseType::HangUp,
            ResponseType::Trickle => ResponseType::Trickle,
            ResponseType::Timeout => ResponseType::Timeout,
            ResponseType::Keepalive => ResponseType::Keepalive,
        }
    }
}

impl Clone for JaResponse {
    fn clone(&self) -> (r: Self)
        ensures
            r == *self,
    {
        JaResponse {
            janus: self.janus.clone(),
            transaction: match &self.transaction {
                Some(transaction) => Some(transaction.clone()),
                None => None,
            },
            session_id: self.session_id,
            sender: self.sender,
            establishment_protocol: match &self.establishment_protocol {
                Some(protocol) => Some(protocol.clone()),
                None => None,
            },
        }
    }
}

impl ResponseType {
    /// A reply that ends a request/response exchange with a plugin: a
    /// plugin `success`, an `error` or an `event`.
    pub open spec fn spec_is_terminal(&self) -> bool {
        self matches ResponseType::Success(JaSuccessProtocol::Plugin { .. })
            || self is Error || self is Event
    }

    /// Whether this reply ends a request/response exchange with a plugin.
    #[verifier::when_used_as_spec(spec_is_terminal)]
    pub fn is_terminal(&self) -> (r: bool)
        ensures
            r == self.spec_is_terminal(),
            r ==> !(self is Ack),
    {
        match self {
            ResponseType::Success(JaSuccessProtocol::Plugin { .. }) => true,
            ResponseType::Error { .. } => true,
            ResponseType::Event { .. } => true,
            _ => false,
        }
    }

    /// An event that concerns one handle: `event`, `webrtcup`, `media`,
    /// `slowlink`, `hangup`, `trickle` or `detached`.
    pub open spec fn spec_is_handle_event(&self) -> bool {
        self is Event || self is WebRTCUp || self is Media || self is SlowLink || self is HangUp
            || self is Trickle || self is Detached
    }

    /// Whether this is an event that concerns one handle.
    #[verifier::when_used_as_spec(spec_is_handle_event)]
    pub fn is_handle_event(&self) -> (r: bool)
        ensures
            r == self.spec_is_handle_event(),
    {
        match self {
            ResponseType::Event { .. } => true,
            ResponseType::WebRTCUp => true,
            ResponseType::Media => true,
            ResponseType::SlowLink => true,
            ResponseType::HangUp => true,
            ResponseType::Trickle => true,
            ResponseType::Detached => true,
            _ => false,
        }
    }
}

} // verus!
