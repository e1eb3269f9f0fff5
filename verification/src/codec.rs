//! Reading replies out of JSON documents and writing them back.
//!
//! A reply is a JSON object. Its `janus` member names its kind; the
//! members `transaction`, `session_id` and `sender` are optional; `jsep` or
//! `rtp` carry an establishment payload; `plugindata`, `error` and `data`
//! belong to particular kinds.

use crate::error::JaError;
use crate::japrotocol::{
    ErrorResponse, EstablishmentProtocol, JaData, JaResponse, JaSuccessProtocol, Jsep, JsepType,
    PluginData, ResponseType, ServerInfoRsp,
};
use crate::json::{
    clone_value, elements, field, flag_field, flag_of, json_elements, json_flag, json_is_object,
    json_parsed, json_text, json_unsigned, member, new_object, parse, text_field, text_of,
    unsigned_field, unsigned_of,
};
use crate::request::{
    jsep_type_text, mark, jsep_value, lemma_jsep_keys, set_text, set_unsigned, set_value,
    text_view,
};
use vstd::prelude::*;

verus! {

/// The kind of a reply, as its `janus` member names it.
#[derive(Debug, Clone, Copy, PartialEq, Eq, Structural)]
pub enum Kind {
    Ack,
    Success,
    Error,
    Event,
    ServerInfo,
    Detached,
    WebRTCUp,
    Media,
    SlowLink,
    HangUp,
    Trickle,
    Timeout,
    Keepalive,
}

/// The kind a name stands for.
pub open spec fn kind_of_name(name: Seq<char>) -> Option<Kind> {
    if name == "ack"@ {
        Some(Kind::Ack)
    } else if name == "success"@ {
        Some(Kind::Success)
    } else if name == "error"@ {
        Some(Kind::Error)
    } else if name == "event"@ {
        Some(Kind::Event)
    } else if name == "server_info"@ {
        Some(Kind::ServerInfo)
    } else if name == "detached"@ {
        Some(Kind::Detached)
    } else if name == "webrtcup"@ {
        Some(Kind::WebRTCUp)
    } else if name == "media"@ {
        Some(Kind::Media)
    } else if name == "slowlink"@ {
        Some(Kind::SlowLink)
    } else if name == "hangup"@ {
        Some(Kind::HangUp)
    } else if name == "trickle"@ {
        Some(Kind::Trickle)
    } else if name == "timeout"@ {
        Some(Kind::Timeout)
    } else if name == "keepalive"@ {
        Some(Kind::Keepalive)
    } else {
        None
    }
}

/// The kind of session description a name stands for.
pub open spec fn jsep_type_of_name(name: Seq<char>) -> Option<JsepType> {
    if name == "offer"@ {
        Some(JsepType::Offer)
    } else if name == "answer"@ {
        Some(JsepType::Answer)
    } else if name == "pranswer"@ {
        Some(JsepType::Pranswer)
    } else if name == "rollback"@ {
        Some(JsepType::Rollback)
    } else {
        None
    }
}

/// The kind of a reply.
pub open spec fn kind_of(janus: ResponseType) -> Kind {
    match janus {
        ResponseType::Ack => Kind::Ack,
        ResponseType::Success(_) => Kind::Success,
        ResponseType::Error { .. } => Kind::Error,
        ResponseType::Event { .. } => Kind::Event,
        ResponseType::ServerInfo(_) => Kind::ServerInfo,
        ResponseType::Detached => Kind::Detached,
        ResponseType::WebRTCUp => Kind::WebRTCUp,
        ResponseType::Media => Kind::Media,
        ResponseType::SlowLink => Kind::SlowLink,
        ResponseType::HangUp => Kind::HangUp,
        ResponseType::Trickle => Kind::Trickle,
        ResponseType::Timeout => Kind::Timeout,
        ResponseType::Keepalive => Kind::Keepalive,
    }
}

/// The member under `key` is absent or a string.
pub open spec fn text_field_ok(v: serde_json::Value, key: Seq<char>) -> bool {
    field(v, key) matches Some(m) ==> json_text(m) is Some
}

/// The member under `key` is absent or a non-negative integer.
pub open spec fn unsigned_field_ok(v: serde_json::Value, key: Seq<char>) -> bool {
    field(v, key) matches Some(m) ==> json_unsigned(m) is Some
}

/// The member under `key` is absent or a boolean.
pub open spec fn flag_field_ok(v: serde_json::Value, key: Seq<char>) -> bool {
    field(v, key) matches Some(m) ==> json_flag(m) is Some
}

/// A document that can be read as a session description: a known `type`,
/// an `sdp`, and `trickle` absent or a boolean.
pub open spec fn jsep_ok(j: serde_json::Value) -> bool {
    &&& text_field(j, "type"@) matches Some(name) && jsep_type_of_name(name) is Some
    &&& text_field(j, "sdp"@) is Some
    &&& flag_field_ok(j, "trickle"@)
}

/// The session description a document stands for.
pub open spec fn jsep_decodes(j: serde_json::Value, jsep: Jsep) -> bool {
    &&& text_field(j, "type"@) matches Some(name) && jsep_type_of_name(name) == Some(
        jsep.jsep_type,
    )
    &&& text_field(j, "sdp"@) == Some(jsep.sdp@)
    &&& flag_field(j, "trickle"@) == jsep.trickle
}

/// A document that can be read as plugin data: a `plugin` name and a
/// `data` member of any shape.
pub open spec fn plugin_data_ok(p: serde_json::Value) -> bool {
    text_field(p, "plugin"@) is Some && field(p, "data"@) is Some
}

/// The plugin data a document stands for.
pub open spec fn plugin_data_decodes(p: serde_json::Value, plugin_data: PluginData) -> bool {
    text_field(p, "plugin"@) == Some(plugin_data.plugin@) && field(p, "data"@) == Some(
        plugin_data.data,
    )
}

/// A document that can be read as the `error` member of an error reply: a
/// `code` that fits 16 bits and a `reason`.
pub open spec fn error_ok(e: serde_json::Value) -> bool {
    &&& unsigned_field(e, "code"@) matches Some(code) && code <= u16::MAX
    &&& text_field(e, "reason"@) is Some
}

/// The error a document stands for.
pub open spec fn error_decodes(e: serde_json::Value, error: ErrorResponse) -> bool {
    unsigned_field(e, "code"@) == Some(error.code as u64) && text_field(e, "reason"@) == Some(
        error.reason@,
    )
}

/// A reply that can be read as the server's description: the six scalar
/// members and the three registries are all there.
pub open spec fn server_info_ok(v: serde_json::Value) -> bool {
    &&& text_field(v, "name"@) is Some
    &&& unsigned_field(v, "version"@) is Some
    &&& text_field(v, "version_string"@) is Some
    &&& text_field(v, "author"@) is Some
    &&& text_field(v, "commit-hash"@) is Some
    &&& text_field(v, "compile-time"@) is Some
    &&& field(v, "plugins"@) is Some
    &&& field(v, "transports"@) is Some
    &&& field(v, "events"@) is Some
}

/// The server's description a reply stands for.
pub open spec fn server_info_decodes(v: serde_json::Value, info: ServerInfoRsp) -> bool {
    &&& text_field(v, "name"@) == Some(info.name@)
    &&& unsigned_field(v, "version"@) == Some(info.version)
    &&& text_field(v, "version_string"@) == Some(info.version_string@)
    &&& text_field(v, "author"@) == Some(info.author@)
    &&& text_field(v, "commit-hash"@) == Some(info.commit_hash@)
    &&& text_field(v, "compile-time"@) == Some(info.compile_time@)
    &&& field(v, "plugins"@) == Some(info.plugins)
    &&& field(v, "transports"@) == Some(info.transports)
    &&& field(v, "events"@) == Some(info.events)
}

/// What the kind of a reply requires of the document beside the members
/// every reply may have.
pub open spec fn kind_ok(v: serde_json::Value, kind: Kind) -> bool {
    match kind {
        Kind::Success => match field(v, "plugindata"@) {
            Some(p) => plugin_data_ok(p),
            None => field(v, "data"@) matches Some(d) && unsigned_field(d, "id"@) is Some,
        },
        Kind::Error => field(v, "error"@) matches Some(e) && error_ok(e),
        Kind::Event => field(v, "plugindata"@) matches Some(p) ==> plugin_data_ok(p),
        Kind::ServerInfo => server_info_ok(v),
        _ => true,
    }
}

/// The discriminant a document stands for, given its kind.
pub open spec fn kind_decodes(v: serde_json::Value, kind: Kind, janus: ResponseType) -> bool {
    &&& kind_of(janus) == kind
    &&& match janus {
        ResponseType::Success(JaSuccessProtocol::Plugin { plugin_data }) => field(
            v,
            "plugindata"@,
        ) matches Some(p) && plugin_data_decodes(p, plugin_data),
        ResponseType::Success(JaSuccessProtocol::Data { data }) => field(v, "plugindata"@) is None
            && (field(v, "data"@) matches Some(d) && unsigned_field(d, "id"@) == Some(data.id)),
        ResponseType::Error { error } => field(v, "error"@) matches Some(e) && error_decodes(
            e,
            error,
        ),
        ResponseType::Event { plugin_data } => match field(v, "plugindata"@) {
            Some(p) => plugin_data matches Some(d) && plugin_data_decodes(p, d),
            None => plugin_data is None,
        },
        ResponseType::ServerInfo(info) => server_info_decodes(v, info),
        _ => true,
    }
}

/// The establishment payload a document stands for: the session
/// description under `jsep` if there is one, else what lies under `rtp`.
pub open spec fn establishment_decodes(
    v: serde_json::Value,
    protocol: Option<EstablishmentProtocol>,
) -> bool {
    match field(v, "jsep"@) {
        Some(j) => protocol matches Some(EstablishmentProtocol::JSEP(jsep)) && jsep_decodes(
            j,
            jsep,
        ),
        None => match field(v, "rtp"@) {
            Some(rtp) => protocol == Some(EstablishmentProtocol::RTP(rtp)),
            None => protocol is None,
        },
    }
}

/// A document that can be read as a reply.
pub open spec fn decodable(v: serde_json::Value) -> bool {
    &&& text_field(v, "janus"@) matches Some(name) && kind_of_name(name) matches Some(kind)
        && kind_ok(v, kind)
    &&& text_field_ok(v, "transaction"@)
    &&& unsigned_field_ok(v, "session_id"@)
    &&& unsigned_field_ok(v, "sender"@)
    &&& field(v, "jsep"@) matches Some(j) ==> jsep_ok(j)
}

/// The reply a document stands for.
pub open spec fn decodes_to(v: serde_json::Value, rsp: JaResponse) -> bool {
    &&& text_field(v, "janus"@) matches Some(name) && kind_of_name(name) matches Some(kind)
        && kind_decodes(v, kind, rsp.janus)
    &&& text_field(v, "transaction"@) == text_view(rsp.transaction)
    &&& unsigned_field(v, "session_id"@) == rsp.session_id
    &&& unsigned_field(v, "sender"@) == rsp.sender
    &&& establishment_decodes(v, rsp.establishment_protocol)
}

fn same_text(a: &str, b: &str) -> (r: bool)
    ensures
        r == (a@ == b@),
{
    String::from_str(a) == String::from_str(b)
}

fn find<'a>(v: &'a serde_json::Value, key: &str) -> (r: Option<&'a serde_json::Value>)
    ensures
        r is Some == field(*v, key@) is Some,
        r matches Some(m) ==> field(*v, key@) == Some(*m),
{
    member(v, key)
}

fn optional_text(v: &serde_json::Value, key: &str) -> (r: Result<Option<String>, JaError>)
    ensures
        r is Ok <==> text_field_ok(*v, key@),
        r matches Ok(text) ==> text_view(text) == text_field(*v, key@),
        r matches Err(e) ==> e is IncompletePacket,
{
    match find(v, key) {
        None => Ok(None),
        Some(m) => match text_of(m) {
            Some(text) => Ok(Some(String::from_str(text))),
            None => Err(JaError::IncompletePacket),
        },
    }
}

fn optional_unsigned(v: &serde_json::Value, key: &str) -> (r: Result<Option<u64>, JaError>)
    ensures
        r is Ok <==> unsigned_field_ok(*v, key@),
        r matches Ok(n) ==> n == unsigned_field(*v, key@),
        r matches Err(e) ==> e is IncompletePacket,
{
    match find(v, key) {
        None => Ok(None),
        Some(m) => match unsigned_of(m) {
            Some(n) => Ok(Some(n)),
            None => Err(JaError::IncompletePacket),
        },
    }
}

fn optional_flag(v: &serde_json::Value, key: &str) -> (r: Result<Option<bool>, JaError>)
    ensures
        r is Ok <==> flag_field_ok(*v, key@),
        r matches Ok(b) ==> b == flag_field(*v, key@),
        r matches Err(e) ==> e is IncompletePacket,
{
    match find(v, key) {
        None => Ok(None),
        Some(m) => match flag_of(m) {
            Some(b) => Ok(Some(b)),
            None => Err(JaError::IncompletePacket),
        },
    }
}

fn required_text(v: &serde_json::Value, key: &str) -> (r: Result<String, JaError>)
    ensures
        r is Ok <==> text_field(*v, key@) is Some,
        r matches Ok(text) ==> Some(text@) == text_field(*v, key@),
        r matches Err(e) ==> e is IncompletePacket,
{
    match find(v, key) {
        None => Err(JaError::IncompletePacket),
        Some(m) => match text_of(m) {
            Some(text) => Ok(String::from_str(text)),
            None => Err(JaError::IncompletePacket),
        },
    }
}

fn required_unsigned(v: &serde_json::Value, key: &str) -> (r: Result<u64, JaError>)
    ensures
        r is Ok <==> unsigned_field(*v, key@) is Some,
        r matches Ok(n) ==> Some(n) == unsigned_field(*v, key@),
        r matches Err(e) ==> e is IncompletePacket,
{
    match find(v, key) {
        None => Err(JaError::IncompletePacket),
        Some(m) => match unsigned_of(m) {
            Some(n) => Ok(n),
            None => Err(JaError::IncompletePacket),
        },
    }
}

fn required_value(v: &serde_json::Value, key: &str) -> (r: Result<serde_json::Value, JaError>)
    ensures
        r is Ok <==> field(*v, key@) is Some,
        r matches Ok(m) ==> Some(m) == field(*v, key@),
        r matches Err(e) ==> e is IncompletePacket,
{
    match find(v, key) {
        None => Err(JaError::IncompletePacket),
        Some(m) => Ok(clone_value(m)),
    }
}

/// The kind a name stands for, if it stands for one.
pub fn kind_from_name(name: &str) -> (r: Option<Kind>)
    ensures
        r == kind_of_name(name@),
{
    if same_text(name, "ack") {
        Some(Kind::Ack)
    } else if same_text(name, "success") {
        Some(Kind::Success)
    } else if same_text(name, "error") {
        Some(Kind::Error)
    } else if same_text(name, "event") {
        Some(Kind::Event)
    } else if same_text(name, "server_info") {
        Some(Kind::ServerInfo)
    } else if same_text(name, "detached") {
        Some(Kind::Detached)
    } else if same_text(name, "webrtcup") {
        Some(Kind::WebRTCUp)
    } else if same_text(name, "media") {
        Some(Kind::Media)
    } else if same_text(name, "slowlink") {
        Some(Kind::SlowLink)
    } else if same_text(name, "hangup") {
        Some(Kind::HangUp)
    } else if same_text(name, "trickle") {
        Some(Kind::Trickle)
    } else if same_text(name, "timeout") {
        Some(Kind::Timeout)
    } else if same_text(name, "keepalive") {
        Some(Kind::Keepalive)
    } else {
        None
    }
}

/// The kind of session description a name stands for, if it stands for
/// one.
pub fn jsep_type_from_name(name: &str) -> (r: Option<JsepType>)
    ensures
        r == jsep_type_of_name(name@),
{
    if same_text(name, "offer") {
        Some(JsepType::Offer)
    } else if same_text(name, "answer") {
        Some(JsepType::Answer)
    } else if same_text(name, "pranswer") {
        Some(JsepType::Pranswer)
    } else if same_text(name, "rollback") {
        Some(JsepType::Rollback)
    } else {
        None
    }
}

/// Reads a session description out of a document.
pub fn decode_jsep(j: &serde_json::Value) -> (r: Result<Jsep, JaError>)
    ensures
        r is Ok <==> jsep_ok(*j),
        r matches Ok(jsep) ==> jsep_decodes(*j, jsep),
        r matches Err(e) ==> e is IncompletePacket,
{
    let name = match required_text(j, "type") {
        Ok(name) => name,
        Err(e) => {
            return Err(e);
        },
    };
    let jsep_type = match jsep_type_from_name(name.as_str()) {
        Some(jsep_type) => jsep_type,
        None => {
            return Err(JaError::IncompletePacket);
        },
    };
    let sdp = match required_text(j, "sdp") {
        Ok(sdp) => sdp,
        Err(e) => {
            return Err(e);
        },
    };
    let trickle = match optional_flag(j, "trickle") {
        Ok(trickle) => trickle,
        Err(e) => {
            return Err(e);
        },
    };
    Ok(Jsep { jsep_type, sdp, trickle })
}

fn decode_plugin_data(p: &serde_json::Value) -> (r: Result<PluginData, JaError>)
    ensures
        r is Ok <==> plugin_data_ok(*p),
        r matches Ok(plugin_data) ==> plugin_data_decodes(*p, plugin_data),
        r matches Err(e) ==> e is IncompletePacket,
{
    let plugin = match required_text(p, "plugin") {
        Ok(plugin) => plugin,
        Err(e) => {
            return Err(e);
        },
    };
    let data = match required_value(p, "data") {
        Ok(data) => data,
        Err(e) => {
            return Err(e);
        },
    };
    Ok(PluginData { plugin, data })
}

fn decode_error(e: &serde_json::Value) -> (r: Result<ErrorResponse, JaError>)
    ensures
        r is Ok <==> error_ok(*e),
        r matches Ok(error) ==> error_decodes(*e, error),
        r matches Err(e) ==> e is IncompletePacket,
{
    let code = match required_unsigned(e, "code") {
        Ok(code) => code,
        Err(e) => {
            return Err(e);
        },
    };
    if code > 0xffff {
        return Err(JaError::IncompletePacket);
    }
    let reason = match required_text(e, "reason") {
        Ok(reason) => reason,
        Err(e) => {
            return Err(e);
        },
    };
    Ok(ErrorResponse { code: code as u16, reason })
}

fn decode_server_info(v: &serde_json::Value) -> (r: Result<ServerInfoRsp, JaError>)
    ensures
        r is Ok <==> server_info_ok(*v),
        r matches Ok(info) ==> server_info_decodes(*v, info),
        r matches Err(e) ==> e is IncompletePacket,
{
    let name = match required_text(v, "name") {
        Ok(x) => x,
        Err(e) => {
            return Err(e);
        },
    };
    let version = match required_unsigned(v, "version") {
        Ok(x) => x,
        Err(e) => {
            return Err(e);
        },
    };
    let version_string = match required_text(v, "version_string") {
        Ok(x) => x,
        Err(e) => {
            return Err(e);
        },
    };
    let author = match required_text(v, "author") {
        Ok(x) => x,
        Err(e) => {
            return Err(e);
        },
    };
    let commit_hash = match required_text(v, "commit-hash") {
        Ok(x) => x,
        Err(e) => {
            return Err(e);
        },
    };
    let compile_time = match required_text(v, "compile-time") {
        Ok(x) => x,
        Err(e) => {
            return Err(e);
        },
    };
    let plugins = match required_value(v, "plugins") {
        Ok(x) => x,
        Err(e) => {
            return Err(e);
        },
    };
    let transports = match required_value(v, "transports") {
        Ok(x) => x,
        Err(e) => {
            return Err(e);
        },
    };
    let events = match required_value(v, "events") {
        Ok(x) => x,
        Err(e) => {
            return Err(e);
        },
    };
    Ok(
        ServerInfoRsp {
            name,
            version,
            version_string,
            author,
            commit_hash,
            compile_time,
            plugins,
            transports,
            events,
        },
    )
}

fn decode_kind(v: &serde_json::Value, kind: Kind) -> (r: Result<ResponseType, JaError>)
    ensures
        r is Ok <==> kind_ok(*v, kind),
        r matches Ok(janus) ==> kind_decodes(*v, kind, janus),
        r matches Err(e) ==> e is IncompletePacket,
{
    match kind {
        Kind::Ack => Ok(ResponseType::Ack),
        Kind::Success => match find(v, "plugindata") {
            Some(p) => match decode_plugin_data(p) {
                Ok(plugin_data) => Ok(
                    ResponseType::Success(JaSuccessProtocol::Plugin { plugin_data }),
                ),
                Err(e) => Err(e),
            },
            None => match find(v, "data") {
                Some(d) => match required_unsigned(d, "id") {
                    Ok(id) => Ok(
                        ResponseType::Success(JaSuccessProtocol::Data { data: JaData { id } }),
                    ),
                    Err(e) => Err(e),
                },
                None => Err(JaError::IncompletePacket),
            },
        },
        Kind::Error => match find(v, "error") {
            Some(e) => match decode_error(e) {
                Ok(error) => Ok(ResponseType::Error { error }),
                Err(e) => Err(e),
            },
            None => Err(JaError::IncompletePacket),
        },
        Kind::Event => match find(v, "plugindata") {
            Some(p) => match decode_plugin_data(p) {
                Ok(plugin_data) => Ok(ResponseType::Event { plugin_data: Some(plugin_data) }),
                Err(e) => Err(e),
            },
            None => Ok(ResponseType::Event { plugin_data: None }),
        },
        Kind::ServerInfo => match decode_server_info(v) {
            Ok(info) => Ok(ResponseType::ServerInfo(info)),
            Err(e) => Err(e),
        },
        Kind::Detached => Ok(ResponseType::Detached),
        Kind::WebRTCUp => Ok(ResponseType::WebRTCUp),
        Kind::Media => Ok(ResponseType::Media),
        Kind::SlowLink => Ok(ResponseType::SlowLink),
        Kind::HangUp => Ok(ResponseType::HangUp),
        Kind::Trickle => Ok(ResponseType::Trickle),
        Kind::Timeout => Ok(ResponseType::Timeout),
        Kind::Keepalive => Ok(ResponseType::Keepalive),
    }
}

fn decode_establishment(v: &serde_json::Value) -> (r: Result<
    Option<EstablishmentProtocol>,
    JaError,
>)
    ensures
        r is Ok <==> (field(*v, "jsep"@) matches Some(j) ==> jsep_ok(j)),
        r matches Ok(protocol) ==> establishment_decodes(*v, protocol),
        r matches Err(e) ==> e is IncompletePacket,
{
    match find(v, "jsep") {
        Some(j) => match decode_jsep(j) {
            Ok(jsep) => Ok(Some(EstablishmentProtocol::JSEP(jsep))),
            Err(e) => Err(e),
        },
        None => match find(v, "rtp") {
            Some(rtp) => Ok(Some(EstablishmentProtocol::RTP(clone_value(rtp)))),
            None => Ok(None),
        },
    }
}

/// Reads a reply out of a document. It succeeds on exactly the documents
/// that can be read as a reply; every other document is an incomplete
/// packet.
pub fn decode(v: &serde_json::Value) -> (r: Result<JaResponse, JaError>)
    ensures
        r is Ok <==> decodable(*v),
        r matches Ok(rsp) ==> decodes_to(*v, rsp),
        r matches Err(e) ==> e is IncompletePacket,
{
    let name = match required_text(v, "janus") {
        Ok(name) => name,
        Err(e) => {
            return Err(e);
        },
    };
    let kind = match kind_from_name(name.as_str()) {
        Some(kind) => kind,
        None => {
            return Err(JaError::IncompletePacket);
        },
    };
    let janus = match decode_kind(v, kind) {
        Ok(janus) => janus,
        Err(e) => {
            return Err(e);
        },
    };
    let transaction = match optional_text(v, "transaction") {
        Ok(transaction) => transaction,
        Err(e) => {
            return Err(e);
        },
    };
    let session_id = match optional_unsigned(v, "session_id") {
        Ok(session_id) => session_id,
        Err(e) => {
            return Err(e);
        },
    };
    let sender = match optional_unsigned(v, "sender") {
        Ok(sender) => sender,
        Err(e) => {
            return Err(e);
        },
    };
    let establishment_protocol = match decode_establishment(v) {
        Ok(protocol) => protocol,
        Err(e) => {
            return Err(e);
        },
    };
    Ok(JaResponse { janus, transaction, session_id, sender, establishment_protocol })
}

/// The marks of the member names of a reply, by which the names differ
/// from one another.
pub proof fn lemma_reply_keys()
    ensures
        mark("janus"@) == (5nat, 'j', 's'),
        mark("transaction"@) == (11nat, 't', 'n'),
        mark("session_id"@) == (10nat, 's', 'd'),
        mark("sender"@) == (6nat, 's', 'r'),
        mark("jsep"@) == (4nat, 'j', 'p'),
        mark("rtp"@) == (3nat, 'r', 'p'),
        mark("plugindata"@) == (10nat, 'p', 'a'),
        mark("error"@) == (5nat, 'e', 'r'),
        mark("data"@) == (4nat, 'd', 'a'),
        mark("name"@) == (4nat, 'n', 'e'),
        mark("version"@) == (7nat, 'v', 'n'),
        mark("version_string"@) == (14nat, 'v', 'g'),
        mark("author"@) == (6nat, 'a', 'r'),
        mark("commit-hash"@) == (11nat, 'c', 'h'),
        mark("compile-time"@) == (12nat, 'c', 'e'),
        mark("plugins"@) == (7nat, 'p', 's'),
        mark("transports"@) == (10nat, 't', 's'),
        mark("events"@) == (6nat, 'e', 's'),
{
    reveal_strlit("janus");
    reveal_strlit("transaction");
    reveal_strlit("session_id");
    reveal_strlit("sender");
    reveal_strlit("jsep");
    reveal_strlit("rtp");
    reveal_strlit("plugindata");
    reveal_strlit("error");
    reveal_strlit("data");
    reveal_strlit("name");
    reveal_strlit("version");
    reveal_strlit("version_string");
    reveal_strlit("author");
    reveal_strlit("commit-hash");
    reveal_strlit("compile-time");
    reveal_strlit("plugins");
    reveal_strlit("transports");
    reveal_strlit("events");
}

/// The marks of the member names of the nested objects of a reply.
pub proof fn lemma_nested_keys()
    ensures
        mark("plugin"@) == (6nat, 'p', 'n'),
        mark("data"@) == (4nat, 'd', 'a'),
        mark("code"@) == (4nat, 'c', 'e'),
        mark("reason"@) == (6nat, 'r', 'n'),
{
    reveal_strlit("plugin");
    reveal_strlit("data");
    reveal_strlit("code");
    reveal_strlit("reason");
}

/// The name of a kind of reply.
pub open spec fn kind_text(kind: Kind) -> Seq<char> {
    match kind {
        Kind::Ack => "ack"@,
        Kind::Success => "success"@,
        Kind::Error => "error"@,
        Kind::Event => "event"@,
        Kind::ServerInfo => "server_info"@,
        Kind::Detached => "detached"@,
        Kind::WebRTCUp => "webrtcup"@,
        Kind::Media => "media"@,
        Kind::SlowLink => "slowlink"@,
        Kind::HangUp => "hangup"@,
        Kind::Trickle => "trickle"@,
        Kind::Timeout => "timeout"@,
        Kind::Keepalive => "keepalive"@,
    }
}

/// Every kind is the kind its name stands for.
pub proof fn lemma_kind_names(kind: Kind)
    ensures
        kind_of_name(kind_text(kind)) == Some(kind),
{
    reveal_strlit("ack");
    reveal_strlit("success");
    reveal_strlit("error");
    reveal_strlit("event");
    reveal_strlit("server_info");
    reveal_strlit("detached");
    reveal_strlit("webrtcup");
    reveal_strlit("media");
    reveal_strlit("slowlink");
    reveal_strlit("hangup");
    reveal_strlit("trickle");
    reveal_strlit("timeout");
    reveal_strlit("keepalive");
    assert(mark("ack"@) == (3nat, 'a', 'k'));
    assert(mark("success"@) == (7nat, 's', 's'));
    assert(mark("error"@) == (5nat, 'e', 'r'));
    assert(mark("event"@) == (5nat, 'e', 't'));
    assert(mark("server_info"@) == (11nat, 's', 'o'));
    assert(mark("detached"@) == (8nat, 'd', 'd'));
    assert(mark("webrtcup"@) == (8nat, 'w', 'p'));
    assert(mark("media"@) == (5nat, 'm', 'a'));
    assert(mark("slowlink"@) == (8nat, 's', 'k'));
    assert(mark("hangup"@) == (6nat, 'h', 'p'));
    assert(mark("trickle"@) == (7nat, 't', 'e'));
    assert(mark("timeout"@) == (7nat, 't', 't'));
    assert(mark("keepalive"@) == (9nat, 'k', 'e'));
}

/// Every kind of session description is the kind its name stands for.
pub proof fn lemma_jsep_type_names(jsep_type: JsepType)
    ensures
        jsep_type_of_name(jsep_type_text(jsep_type)) == Some(jsep_type),
{
    reveal_strlit("offer");
    reveal_strlit("answer");
    reveal_strlit("pranswer");
    reveal_strlit("rollback");
    assert(mark("offer"@) == (5nat, 'o', 'r'));
    assert(mark("answer"@) == (6nat, 'a', 'r'));
    assert(mark("pranswer"@) == (8nat, 'p', 'r'));
    assert(mark("rollback"@) == (8nat, 'r', 'k'));
}

/// The name of a kind of reply.
pub fn kind_name(kind: Kind) -> (r: &'static str)
    ensures
        r@ == kind_text(kind),
{
    match kind {
        Kind::Ack => "ack",
        Kind::Success => "success",
        Kind::Error => "error",
        Kind::Event => "event",
        Kind::ServerInfo => "server_info",
        Kind::Detached => "detached",
        Kind::WebRTCUp => "webrtcup",
        Kind::Media => "media",
        Kind::SlowLink => "slowlink",
        Kind::HangUp => "hangup",
        Kind::Trickle => "trickle",
        Kind::Timeout => "timeout",
        Kind::Keepalive => "keepalive",
    }
}

/// The kind of a reply.
pub fn kind(janus: &ResponseType) -> (r: Kind)
    ensures
        r == kind_of(*janus),
{
    match janus {
        ResponseType::Ack => Kind::Ack,
        ResponseType::Success(_) => Kind::Success,
        ResponseType::Error { .. } => Kind::Error,
        ResponseType::Event { .. } => Kind::Event,
        ResponseType::ServerInfo(_) => Kind::ServerInfo,
        ResponseType::Detached => Kind::Detached,
        ResponseType::WebRTCUp => Kind::WebRTCUp,
        ResponseType::Media => Kind::Media,
        ResponseType::SlowLink => Kind::SlowLink,
        ResponseType::HangUp => Kind::HangUp,
        ResponseType::Trickle => Kind::Trickle,
        ResponseType::Timeout => Kind::Timeout,
        ResponseType::Keepalive => Kind::Keepalive,
    }
}

fn empty_object() -> (r: serde_json::Value)
    ensures
        json_is_object(r),
        forall|k: Seq<char>| (#[trigger] field(r, k)) is None,
{
    new_object()
}

/// Writes a session description as a document that reads back as the
/// same description.
pub fn encode_jsep(jsep: &Jsep) -> (r: serde_json::Value)
    ensures
        jsep_ok(r),
        jsep_decodes(r, *jsep),
{
    let r = jsep_value(jsep);
    proof {
        lemma_jsep_keys();
        lemma_jsep_type_names(jsep.jsep_type);
    }
    r
}

fn encode_plugin_data(plugin_data: &PluginData) -> (r: serde_json::Value)
    ensures
        plugin_data_ok(r),
        plugin_data_decodes(r, *plugin_data),
{
    proof {
        lemma_nested_keys();
    }
    let mut object = empty_object();
    set_text(&mut object, "plugin", plugin_data.plugin.as_str());
    set_value(&mut object, "data", clone_value(&plugin_data.data));
    object
}

fn encode_error(error: &ErrorResponse) -> (r: serde_json::Value)
    ensures
        error_ok(r),
        error_decodes(r, *error),
{
    proof {
        lemma_nested_keys();
    }
    let mut object = empty_object();
    set_unsigned(&mut object, "code", error.code as u64);
    set_text(&mut object, "reason", error.reason.as_str());
    object
}

fn encode_data(data: &JaData) -> (r: serde_json::Value)
    ensures
        unsigned_field(r, "id"@) == Some(data.id),
{
    let mut object = empty_object();
    set_unsigned(&mut object, "id", data.id);
    object
}

/// The members a reply has whatever its kind: what `janus` names, and the
/// optional `transaction`, `session_id`, `sender` and establishment
/// payload.
pub open spec fn envelope_decodes(v: serde_json::Value, rsp: JaResponse) -> bool {
    &&& json_is_object(v)
    &&& text_field(v, "janus"@) == Some(kind_text(kind_of(rsp.janus)))
    &&& text_field(v, "transaction"@) == text_view(rsp.transaction)
    &&& text_field_ok(v, "transaction"@)
    &&& unsigned_field(v, "session_id"@) == rsp.session_id
    &&& unsigned_field_ok(v, "session_id"@)
    &&& unsigned_field(v, "sender"@) == rsp.sender
    &&& unsigned_field_ok(v, "sender"@)
    &&& establishment_decodes(v, rsp.establishment_protocol)
    &&& field(v, "jsep"@) matches Some(j) ==> jsep_ok(j)
    &&& field(v, "plugindata"@) is None
    &&& field(v, "error"@) is None
    &&& field(v, "data"@) is None
}

fn encode_envelope(rsp: &JaResponse) -> (r: serde_json::Value)
    ensures
        envelope_decodes(r, *rsp),
{
    proof {
        lemma_reply_keys();
    }
    let mut object = empty_object();
    set_text(&mut object, "janus", kind_name(kind(&rsp.janus)));
    match &rsp.transaction {
        Some(transaction) => {
            set_text(&mut object, "transaction", transaction.as_str());
        },
        None => {},
    }
    match rsp.session_id {
        Some(session_id) => {
            set_unsigned(&mut object, "session_id", session_id);
        },
        None => {},
    }
    match rsp.sender {
        Some(sender) => {
            set_unsigned(&mut object, "sender", sender);
        },
        None => {},
    }
    match &rsp.establishment_protocol {
        Some(EstablishmentProtocol::JSEP(jsep)) => {
            set_value(&mut object, "jsep", encode_jsep(jsep));
        },
        Some(EstablishmentProtocol::RTP(rtp)) => {
            set_value(&mut object, "rtp", clone_value(rtp));
        },
        None => {},
    }
    object
}

fn encode_server_info(object: &mut serde_json::Value, info: &ServerInfoRsp)
    requires
        json_is_object(*old(object)),
    ensures
        json_is_object(*final(object)),
        server_info_ok(*final(object)),
        server_info_decodes(*final(object), *info),
        forall|k: Seq<char>|
            k != "name"@ && k != "version"@ && k != "version_string"@ && k != "author"@ && k
                != "commit-hash"@ && k != "compile-time"@ && k != "plugins"@ && k != "transports"@
                && k != "events"@ ==> #[trigger] field(*final(object), k) == field(
                *old(object),
                k,
            ),
{
    proof {
        lemma_reply_keys();
    }
    set_text(object, "name", info.name.as_str());
    set_unsigned(object, "version", info.version);
    set_text(object, "version_string", info.version_string.as_str());
    set_text(object, "author", info.author.as_str());
    set_text(object, "commit-hash", info.commit_hash.as_str());
    set_text(object, "compile-time", info.compile_time.as_str());
    set_value(object, "plugins", clone_value(&info.plugins));
    set_value(object, "transports", clone_value(&info.transports));
    set_value(object, "events", clone_value(&info.events));
}

/// Writes a reply as a document. The document can be read as a reply, and
/// what it reads as is the reply it was written from.
pub fn encode(rsp: &JaResponse) -> (r: serde_json::Value)
    ensures
        decodable(r),
        decodes_to(r, *rsp),
{
    proof {
        lemma_reply_keys();
        lemma_kind_names(kind_of(rsp.janus));
    }
    let mut object = encode_envelope(rsp);
    match &rsp.janus {
        ResponseType::Success(JaSuccessProtocol::Plugin { plugin_data }) => {
            set_value(&mut object, "plugindata", encode_plugin_data(plugin_data));
        },
        ResponseType::Success(JaSuccessProtocol::Data { data }) => {
            set_value(&mut object, "data", encode_data(data));
        },
        ResponseType::Error { error } => {
            set_value(&mut object, "error", encode_error(error));
        },
        ResponseType::Event { plugin_data: Some(plugin_data) } => {
            set_value(&mut object, "plugindata", encode_plugin_data(plugin_data));
        },
        ResponseType::ServerInfo(info) => {
            encode_server_info(&mut object, info);
        },
        _ => {},
    }
    object
}

/// Two texts agree where both are absent or both read the same.
pub open spec fn agree_text(a: Option<String>, b: Option<String>) -> bool {
    text_view(a) == text_view(b)
}

/// Two plugin payloads agree where the plugin reads the same and the data
/// are the same document.
pub open spec fn agree_plugin_data(a: PluginData, b: PluginData) -> bool {
    a.plugin@ == b.plugin@ && a.data == b.data
}

/// Two discriminants agree where they are of one kind and hold the same.
pub open spec fn agree_kind(a: ResponseType, b: ResponseType) -> bool {
    &&& kind_of(a) == kind_of(b)
    &&& match (a, b) {
        (
            ResponseType::Success(JaSuccessProtocol::Plugin { plugin_data: x }),
            ResponseType::Success(JaSuccessProtocol::Plugin { plugin_data: y }),
        ) => agree_plugin_data(x, y),
        (
            ResponseType::Success(JaSuccessProtocol::Data { data: x }),
            ResponseType::Success(JaSuccessProtocol::Data { data: y }),
        ) => x.id == y.id,
        (ResponseType::Success(_), ResponseType::Success(_)) => false,
        (ResponseType::Error { error: x }, ResponseType::Error { error: y }) => x.code == y.code
            && x.reason@ == y.reason@,
        (ResponseType::Event { plugin_data: x }, ResponseType::Event { plugin_data: y }) => match (
            x,
            y,
        ) {
            (Some(p), Some(q)) => agree_plugin_data(p, q),
            (None, None) => true,
            _ => false,
        },
        (ResponseType::ServerInfo(x), ResponseType::ServerInfo(y)) => x.name@ == y.name@
            && x.version == y.version && x.version_string@ == y.version_string@ && x.author@
            == y.author@ && x.commit_hash@ == y.commit_hash@ && x.compile_time@
            == y.compile_time@ && x.plugins == y.plugins && x.transports == y.transports
            && x.events == y.events,
        _ => true,
    }
}

/// Two establishment payloads agree where both are absent or both hold
/// the same.
pub open spec fn agree_establishment(
    a: Option<EstablishmentProtocol>,
    b: Option<EstablishmentProtocol>,
) -> bool {
    match (a, b) {
        (Some(EstablishmentProtocol::JSEP(x)), Some(EstablishmentProtocol::JSEP(y))) => x.jsep_type
            == y.jsep_type && x.sdp@ == y.sdp@ && x.trickle == y.trickle,
        (Some(EstablishmentProtocol::RTP(x)), Some(EstablishmentProtocol::RTP(y))) => x == y,
        (None, None) => true,
        _ => false,
    }
}

/// Two replies agree where they are equal in every field: same kind, same
/// ids, texts that read the same, and the same opaque documents.
pub open spec fn agree(a: JaResponse, b: JaResponse) -> bool {
    &&& agree_kind(a.janus, b.janus)
    &&& agree_text(a.transaction, b.transaction)
    &&& a.session_id == b.session_id
    &&& a.sender == b.sender
    &&& agree_establishment(a.establishment_protocol, b.establishment_protocol)
}

/// Writing a reply and reading it back preserves every field: whatever a
/// document written from `rsp` reads as agrees with `rsp`.
pub proof fn lemma_round_trip(v: serde_json::Value, rsp: JaResponse, back: JaResponse)
    requires
        decodes_to(v, rsp),
        decodes_to(v, back),
    ensures
        agree(rsp, back),
{
}

/// The reply a text frame stands for, if it stands for one.
pub open spec fn frame_decodes(text: Seq<char>, r: Result<JaResponse, JaError>) -> bool {
    match json_parsed(text) {
        None => r matches Err(JaError::JsonParsingFailure(_)),
        Some(v) => match r {
            Ok(rsp) => decodable(v) && decodes_to(v, rsp),
            Err(e) => !decodable(v) && e is IncompletePacket,
        },
    }
}

/// What is left of parsing a frame once the parser has answered: its error
/// is handed on, and its document is read as a reply.
pub fn decode_parsed(parsed: Result<serde_json::Value, serde_json::Error>) -> (r: Result<
    JaResponse,
    JaError,
>)
    ensures
        match parsed {
            Err(cause) => r == Err::<JaResponse, JaError>(JaError::JsonParsingFailure(cause)),
            Ok(v) => match r {
                Ok(rsp) => decodable(v) && decodes_to(v, rsp),
                Err(e) => !decodable(v) && e is IncompletePacket,
            },
        },
{
    match parsed {
        Err(cause) => Err(JaError::from(cause)),
        Ok(v) => decode(&v),
    }
}

/// Reads a reply out of a text frame. A text that is no JSON is a parsing
/// failure; JSON that cannot be read as a reply is an incomplete packet.
pub fn decode_frame(text: &str) -> (r: Result<JaResponse, JaError>)
    ensures
        frame_decodes(text@, r),
{
    decode_parsed(parse(text))
}

/// The replies the elements of an array stand for, one for one.
pub open spec fn all_decode(items: Seq<serde_json::Value>, events: Seq<JaResponse>) -> bool {
    &&& events.len() == items.len()
    &&& forall|i: int| 0 <= i < items.len() ==> decodes_to(#[trigger] items[i], events[i])
}

/// Every element of an array can be read as a reply.
pub open spec fn all_decodable(items: Seq<serde_json::Value>) -> bool {
    forall|i: int| 0 <= i < items.len() ==> decodable(#[trigger] items[i])
}

/// Reads the events out of the array a long-poll returned, in their order.
/// It succeeds on exactly the arrays whose every element can be read as a
/// reply; anything else is an incomplete packet, and no event is handed
/// out.
pub fn decode_events(v: &serde_json::Value) -> (r: Result<Vec<JaResponse>, JaError>)
    ensures
        r is Ok <==> (json_elements(*v) matches Some(items) && all_decodable(items)),
        r matches Ok(events) ==> all_decode(json_elements(*v).unwrap(), events@),
        r matches Err(e) ==> e is IncompletePacket,
{
    let items = match elements(v) {
        Some(items) => items,
        None => {
            return Err(JaError::IncompletePacket);
        },
    };
    let mut events: Vec<JaResponse> = Vec::new();
    let mut i: usize = 0;
    while i < items.len()
        invariant
            i <= items.len(),
            json_elements(*v) == Some(items@),
            all_decodable(items@.subrange(0, i as int)),
            all_decode(items@.subrange(0, i as int), events@),
        decreases items.len() - i,
    {
        match decode(&items[i]) {
            Ok(rsp) => {
                events.push(rsp);
            },
            Err(e) => {
                return Err(e);
            },
        }
        i += 1;
    }
    assert(items@.subrange(0, i as int) =~= items@);
    Ok(events)
}

/// Reads the events out of the body of a long-poll reply.
pub fn decode_events_text(text: &str) -> (r: Result<Vec<JaResponse>, JaError>)
    ensures
        match json_parsed(text@) {
            None => r matches Err(JaError::JsonParsingFailure(_)),
            Some(v) => (r is Ok <==> (json_elements(v) matches Some(items) && all_decodable(
                items,
            ))) && (r matches Ok(events) ==> all_decode(json_elements(v).unwrap(), events@)) && (r
                matches Err(e) ==> e is IncompletePacket),
        },
{
    match parse(text) {
        Err(cause) => Err(JaError::from(cause)),
        Ok(v) => decode_events(&v),
    }
}

} // verus!
