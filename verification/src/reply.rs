//! What a reply means to the operation that waited for it.

use crate::error::JaTransportError;
use crate::japrotocol::{JaResponse, JaSuccessProtocol, ResponseType, ServerInfoRsp};
use vstd::prelude::*;

verus! {

/// The id a `create` or `attach` reply carries: a `success` with data gives
/// the id, an `error` gives the server's code and reason, anything else is
/// unexpected.
pub open spec fn created_id_of(response: JaResponse) -> Result<u64, JaTransportError> {
    match response.janus {
        ResponseType::Success(JaSuccessProtocol::Data { data }) => Ok(data.id),
        ResponseType::Error { error } => Err(
            JaTransportError::JanusError { code: error.code, reason: error.reason },
        ),
        _ => Err(JaTransportError::UnexpectedResponse),
    }
}

/// Reads the id of the new session or handle out of the reply to `create`
/// or `attach`.
pub fn created_id(response: JaResponse) -> (r: Result<u64, JaTransportError>)
    ensures
        r == created_id_of(response),
{
    match response.janus {
        ResponseType::Success(JaSuccessProtocol::Data { data }) => Ok(data.id),
        ResponseType::Error { error } => Err(
            JaTransportError::JanusError { code: error.code, reason: error.reason },
        ),
        _ => Err(JaTransportError::UnexpectedResponse),
    }
}

/// What a reply to the server-info request carries: the server's
/// description, the server's error, or too little.
pub open spec fn server_info_of(response: JaResponse) -> Result<ServerInfoRsp, JaTransportError> {
    match response.janus {
        ResponseType::ServerInfo(info) => Ok(info),
        ResponseType::Error { error } => Err(
            JaTransportError::JanusError { code: error.code, reason: error.reason },
        ),
        _ => Err(JaTransportError::IncompletePacket),
    }
}

/// Reads the server's description out of the reply to the server-info
/// request.
pub fn server_info(response: JaResponse) -> (r: Result<ServerInfoRsp, JaTransportError>)
    ensures
        r == server_info_of(response),
{
    match response.janus {
        ResponseType::ServerInfo(info) => Ok(info),
        ResponseType::Error { error } => Err(
            JaTransportError::JanusError { code: error.code, reason: error.reason },
        ),
        _ => Err(JaTransportError::IncompletePacket),
    }
}

/// Whether a reply carries exactly this transaction.
pub open spec fn answers(response: JaResponse, transaction: Seq<char>) -> bool {
    response.transaction matches Some(t) && t@ == transaction
}

/// Whether a reply is the server's refusal of the request behind this
/// transaction: an `error` that carries the transaction, or one that
/// carries none, as the server sends it where it could not read the
/// request.
pub open spec fn refuses(response: JaResponse, transaction: Seq<char>) -> bool {
    response.janus is Error && (response.transaction is None || answers(response, transaction))
}

/// The server's code and reason out of an `error` reply.
pub open spec fn janus_error_of(response: JaResponse) -> JaTransportError
    recommends
        response.janus is Error,
{
    JaTransportError::JanusError {
        code: response.janus->error.code,
        reason: response.janus->error.reason,
    }
}

/// What the first reply to a message means to a caller that waits for the
/// acknowledgement: the server's refusal gives its code and reason, any
/// other reply to another transaction or to none is unexpected, and
/// everything else is handed to the caller as it is.
pub open spec fn first_reply_of(response: JaResponse, transaction: Seq<char>) -> Result<
    JaResponse,
    JaTransportError,
> {
    if refuses(response, transaction) {
        Err(janus_error_of(response))
    } else if !answers(response, transaction) {
        Err(JaTransportError::UnexpectedResponse)
    } else {
        Ok(response)
    }
}

pub(crate) fn carries(response: &JaResponse, transaction: &String) -> (r: bool)
    ensures
        r == answers(*response, transaction@),
{
    match &response.transaction {
        Some(t) => *t == *transaction,
        None => false,
    }
}

/// Hands the first reply to a message to a caller that waits for the
/// acknowledgement. What it returns on success carries the caller's
/// transaction.
pub fn first_reply(response: JaResponse, transaction: &String) -> (r: Result<
    JaResponse,
    JaTransportError,
>)
    ensures
        r == first_reply_of(response, transaction@),
        r matches Ok(v) ==> answers(v, transaction@),
{
    let own = carries(&response, transaction);
    let unmarked = response.transaction.is_none();
    match response.janus {
        ResponseType::Error { error } => {
            if own || unmarked {
                Err(JaTransportError::JanusError { code: error.code, reason: error.reason })
            } else {
                Err(JaTransportError::UnexpectedResponse)
            }
        },
        _ => {
            if own {
                Ok(response)
            } else {
                Err(JaTransportError::UnexpectedResponse)
            }
        },
    }
}

/// What a reply to a message means to a caller that waits for the terminal
/// reply: the server's refusal gives its code and reason; any other reply
/// to another transaction or to none is unexpected; `None` while the reply
/// is not terminal, so that the caller keeps waiting; and a plugin
/// `success` or an `event` is handed to the caller as it is.
pub open spec fn terminal_reply_of(response: JaResponse, transaction: Seq<char>) -> Option<
    Result<JaResponse, JaTransportError>,
> {
    if refuses(response, transaction) {
        Some(Err(janus_error_of(response)))
    } else if !answers(response, transaction) {
        Some(Err(JaTransportError::UnexpectedResponse))
    } else if !response.janus.spec_is_terminal() {
        None
    } else {
        Some(Ok(response))
    }
}

/// Hands a reply to a message to a caller that waits for the terminal
/// reply. What it returns on success is terminal, never an `ack`, and
/// carries the caller's transaction.
pub fn terminal_reply(response: JaResponse, transaction: &String) -> (r: Option<
    Result<JaResponse, JaTransportError>,
>)
    ensures
        r == terminal_reply_of(response, transaction@),
        r matches Some(Ok(v)) ==> v.janus.spec_is_terminal() && !(v.janus is Ack) && answers(
            v,
            transaction@,
        ),
{
    if carries(&response, transaction) && !response.janus.is_terminal() {
        return None;
    }
    Some(first_reply(response, transaction))
}

} // verus!
