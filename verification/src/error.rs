//! Error types of the client.

use vstd::prelude::*;

verus! {

/// `tungstenite::Error`, carried through unchanged.
#[verifier::external_type_specification]
#[verifier::external_body]
pub struct ExWebSocketError(tokio_tungstenite::tungstenite::Error);

/// `http::header::InvalidHeaderValue`, carried through unchanged.
#[verifier::external_type_specification]
#[verifier::external_body]
pub struct ExInvalidHeaderValue(tokio_tungstenite::tungstenite::http::header::InvalidHeaderValue);

/// `std::io::Error`, carried through unchanged.
#[verifier::external_type_specification]
#[verifier::external_body]
pub struct ExIoError(std::io::Error);

/// Errors surfaced by sessions and handles.
#[derive(Debug)]
pub enum JaError {
    /// The WebSocket layer failed.
    WebSocket(tokio_tungstenite::tungstenite::Error),
    /// A header value could not be built.
    InvalidHeaderValue(tokio_tungstenite::tungstenite::http::header::InvalidHeaderValue),
    /// A frame or body was not valid JSON.
    JsonParsingFailure(serde_json::Error),
    /// The operating system reported an I/O failure.
    IO(std::io::Error),
    /// A reply lacked a field the protocol requires.
    IncompletePacket,
    /// The transport was never opened or has been closed.
    TransportNotOpened,
    /// The session is not part of any connection.
    DanglingSession,
    /// The handle is not part of any session.
    DanglingHandle,
    /// The request is not a JSON object.
    InvalidJanusRequest,
    /// The event sink has been closed.
    SendError,
}

impl From<tokio_tungstenite::tungstenite::Error> for JaError {
    fn from(cause: tokio_tungstenite::tungstenite::Error) -> (r: JaError) {
        JaError::WebSocket(cause)
    }
}

impl vstd::std_specs::convert::FromSpecImpl<tokio_tungstenite::tungstenite::Error> for JaError {
    open spec fn obeys_from_spec() -> bool {
        true
    }

    /// A failure of the WebSocket layer becomes `WebSocket`.
    open spec fn from_spec(cause: tokio_tungstenite::tungstenite::Error) -> JaError {
        JaError::WebSocket(cause)
    }
}

impl From<tokio_tungstenite::tungstenite::http::header::InvalidHeaderValue> for JaError {
    fn from(cause: tokio_tungstenite::tungstenite::http::header::InvalidHeaderValue) -> (r: JaError) {
        JaError::InvalidHeaderValue(cause)
    }
}

impl vstd::std_specs::convert::FromSpecImpl<tokio_tungstenite::tungstenite::http::header::InvalidHeaderValue> for JaError {
    open spec fn obeys_from_spec() -> bool {
        true
    }

    /// A header value that could not be built becomes `InvalidHeaderValue`.
    open spec fn from_spec(cause: tokio_tungstenite::tungstenite::http::header::InvalidHeaderValue) -> JaError {
        JaError::InvalidHeaderValue(cause)
    }
}

impl From<serde_json::Error> for JaError {
    fn from(cause: serde_json::Error) -> (r: JaError) {
        JaError::JsonParsingFailure(cause)
    }
}

impl vstd::std_specs::convert::FromSpecImpl<serde_json::Error> for JaError {
    open spec fn obeys_from_spec() -> bool {
        true
    }

    /// A failure of the JSON parser becomes `JsonParsingFailure`.
    open spec fn from_spec(cause: serde_json::Error) -> JaError {
        JaError::JsonParsingFailure(cause)
    }
}

impl From<std::io::Error> for JaError {
    fn from(cause: std::io::Error) -> (r: JaError) {
        JaError::IO(cause)
    }
}

impl vstd::std_specs::convert::FromSpecImpl<std::io::Error> for JaError {
    open spec fn obeys_from_spec() -> bool {
        true
    }

    /// An I/O failure becomes `IO`.
    open spec fn from_spec(cause: std::io::Error) -> JaError {
        JaError::IO(cause)
    }
}

/// Errors surfaced by a transport operation.
#[derive(Debug, PartialEq)]
pub enum JaTransportError {
    /// The server answered with an error of its own.
    JanusError { code: u16, reason: String },
    /// The reply is well-formed but not one the operation expects.
    UnexpectedResponse,
    /// The reply lacks a part the operation needs.
    IncompletePacket,
    /// The caller's deadline elapsed before a reply arrived.
    Timeout,
    /// The transport was closed while the operation was in flight.
    TransportClosed,
}

impl Clone for JaTransportError {
    fn clone(&self) -> (r: Self)
        ensures
            r == *self,
    {
        match self {
            JaTransportError::JanusError { code, reason } => JaTransportError::JanusError {
                code: *code,
                reason: reason.clone(),
            },
            JaTransportError::UnexpectedResponse => JaTransportError::UnexpectedResponse,
            JaTransportError::IncompletePacket => JaTransportError::IncompletePacket,
            JaTransportError::Timeout => JaTransportError::Timeout,
            JaTransportError::TransportClosed => JaTransportError::TransportClosed,
        }
    }
}

} // verus!
