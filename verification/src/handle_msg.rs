//! What a handle asks its transport to send.

use crate::japrotocol::EstablishmentProtocol;
use std::time::Duration;
use vstd::prelude::*;

verus! {

/// A message to a plugin, sent without waiting for any reply.
#[derive(Debug)]
pub struct HandleMessage {
    pub session_id: u64,
    pub handle_id: u64,
    pub body: serde_json::Value,
}

/// A message to a plugin whose reply the caller waits for, up to a deadline.
#[derive(Debug)]
pub struct HandleMessageWithTimeout {
    pub session_id: u64,
    pub handle_id: u64,
    pub body: serde_json::Value,
    pub timeout: Duration,
}

/// A message to a plugin that carries an establishment payload.
#[derive(Debug)]
pub struct HandleMessageWithEstablishment {
    pub session_id: u64,
    pub handle_id: u64,
    pub body: serde_json::Value,
    pub protocol: EstablishmentProtocol,
}

/// A message to a plugin that carries an establishment payload and whose
/// reply the caller waits for, up to a deadline.
#[derive(Debug)]
pub struct HandleMessageWithEstablishmentAndTimeout {
    pub session_id: u64,
    pub handle_id: u64,
    pub body: serde_json::Value,
    pub protocol: EstablishmentProtocol,
    pub timeout: Duration,
}

} // verus!
