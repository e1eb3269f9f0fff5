//! What every transport is configured with.

use vstd::prelude::*;

verus! {

/// The path segment under which a server answers unless told otherwise.
pub const DEFAULT_NAMESPACE: &'static str = "janus";

/// The default bound of the response cache and of the transaction manager.
pub const DEFAULT_CAPACITY: usize = 32;

/// The WebSocket subprotocol a server speaks.
pub const WS_SUBPROTOCOL: &'static str = "janus-protocol";

/// How to reach a server.
#[derive(Debug)]
pub struct ConnectionParams {
    /// The address of the server.
    pub url: String,
    /// The secret the server expects in every request, if it expects one.
    pub apisecret: Option<String>,
    /// The path segment under which the server answers.
    pub namespace: String,
    /// The bound of the response cache and of the transaction manager.
    pub capacity: usize,
}

} // verus!
