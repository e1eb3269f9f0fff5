//! Core of a client for the Janus WebRTC signaling server.
//!
//! The crate holds the transport-independent logic of the client: the
//! protocol envelope, request construction, transaction correlation, the
//! bounded response cache, the event router and the decisions the two
//! transports (HTTP long-poll and WebSocket) take on each inbound reply.
//! Network I/O, timers and task management live outside of it and drive
//! these state machines with plain values.

pub mod codec;
pub mod demux;
pub mod error;
pub mod fifo;
pub mod handle_msg;
pub mod jaconnection;
pub mod janus_interface;
pub mod japrotocol;
pub mod json;
pub mod napmap;
pub mod reply;
pub mod request;
pub mod restful_interface;
pub mod router;
pub mod text;
pub mod tgenerator;
pub mod transaction_manager;
pub mod websocket_interface;
