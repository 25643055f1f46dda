//! A multi-transport chat relay's voice-chat client: the length-prefixed,
//! type-tagged wire protocol (framing and the protobuf payload grammar), the
//! certificate-pinning rule, the client-side cache of server-pushed channel
//! and user state with partial-merge semantics, the bridge between bus
//! messages and wire frames, and the reconnect-tolerant connection
//! lifecycle. Sockets, timers and buses live outside; the library decides,
//! its caller performs.

use vstd::prelude::*;

pub mod bridge;
pub mod cert;
pub mod client;
pub mod codec;
pub mod config;
pub mod message;
pub mod messages;
pub mod parser;
pub mod parser_types;
pub mod proto;
pub mod slack_objects;
pub mod state;
pub mod text;

verus! {

/// Maximum size of one wire frame: an 8 MiB payload plus the 6-byte header.
pub const MAX_PAYLOAD: usize = 8388614;

} // verus!
