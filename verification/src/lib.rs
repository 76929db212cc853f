//! Core of a sharded gateway client: the single-shard protocol state machine,
//! the reconnect/resume policy, heartbeat liveness, close-code interpretation,
//! and the small builders and id newtypes that surround it.
//!
//! All transport I/O (the WebSocket itself) lives outside this crate; the
//! library works on plain values and is verified with Verus.

pub mod builder;
pub mod codec;
pub mod constants;
pub mod digits;
pub mod error;
pub mod event;
pub mod id;
pub mod laws;
pub mod presence;
pub mod shard;
pub mod timestamp;
pub mod transport;
