//! Decoded inbound gateway frames and the actions the protocol engine hands
//! back to its runner.

use vstd::prelude::*;
use crate::id::{ApplicationId, UserId, GuildId};

verus! {

/// The payload of a close frame surfaced by the transport.
#[derive(Clone, Debug, Eq, PartialEq)]
pub struct CloseFrame {
    pub code: u16,
    pub reason: String,
}

/// A named event carried by an op-0 dispatch, decoded to the parts the shard
/// core reads.
#[derive(Clone, Debug, Eq, PartialEq)]
pub enum Event {
    /// The server accepted an identify and opened a fresh session.
    Ready {
        session_id: String,
        resume_gateway_url: String,
        application_id: ApplicationId,
    },
    /// The server accepted a resume.
    Resumed,
    /// Any other named event; passed through to the application.
    Other { name: String },
}

/// An inbound gateway frame, decoded from the `{op, d, s?, t?}` envelope.
#[derive(Clone, Debug, Eq, PartialEq)]
pub enum GatewayEvent {
    /// Op 0: a dispatched event with its sequence number. `event` is `None`
    /// when the named event could not be decoded.
    Dispatch { seq: u64, event: Option<Event> },
    /// Op 1: the server requests an immediate keepalive.
    Heartbeat(u64),
    /// Op 11: the server acknowledged a heartbeat.
    HeartbeatAck,
    /// Op 10: the first message after connect, with the heartbeat interval in
    /// milliseconds.
    Hello(u64),
    /// Op 9: the session was invalidated; the flag says whether it can be
    /// resumed.
    InvalidateSession(bool),
    /// Op 7: the server asks the client to reconnect.
    Reconnect,
}

/// A failure surfaced instead of a frame by the transport or the envelope
/// decoder.
#[derive(Clone, Debug, Eq, PartialEq)]
pub enum RecvError {
    /// The connection closed, possibly with a close frame.
    Closed(Option<CloseFrame>),
    /// A websocket-level error; recoverable by reconnecting.
    WebSocket,
    /// Any other failure, such as an undecodable envelope.
    Other,
}

/// An action the shard hands back to the runner that owns it.
#[derive(Clone, Debug, Eq, PartialEq)]
pub enum ShardAction {
    Heartbeat,
    Identify,
    Reconnect,
    Dispatch(Event),
}

/// The member filter of a guild-members request: everyone, a name prefix, or
/// an explicit id list.
#[derive(Clone, Debug, Eq, PartialEq)]
pub enum ChunkGuildFilter {
    /// Fetch all members.
    AllMembers,
    /// Fetch members whose username starts with the string.
    Query(String),
    /// Fetch the members with these ids.
    UserIds(Vec<UserId>),
}

/// The op-8 request-guild-members payload: exactly one of `query` or
/// `user_ids` is present.
#[derive(Clone, Debug, Eq, PartialEq)]
pub struct GuildMembersRequest {
    pub guild_id: GuildId,
    pub query: Option<String>,
    pub user_ids: Option<Vec<UserId>>,
    pub limit: Option<u16>,
    pub presences: bool,
    pub nonce: Option<String>,
}

} // verus!
