//! Errors surfaced by the shard core.

use vstd::prelude::*;
use crate::event::CloseFrame;

verus! {

/// An error from the gateway protocol or its transport edge.
///
/// The fatal variants (`NoAuthentication` through `DisallowedGatewayIntents`)
/// abort the shard; the owning runner must propagate them, not retry.
#[derive(Clone, Debug, Eq, PartialEq)]
pub enum GatewayError {
    /// The gateway URL could not be built from its base.
    BuildingUrl,
    /// The connection closed with the given close frame.
    Closed(Option<CloseFrame>),
    /// Sending a heartbeat failed.
    HeartbeatFailed,
    /// A resume was requested while no session id is held.
    NoSessionId,
    /// Close code 4003: a payload was sent prior to identifying.
    NoAuthentication,
    /// Close code 4004: the token in the identify payload was incorrect.
    InvalidAuthentication,
    /// Close code 4010: invalid shard data was sent when identifying.
    InvalidShardData,
    /// Close code 4011: the shard would handle too many guilds.
    OverloadedShard,
    /// Close code 4012: an invalid gateway API version was used.
    InvalidApiVersion,
    /// Close code 4013: an invalid gateway intent was sent.
    InvalidGatewayIntents,
    /// Close code 4014: a disallowed gateway intent was sent.
    DisallowedGatewayIntents,
    /// A dispatched event could not be decoded.
    Decode,
    /// A frame could not be handed to the transport.
    Transport,
}

} // verus!
