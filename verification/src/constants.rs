//! A set of constants used by the library, plus the gateway opcode and
//! close-code tables.

use vstd::prelude::*;

verus! {

/// The maximum length of the textual size of an embed.
pub const EMBED_MAX_LENGTH: usize = 6000;

/// The maximum number of embeds in a message.
pub const EMBED_MAX_COUNT: usize = 10;

/// The maximum number of stickers in a message.
pub const STICKER_MAX_COUNT: usize = 3;

/// The gateway version used by the library. The gateway URL is retrieved via
/// the REST API.
pub const GATEWAY_VERSION: u8 = 10;

/// The large threshold to send on identify.
pub const LARGE_THRESHOLD: u8 = 250;

/// The maximum unicode code points allowed within a message.
pub const MESSAGE_CODE_LIMIT: usize = 2000;

/// The maximum number of members the bot can fetch at once.
pub const MEMBER_FETCH_LIMIT: u16 = 1000;

/// The `User-Agent` header sent along with every REST request.
pub const USER_AGENT: &'static str = "DiscordBot (https://github.com/gateway-shard/gateway-shard, 0.1.0)";

/// An enum representing the gateway opcodes.
#[derive(Clone, Copy, Debug, Eq, Hash, PartialEq, Structural)]
pub enum Opcode {
    /// Dispatches an event.
    Dispatch,
    /// Used for ping checking.
    Heartbeat,
    /// Used for client handshake.
    Identify,
    /// Used to update the client status.
    PresenceUpdate,
    /// Used to join/move/leave voice channels.
    VoiceStateUpdate,
    /// Used for voice ping checking.
    VoiceServerPing,
    /// Used to resume a closed connection.
    Resume,
    /// Used to tell clients to reconnect to the gateway.
    Reconnect,
    /// Used to request guild members.
    RequestGuildMembers,
    /// Used to notify clients that they have an invalid session Id.
    InvalidSession,
    /// Sent immediately after connection, contains heartbeat + server info.
    Hello,
    /// Sent immediately following a client heartbeat that was received.
    HeartbeatAck,
    /// Any opcode outside the documented table.
    Unknown(u8),
}

/// The opcode assigned to each wire number.
pub open spec fn opcode_of(n: u8) -> Opcode {
    if n == 0 {
        Opcode::Dispatch
    } else if n == 1 {
        Opcode::Heartbeat
    } else if n == 2 {
        Opcode::Identify
    } else if n == 3 {
        Opcode::PresenceUpdate
    } else if n == 4 {
        Opcode::VoiceStateUpdate
    } else if n == 5 {
        Opcode::VoiceServerPing
    } else if n == 6 {
        Opcode::Resume
    } else if n == 7 {
        Opcode::Reconnect
    } else if n == 8 {
        Opcode::RequestGuildMembers
    } else if n == 9 {
        Opcode::InvalidSession
    } else if n == 10 {
        Opcode::Hello
    } else if n == 11 {
        Opcode::HeartbeatAck
    } else {
        Opcode::Unknown(n)
    }
}

impl Opcode {
    /// Decodes a wire opcode number.
    pub fn from_number(n: u8) -> (r: Opcode)
        ensures
            r == opcode_of(n),
    {
        match n {
            0 => Opcode::Dispatch,
            1 => Opcode::Heartbeat,
            2 => Opcode::Identify,
            3 => Opcode::PresenceUpdate,
            4 => Opcode::VoiceStateUpdate,
            5 => Opcode::VoiceServerPing,
            6 => Opcode::Resume,
            7 => Opcode::Reconnect,
            8 => Opcode::RequestGuildMembers,
            9 => Opcode::InvalidSession,
            10 => Opcode::Hello,
            11 => Opcode::HeartbeatAck,
            _ => Opcode::Unknown(n),
        }
    }

    /// The wire number of this opcode.
    pub fn number(self) -> (r: u8)
        ensures
            self == opcode_of(r) || (self matches Opcode::Unknown(m) && m == r),
    {
        match self {
            Opcode::Dispatch => 0,
            Opcode::Heartbeat => 1,
            Opcode::Identify => 2,
            Opcode::PresenceUpdate => 3,
            Opcode::VoiceStateUpdate => 4,
            Opcode::VoiceServerPing => 5,
            Opcode::Resume => 6,
            Opcode::Reconnect => 7,
            Opcode::RequestGuildMembers => 8,
            Opcode::InvalidSession => 9,
            Opcode::Hello => 10,
            Opcode::HeartbeatAck => 11,
            Opcode::Unknown(n) => n,
        }
    }
}

/// An enum representing the gateway close codes.
#[derive(Clone, Copy, Debug, Eq, Hash, PartialEq, Structural)]
pub enum CloseCode {
    /// Unknown error; try reconnecting.
    UnknownError,
    /// Invalid gateway opcode.
    UnknownOpcode,
    /// An invalid payload was sent.
    DecodeError,
    /// A payload was sent prior to identifying, or the session was invalidated.
    NotAuthenticated,
    /// The account token sent with the identify payload was incorrect.
    AuthenticationFailed,
    /// More than one identify payload was sent.
    AlreadyAuthenticated,
    /// The sequence sent when resuming the session was invalid.
    InvalidSequence,
    /// Payloads were being sent too quickly.
    RateLimited,
    /// The gateway session timed out, and a new one must be started.
    SessionTimeout,
    /// An invalid shard was sent when identifying.
    InvalidShard,
    /// The session would have handled too many guilds; sharding is required.
    ShardingRequired,
    /// An invalid gateway API version was sent.
    InvalidApiVersion,
    /// An invalid gateway intent was sent.
    InvalidGatewayIntents,
    /// A disallowed gateway intent was sent.
    DisallowedGatewayIntents,
    /// Any close code outside the documented table.
    Unknown(u16),
}

/// The close code assigned to each wire number.
pub open spec fn close_code_of(n: u16) -> CloseCode {
    if n == 4000 {
        CloseCode::UnknownError
    } else if n == 4001 {
        CloseCode::UnknownOpcode
    } else if n == 4002 {
        CloseCode::DecodeError
    } else if n == 4003 {
        CloseCode::NotAuthenticated
    } else if n == 4004 {
        CloseCode::AuthenticationFailed
    } else if n == 4005 {
        CloseCode::AlreadyAuthenticated
    } else if n == 4007 {
        CloseCode::InvalidSequence
    } else if n == 4008 {
        CloseCode::RateLimited
    } else if n == 4009 {
        CloseCode::SessionTimeout
    } else if n == 4010 {
        CloseCode::InvalidShard
    } else if n == 4011 {
        CloseCode::ShardingRequired
    } else if n == 4012 {
        CloseCode::InvalidApiVersion
    } else if n == 4013 {
        CloseCode::InvalidGatewayIntents
    } else if n == 4014 {
        CloseCode::DisallowedGatewayIntents
    } else {
        CloseCode::Unknown(n)
    }
}

impl CloseCode {
    /// Decodes a wire close-code number.
    pub fn from_number(n: u16) -> (r: CloseCode)
        ensures
            r == close_code_of(n),
    {
        match n {
            4000 => CloseCode::UnknownError,
            4001 => CloseCode::UnknownOpcode,
            4002 => CloseCode::DecodeError,
            4003 => CloseCode::NotAuthenticated,
            4004 => CloseCode::AuthenticationFailed,
            4005 => CloseCode::AlreadyAuthenticated,
            4007 => CloseCode::InvalidSequence,
            4008 => CloseCode::RateLimited,
            4009 => CloseCode::SessionTimeout,
            4010 => CloseCode::InvalidShard,
            4011 => CloseCode::ShardingRequired,
            4012 => CloseCode::InvalidApiVersion,
            4013 => CloseCode::InvalidGatewayIntents,
            4014 => CloseCode::DisallowedGatewayIntents,
            _ => CloseCode::Unknown(n),
        }
    }
}

} // verus!
