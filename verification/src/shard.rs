//! The single-shard protocol state machine.
//!
//! The shard holds the protocol state — connection stage, sequence number,
//! session/resume metadata, heartbeat timestamps, presence, intents and shard
//! identity — and steps it on each decoded gateway frame, handing an action
//! back to the runner that owns it. All socket I/O stays with that runner:
//! the shard takes decoded frames and plain millisecond clock readings, and
//! returns the frames and URLs the runner should send and open.
//!
//! Every transition of [`Shard::handle_event`] is pinned down by the spec
//! function [`spec_handle_event`]; the laws module proves the session
//! invariants over that transition function.

use vstd::prelude::*;
use crate::constants::{close_code_of, CloseCode};
use crate::error::GatewayError;
use crate::event::{ChunkGuildFilter, CloseFrame, Event, GatewayEvent, GuildMembersRequest,
    RecvError, ShardAction};
use crate::id::{GuildId, ShardId};
use crate::presence::{default_presence, ActivityData, OnlineStatus, PresenceData};
use crate::transport::{connect_url, gateway_url_spec, url_parse_ok, TransportCompression};

verus! {

/// The pre-Hello grace period in milliseconds: a shard that has not received
/// Hello within this window after (re)initialization is unhealthy.
pub const PRE_HELLO_GRACE_MILLIS: u64 = 15_000;

/// An opaque secret token, carried in the identify payload.
///
/// The token is immutable after construction and is exposed only through
/// [`Token::expose_secret`]; it is never logged and never written to a URL.
pub struct Token {
    secret: String,
}

impl View for Token {
    type V = Seq<char>;

    closed spec fn view(&self) -> Seq<char> {
        self.secret@
    }
}

impl Token {
    /// Wraps a secret token string.
    pub fn new(secret: String) -> (r: Token)
        ensures
            r@ == secret@,
    {
        Token { secret }
    }

    /// The secret value, for building an identify or resume payload.
    pub fn expose_secret(&self) -> (r: &str)
        ensures
            r@ == self@,
    {
        self.secret.as_str()
    }
}

/// A bitset of the event categories the bot subscribes to at identify time.
#[derive(Clone, Copy, Debug, Eq, Hash, PartialEq, Structural)]
pub struct GatewayIntents {
    pub bits: u64,
}

impl GatewayIntents {
    /// No intents.
    pub fn empty() -> (r: GatewayIntents)
        ensures
            r.bits == 0,
    {
        GatewayIntents { bits: 0 }
    }

    /// The intents with exactly the given bits.
    pub fn from_bits(bits: u64) -> (r: GatewayIntents)
        ensures
            r.bits == bits,
    {
        GatewayIntents { bits }
    }

    /// The raw bitset.
    pub fn bits(self) -> (r: u64)
        ensures
            r == self.bits,
    {
        self.bits
    }
}

/// The shard's identity: its index and the total shard count.
#[derive(Clone, Copy, Debug, Eq, Hash, PartialEq, Structural)]
pub struct ShardInfo {
    pub id: ShardId,
    pub total: u16,
}

impl ShardInfo {
    /// Builds a shard identity; the total must be at least one.
    pub fn new(id: ShardId, total: u16) -> (r: ShardInfo)
        requires
            total >= 1,
        ensures
            r.id == id,
            r.total == total,
    {
        ShardInfo { id, total }
    }
}

/// What a Ready handed us: the session id and the URL to resume through.
#[derive(Clone, Debug, Eq, PartialEq)]
pub struct ResumeMetadata {
    pub session_id: String,
    pub resume_ws_url: String,
}

/// Indicates the current connection stage of a [`Shard`].
#[derive(Clone, Copy, Debug, Eq, Hash, Ord, PartialEq, PartialOrd, Structural)]
pub enum ConnectionStage {
    /// The shard is normally connected and not in, e.g., a resume phase.
    Connected,
    /// The shard is opening a connection.
    Connecting,
    /// The shard is fully disconnected and not in a reconnecting phase.
    Disconnected,
    /// The shard is initiating a handshake: the socket is open and Hello is
    /// awaited.
    Handshake,
    /// The shard has sent an IDENTIFY packet and awaits a READY packet.
    Identifying,
    /// The shard has sent a RESUME packet and awaits a RESUMED packet.
    Resuming,
}

impl ConnectionStage {
    /// Whether the stage is a form of connecting.
    pub fn is_connecting(self) -> (r: bool)
        ensures
            r == (self == ConnectionStage::Connecting || self == ConnectionStage::Handshake
                || self == ConnectionStage::Identifying || self == ConnectionStage::Resuming),
    {
        matches!(
            self,
            ConnectionStage::Connecting
            | ConnectionStage::Handshake
            | ConnectionStage::Identifying
            | ConnectionStage::Resuming
        )
    }

    /// The stage's display name.
    pub fn name(self) -> (r: &'static str)
        ensures
            r@ == (match self {
                ConnectionStage::Connected => "connected"@,
                ConnectionStage::Connecting => "connecting"@,
                ConnectionStage::Disconnected => "disconnected"@,
                ConnectionStage::Handshake => "handshaking"@,
                ConnectionStage::Identifying => "identifying"@,
                ConnectionStage::Resuming => "resuming"@,
            }),
    {
        match self {
            ConnectionStage::Connected => "connected",
            ConnectionStage::Connecting => "connecting",
            ConnectionStage::Disconnected => "disconnected",
            ConnectionStage::Handshake => "handshaking",
            ConnectionStage::Identifying => "identifying",
            ConnectionStage::Resuming => "resuming",
        }
    }
}

/// What the liveness timer decided on one tick.
#[derive(Clone, Copy, Debug, Eq, PartialEq, Structural)]
pub enum HeartbeatOutcome {
    /// Nothing to do; the shard is healthy.
    Healthy,
    /// The shard missed an acknowledgement or never saw Hello: reconnect.
    Unhealthy,
    /// A heartbeat is due: send one and report the result through
    /// [`Shard::heartbeat`].
    SendHeartbeat,
}

/// A handler for a gateway connection: the protocol state of one shard.
pub struct Shard {
    pub presence: PresenceData,
    /// When the last heartbeat was sent, in caller-supplied monotonic
    /// milliseconds.
    pub last_heartbeat_sent: Option<u64>,
    /// When the last heartbeat acknowledgement arrived.
    pub last_heartbeat_ack: Option<u64>,
    /// The cadence dictated by Hello, in milliseconds; absent before Hello.
    pub heartbeat_interval: Option<u64>,
    /// Whether a callback registered with
    /// [`Shard::set_application_id_callback`] is still waiting to be consumed
    /// by the first Ready.
    pub application_id_callback: bool,
    /// Whether the last heartbeat sent has been acknowledged; used by the
    /// liveness timer to decide whether to reconnect.
    pub last_heartbeat_acknowledged: bool,
    pub seq: u64,
    pub shard_info: ShardInfo,
    pub stage: ConnectionStage,
    /// When the shard was last (re)initialized; bounds the pre-Hello grace
    /// window.
    pub started: u64,
    /// The secret the shard identifies with; opaque, exposed only through
    /// [`Token::expose_secret`].
    pub token: Token,
    /// The generic gateway URL, used when no resume metadata is held.
    pub ws_url: String,
    /// Present exactly while a live session could be resumed.
    pub resume_metadata: Option<ResumeMetadata>,
    pub compression: TransportCompression,
    pub intents: GatewayIntents,
}

/// The result of one protocol step: the successor state and what
/// [`Shard::handle_event`] reports for it.
pub struct EventStep {
    pub shard: Shard,
    pub outcome: Result<Option<ShardAction>, GatewayError>,
}

/// The close-code interpretation: how a close frame changes the state, and
/// whether it is fatal.
///
/// Fatal codes surface their error; InvalidSequence resets `seq`;
/// SessionTimeout drops the resume metadata; everything else only asks for a
/// reconnect.
pub open spec fn spec_gateway_closed(pre: Shard, data: Option<CloseFrame>) -> (Shard, Result<
    (),
    GatewayError,
>) {
    match data {
        Some(frame) => {
            let code = close_code_of(frame.code);
            if code == CloseCode::NotAuthenticated {
                (pre, Err(GatewayError::NoAuthentication))
            } else if code == CloseCode::AuthenticationFailed {
                (pre, Err(GatewayError::InvalidAuthentication))
            } else if code == CloseCode::InvalidSequence {
                (Shard { seq: 0, ..pre }, Ok(()))
            } else if code == CloseCode::SessionTimeout {
                (Shard { resume_metadata: None, ..pre }, Ok(()))
            } else if code == CloseCode::InvalidShard {
                (pre, Err(GatewayError::InvalidShardData))
            } else if code == CloseCode::ShardingRequired {
                (pre, Err(GatewayError::OverloadedShard))
            } else if code == CloseCode::InvalidApiVersion {
                (pre, Err(GatewayError::InvalidApiVersion))
            } else if code == CloseCode::InvalidGatewayIntents {
                (pre, Err(GatewayError::InvalidGatewayIntents))
            } else if code == CloseCode::DisallowedGatewayIntents {
                (pre, Err(GatewayError::DisallowedGatewayIntents))
            } else {
                (pre, Ok(()))
            }
        },
        None => (pre, Ok(())),
    }
}

/// One op-0 dispatch: `seq` is taken from the frame; Ready opens the session
/// (recording resume metadata and consuming the application-id callback),
/// Resumed re-enters Connected with a fresh acknowledgement; an undecodable
/// event is a decode error, after the sequence was still recorded.
pub open spec fn spec_gateway_dispatch(pre: Shard, s: u64, ev: Option<Event>, now: u64) -> (
    Shard,
    Result<Event, GatewayError>,
) {
    let stepped = Shard { seq: s, ..pre };
    match ev {
        None => (stepped, Err(GatewayError::Decode)),
        Some(event) => match event {
            Event::Ready { session_id, resume_gateway_url, application_id } => (
                Shard {
                    resume_metadata: Some(
                        ResumeMetadata { session_id, resume_ws_url: resume_gateway_url },
                    ),
                    stage: ConnectionStage::Connected,
                    application_id_callback: false,
                    ..stepped
                },
                Ok(Event::Ready { session_id, resume_gateway_url, application_id }),
            ),
            Event::Resumed => (
                Shard {
                    stage: ConnectionStage::Connected,
                    last_heartbeat_acknowledged: true,
                    last_heartbeat_sent: Some(now),
                    last_heartbeat_ack: None,
                    ..stepped
                },
                Ok(Event::Resumed),
            ),
            Event::Other { name } => (stepped, Ok(Event::Other { name })),
        },
    }
}

/// A server-requested heartbeat: answered in place, unless its sequence is
/// ahead of ours by more than one, which from Handshake triggers an identify
/// and from anywhere else a reconnect.
pub open spec fn spec_heartbeat_event(pre: Shard, s: u64) -> EventStep {
    if s > pre.seq + 1 {
        if pre.stage == ConnectionStage::Handshake {
            EventStep {
                shard: Shard { stage: ConnectionStage::Identifying, ..pre },
                outcome: Ok(Some(ShardAction::Identify)),
            }
        } else {
            EventStep { shard: pre, outcome: Ok(Some(ShardAction::Reconnect)) }
        }
    } else {
        EventStep { shard: pre, outcome: Ok(Some(ShardAction::Heartbeat)) }
    }
}

/// Hello: the interval is recorded in every stage. Out of Handshake it
/// triggers the one identify of the session; while Resuming nothing more is
/// needed; anywhere else the Hello is late and asks for a reconnect.
pub open spec fn spec_hello(pre: Shard, interval: u64) -> EventStep {
    let stepped = Shard { heartbeat_interval: Some(interval), ..pre };
    if pre.stage == ConnectionStage::Resuming {
        EventStep { shard: stepped, outcome: Ok(None) }
    } else if pre.stage == ConnectionStage::Handshake {
        EventStep {
            shard: Shard { stage: ConnectionStage::Identifying, ..stepped },
            outcome: Ok(Some(ShardAction::Identify)),
        }
    } else {
        EventStep { shard: stepped, outcome: Ok(Some(ShardAction::Reconnect)) }
    }
}

/// The full transition of [`Shard::handle_event`] on one received frame or
/// receive failure.
pub open spec fn spec_handle_event(
    pre: Shard,
    event: Result<GatewayEvent, RecvError>,
    now: u64,
) -> EventStep {
    match event {
        Ok(GatewayEvent::Dispatch { seq, event: ev }) => {
            let stepped = spec_gateway_dispatch(pre, seq, ev, now);
            EventStep {
                shard: stepped.0,
                outcome: match stepped.1 {
                    Ok(e) => Ok(Some(ShardAction::Dispatch(e))),
                    Err(err) => Err(err),
                },
            }
        },
        Ok(GatewayEvent::Heartbeat(s)) => spec_heartbeat_event(pre, s),
        Ok(GatewayEvent::HeartbeatAck) => EventStep {
            shard: Shard {
                last_heartbeat_ack: Some(now),
                last_heartbeat_acknowledged: true,
                ..pre
            },
            outcome: Ok(None),
        },
        Ok(GatewayEvent::Hello(interval)) => spec_hello(pre, interval),
        Ok(GatewayEvent::InvalidateSession(resumable)) => EventStep {
            shard: if resumable {
                pre
            } else {
                Shard { resume_metadata: None, ..pre }
            },
            outcome: Ok(Some(ShardAction::Reconnect)),
        },
        Ok(GatewayEvent::Reconnect) => EventStep {
            shard: pre,
            outcome: Ok(Some(ShardAction::Reconnect)),
        },
        Err(RecvError::Closed(data)) => {
            let closed = spec_gateway_closed(pre, data);
            EventStep {
                shard: closed.0,
                outcome: match closed.1 {
                    Ok(()) => Ok(Some(ShardAction::Reconnect)),
                    Err(err) => Err(err),
                },
            }
        },
        Err(RecvError::WebSocket) => EventStep {
            shard: pre,
            outcome: Ok(Some(ShardAction::Reconnect)),
        },
        Err(RecvError::Other) => EventStep { shard: pre, outcome: Ok(None) },
    }
}

/// The liveness rule, in order: before Hello only the grace window counts;
/// within the interval of the last send nothing is due; past it a missing
/// acknowledgement is fatal; otherwise a heartbeat is due.
pub open spec fn spec_do_heartbeat(s: Shard, now: u64) -> HeartbeatOutcome {
    match s.heartbeat_interval {
        None => if now - s.started < PRE_HELLO_GRACE_MILLIS {
            HeartbeatOutcome::Healthy
        } else {
            HeartbeatOutcome::Unhealthy
        },
        Some(interval) => if s.last_heartbeat_sent matches Some(sent) && now - sent < interval {
            HeartbeatOutcome::Healthy
        } else if !s.last_heartbeat_acknowledged {
            HeartbeatOutcome::Unhealthy
        } else {
            HeartbeatOutcome::SendHeartbeat
        },
    }
}

/// The latency rule: the gap between send and acknowledgement, reported only
/// when both exist and the acknowledgement is the newer.
pub open spec fn spec_latency(s: Shard) -> Option<u64> {
    match (s.last_heartbeat_sent, s.last_heartbeat_ack) {
        (Some(sent), Some(ack)) => if ack > sent {
            Some((ack - sent) as u64)
        } else {
            None
        },
        _ => None,
    }
}

/// The URL base a reconnect uses: the resume URL while a session is held,
/// else the generic gateway URL.
pub open spec fn spec_reconnect_base(s: Shard) -> Seq<char> {
    match s.resume_metadata {
        Some(m) => m.resume_ws_url@,
        None => s.ws_url@,
    }
}

impl Shard {
    /// Instantiates a new shard in stage Handshake, as it stands right after
    /// its first socket was opened. `now` is the monotonic clock reading, in
    /// milliseconds, that starts the pre-Hello grace window.
    pub fn new(
        ws_url: String,
        token: Token,
        shard_info: ShardInfo,
        intents: GatewayIntents,
        presence: Option<PresenceData>,
        compression: TransportCompression,
        now: u64,
    ) -> (r: Shard)
        ensures
            r.presence == (match presence {
                Some(p) => p,
                None => default_presence(),
            }),
            r.last_heartbeat_sent is None,
            r.last_heartbeat_ack is None,
            r.heartbeat_interval is None,
            !r.application_id_callback,
            r.last_heartbeat_acknowledged,
            r.seq == 0,
            r.shard_info == shard_info,
            r.stage == ConnectionStage::Handshake,
            r.started == now,
            r.token@ == token@,
            r.ws_url == ws_url,
            r.resume_metadata is None,
            r.compression == compression,
            r.intents == intents,
    {
        let presence = match presence {
            Some(p) => p,
            None => PresenceData::default(),
        };
        Shard {
            presence,
            last_heartbeat_sent: None,
            last_heartbeat_ack: None,
            heartbeat_interval: None,
            application_id_callback: false,
            last_heartbeat_acknowledged: true,
            seq: 0,
            shard_info,
            stage: ConnectionStage::Handshake,
            started: now,
            token,
            ws_url,
            resume_metadata: None,
            compression,
            intents,
        }
    }

    /// The secret token, for building an identify or resume payload.
    pub fn expose_secret(&self) -> (r: &str)
        ensures
            r@ == self.token@,
    {
        self.token.expose_secret()
    }

    /// Registers interest in the application id of the next Ready: the
    /// interest is consumed by that Ready, so the owner's callback fires
    /// exactly once even across resumes.
    pub fn set_application_id_callback(&mut self)
        ensures
            *final(self) == (Shard { application_id_callback: true, ..*old(self) }),
    {
        self.application_id_callback = true;
    }

    /// Whether a registered application-id callback is still waiting for a
    /// Ready.
    pub fn application_id_callback_armed(&self) -> (r: bool)
        ensures
            r == self.application_id_callback,
    {
        self.application_id_callback
    }

    /// Retrieves the current presence of the shard.
    pub fn presence(&self) -> (r: &PresenceData)
        ensures
            *r == self.presence,
    {
        &self.presence
    }

    /// Retrieves the value of when the last heartbeat was sent.
    pub fn last_heartbeat_sent(&self) -> (r: Option<u64>)
        ensures
            r == self.last_heartbeat_sent,
    {
        self.last_heartbeat_sent
    }

    /// Retrieves the value of when the last heartbeat ack was received.
    pub fn last_heartbeat_ack(&self) -> (r: Option<u64>)
        ensures
            r == self.last_heartbeat_ack,
    {
        self.last_heartbeat_ack
    }

    /// Returns the heartbeat interval dictated by the server, if the Hello
    /// packet has been received.
    pub fn heartbeat_interval(&self) -> (r: Option<u64>)
        ensures
            r == self.heartbeat_interval,
    {
        self.heartbeat_interval
    }

    /// Whether the last heartbeat sent was acknowledged.
    pub fn last_heartbeat_acknowledged(&self) -> (r: bool)
        ensures
            r == self.last_heartbeat_acknowledged,
    {
        self.last_heartbeat_acknowledged
    }

    /// The last received dispatch sequence.
    pub fn seq(&self) -> (r: u64)
        ensures
            r == self.seq,
    {
        self.seq
    }

    /// The id of the live session, while one is held.
    pub fn session_id(&self) -> (r: Option<&String>)
        ensures
            (r is Some) <==> (self.resume_metadata is Some),
            r matches Some(s) ==> self.resume_metadata matches Some(m) && s == m.session_id,
    {
        match &self.resume_metadata {
            Some(m) => Some(&m.session_id),
            None => None,
        }
    }

    /// Sets the activity shown by the shard, without sending an update.
    pub fn set_activity(&mut self, activity: Option<ActivityData>)
        ensures
            *final(self) == (Shard {
                presence: PresenceData { activity, ..old(self).presence },
                ..*old(self)
            }),
    {
        self.presence.activity = activity;
    }

    /// Sets the full presence, coercing offline to invisible.
    pub fn set_presence(&mut self, activity: Option<ActivityData>, status: OnlineStatus)
        ensures
            *final(self) == (Shard {
                presence: PresenceData {
                    activity,
                    status: if status == OnlineStatus::Offline {
                        OnlineStatus::Invisible
                    } else {
                        status
                    },
                },
                ..*old(self)
            }),
    {
        self.set_activity(activity);
        self.set_status(status);
    }

    /// Sets the online status, coercing offline to invisible: the gateway
    /// does not accept an offline presence.
    pub fn set_status(&mut self, status: OnlineStatus)
        ensures
            *final(self) == (Shard {
                presence: PresenceData {
                    status: if status == OnlineStatus::Offline {
                        OnlineStatus::Invisible
                    } else {
                        status
                    },
                    ..old(self).presence
                },
                ..*old(self)
            }),
    {
        let status = if status == OnlineStatus::Offline {
            OnlineStatus::Invisible
        } else {
            status
        };
        self.presence.status = status;
    }

    /// Retrieves a copy of the current shard information.
    pub fn shard_info(&self) -> (r: ShardInfo)
        ensures
            r == self.shard_info,
    {
        self.shard_info
    }

    /// Returns the current connection stage of the shard.
    pub fn stage(&self) -> (r: ConnectionStage)
        ensures
            r == self.stage,
    {
        self.stage
    }

    /// Steps the sequence and decodes one dispatch; see
    /// [`spec_gateway_dispatch`].
    fn handle_gateway_dispatch(&mut self, seq: u64, event: Option<Event>, now: u64) -> (r: Result<
        Event,
        GatewayError,
    >)
        ensures
            *final(self) == spec_gateway_dispatch(*old(self), seq, event, now).0,
            r == spec_gateway_dispatch(*old(self), seq, event, now).1,
    {
        self.seq = seq;
        match event {
            None => Err(GatewayError::Decode),
            Some(ev) => {
                match ev {
                    Event::Ready { session_id, resume_gateway_url, application_id } => {
                        self.resume_metadata = Some(
                            ResumeMetadata {
                                session_id: session_id.clone(),
                                resume_ws_url: resume_gateway_url.clone(),
                            },
                        );
                        self.stage = ConnectionStage::Connected;
                        self.application_id_callback = false;
                        Ok(Event::Ready { session_id, resume_gateway_url, application_id })
                    },
                    Event::Resumed => {
                        self.stage = ConnectionStage::Connected;
                        self.last_heartbeat_acknowledged = true;
                        self.last_heartbeat_sent = Some(now);
                        self.last_heartbeat_ack = None;
                        Ok(Event::Resumed)
                    },
                    Event::Other { name } => Ok(Event::Other { name }),
                }
            },
        }
    }

    /// Answers a server-requested heartbeat; see [`spec_heartbeat_event`].
    fn handle_heartbeat_event(&mut self, s: u64) -> (r: ShardAction)
        ensures
            *final(self) == spec_heartbeat_event(*old(self), s).shard,
            Ok::<Option<ShardAction>, GatewayError>(Some(r)) == spec_heartbeat_event(
                *old(self),
                s,
            ).outcome,
    {
        if s > self.seq && s - self.seq > 1 {
            if self.stage == ConnectionStage::Handshake {
                self.stage = ConnectionStage::Identifying;
                ShardAction::Identify
            } else {
                ShardAction::Reconnect
            }
        } else {
            ShardAction::Heartbeat
        }
    }

    /// Interprets a close frame; see [`spec_gateway_closed`].
    fn handle_gateway_closed(&mut self, data: Option<CloseFrame>) -> (r: Result<(), GatewayError>)
        ensures
            *final(self) == spec_gateway_closed(*old(self), data).0,
            r == spec_gateway_closed(*old(self), data).1,
    {
        match data {
            Some(frame) => {
                match CloseCode::from_number(frame.code) {
                    CloseCode::NotAuthenticated => Err(GatewayError::NoAuthentication),
                    CloseCode::AuthenticationFailed => Err(GatewayError::InvalidAuthentication),
                    CloseCode::InvalidSequence => {
                        self.seq = 0;
                        Ok(())
                    },
                    CloseCode::SessionTimeout => {
                        self.resume_metadata = None;
                        Ok(())
                    },
                    CloseCode::InvalidShard => Err(GatewayError::InvalidShardData),
                    CloseCode::ShardingRequired => Err(GatewayError::OverloadedShard),
                    CloseCode::InvalidApiVersion => Err(GatewayError::InvalidApiVersion),
                    CloseCode::InvalidGatewayIntents => Err(GatewayError::InvalidGatewayIntents),
                    CloseCode::DisallowedGatewayIntents => Err(
                        GatewayError::DisallowedGatewayIntents,
                    ),
                    _ => Ok(()),
                }
            },
            None => Ok(()),
        }
    }

    /// Handles one event received from the gateway, or one receive failure.
    ///
    /// The whole transition — successor state and result — equals
    /// [`spec_handle_event`] on the previous state. Fatal close codes surface
    /// their error; every recoverable failure comes back as a `Reconnect`
    /// action.
    pub fn handle_event(&mut self, event: Result<GatewayEvent, RecvError>, now: u64) -> (r: Result<
        Option<ShardAction>,
        GatewayError,
    >)
        ensures
            *final(self) == spec_handle_event(*old(self), event, now).shard,
            r == spec_handle_event(*old(self), event, now).outcome,
    {
        match event {
            Ok(GatewayEvent::Dispatch { seq, event: ev }) => {
                match self.handle_gateway_dispatch(seq, ev, now) {
                    Ok(e) => Ok(Some(ShardAction::Dispatch(e))),
                    Err(err) => Err(err),
                }
            },
            Ok(GatewayEvent::Heartbeat(s)) => Ok(Some(self.handle_heartbeat_event(s))),
            Ok(GatewayEvent::HeartbeatAck) => {
                self.last_heartbeat_ack = Some(now);
                self.last_heartbeat_acknowledged = true;
                Ok(None)
            },
            Ok(GatewayEvent::Hello(interval)) => {
                self.heartbeat_interval = Some(interval);
                if self.stage == ConnectionStage::Resuming {
                    Ok(None)
                } else if self.stage == ConnectionStage::Handshake {
                    self.stage = ConnectionStage::Identifying;
                    Ok(Some(ShardAction::Identify))
                } else {
                    Ok(Some(ShardAction::Reconnect))
                }
            },
            Ok(GatewayEvent::InvalidateSession(resumable)) => {
                if !resumable {
                    self.resume_metadata = None;
                }
                Ok(Some(ShardAction::Reconnect))
            },
            Ok(GatewayEvent::Reconnect) => Ok(Some(ShardAction::Reconnect)),
            Err(RecvError::Closed(data)) => {
                match self.handle_gateway_closed(data) {
                    Ok(()) => Ok(Some(ShardAction::Reconnect)),
                    Err(err) => Err(err),
                }
            },
            Err(RecvError::WebSocket) => Ok(Some(ShardAction::Reconnect)),
            Err(RecvError::Other) => Ok(None),
        }
    }

    /// The liveness timer, called on a cadence by the runner. Returns what to
    /// do: nothing, reconnect, or send a heartbeat (reported back through
    /// [`Self::heartbeat`]). The original's boolean reading: `Healthy` is
    /// `true`, `Unhealthy` is `false`.
    pub fn do_heartbeat(&self, now: u64) -> (r: HeartbeatOutcome)
        requires
            self.started <= now,
            self.last_heartbeat_sent matches Some(sent) ==> sent <= now,
        ensures
            r == spec_do_heartbeat(*self, now),
    {
        match self.heartbeat_interval {
            None => {
                // No Hello received yet.
                if now - self.started < PRE_HELLO_GRACE_MILLIS {
                    HeartbeatOutcome::Healthy
                } else {
                    HeartbeatOutcome::Unhealthy
                }
            },
            Some(interval) => {
                let within_interval = match self.last_heartbeat_sent {
                    Some(sent) => now - sent < interval,
                    None => false,
                };
                if within_interval {
                    HeartbeatOutcome::Healthy
                } else if !self.last_heartbeat_acknowledged {
                    // The last heartbeat was never acknowledged: reconnect.
                    HeartbeatOutcome::Unhealthy
                } else {
                    HeartbeatOutcome::SendHeartbeat
                }
            },
        }
    }

    /// Records the outcome of sending a heartbeat frame. On success the send
    /// time is set to `now` and the acknowledgement flag cleared until the
    /// next HeartbeatAck; on failure nothing changes and `HeartbeatFailed` is
    /// returned.
    pub fn heartbeat(&mut self, now: u64, sent: bool) -> (r: Result<(), GatewayError>)
        ensures
            sent ==> *final(self) == (Shard {
                last_heartbeat_sent: Some(now),
                last_heartbeat_acknowledged: false,
                ..*old(self)
            }) && (r is Ok),
            !sent ==> *final(self) == *old(self) && r == Result::<(), GatewayError>::Err(
                GatewayError::HeartbeatFailed,
            ),
    {
        if sent {
            self.last_heartbeat_sent = Some(now);
            self.last_heartbeat_acknowledged = false;
            Ok(())
        } else {
            Err(GatewayError::HeartbeatFailed)
        }
    }

    /// Calculates the heartbeat latency between the shard and the gateway.
    pub fn latency(&self) -> (r: Option<u64>)
        ensures
            r == spec_latency(*self),
    {
        match (self.last_heartbeat_sent, self.last_heartbeat_ack) {
            (Some(sent), Some(ack)) => {
                if ack > sent {
                    Some(ack - sent)
                } else {
                    None
                }
            },
            _ => None,
        }
    }

    /// Builds the op-8 request asking the gateway to send member chunks for a
    /// guild. Exactly one of `query` or `user_ids` is present in the result,
    /// per the filter.
    pub fn chunk_guild(
        &self,
        guild_id: GuildId,
        limit: Option<u16>,
        presences: bool,
        filter: ChunkGuildFilter,
        nonce: Option<String>,
    ) -> (r: GuildMembersRequest)
        ensures
            r.guild_id == guild_id,
            r.limit == limit,
            r.presences == presences,
            r.nonce == nonce,
            filter matches ChunkGuildFilter::AllMembers ==> r.query matches Some(q) && q@
                == Seq::<char>::empty() && r.user_ids is None,
            filter matches ChunkGuildFilter::Query(s) ==> r.query == Some(s) && r.user_ids is None,
            filter matches ChunkGuildFilter::UserIds(v) ==> r.query is None && r.user_ids == Some(
                v,
            ),
    {
        let (query, user_ids): (Option<String>, Option<Vec<crate::id::UserId>>) = match filter {
            ChunkGuildFilter::AllMembers => (Some(String::new()), None),
            ChunkGuildFilter::Query(s) => (Some(s), None),
            ChunkGuildFilter::UserIds(v) => (None, Some(v)),
        };
        GuildMembersRequest { guild_id, query, user_ids, limit, presences, nonce }
    }

    /// Marks the identify frame as sent (or not): on success the shard enters
    /// Identifying with the send time recorded, as the identify doubles as a
    /// first heartbeat; on failure nothing changes.
    pub fn identify(&mut self, now: u64, sent: bool) -> (r: Result<(), GatewayError>)
        ensures
            sent ==> *final(self) == (Shard {
                last_heartbeat_sent: Some(now),
                stage: ConnectionStage::Identifying,
                ..*old(self)
            }) && (r is Ok),
            !sent ==> *final(self) == *old(self) && r == Result::<(), GatewayError>::Err(
                GatewayError::Transport,
            ),
    {
        if sent {
            self.last_heartbeat_sent = Some(now);
            self.stage = ConnectionStage::Identifying;
            Ok(())
        } else {
            Err(GatewayError::Transport)
        }
    }

    /// Begins replacing the WebSocket connection: enters Connecting, restarts
    /// the pre-Hello grace window, and returns the URL to open — the resume
    /// URL while a session is held, else the generic gateway URL, both with
    /// version and compression query attached. Fails with `BuildingUrl` when
    /// that string is not a well-formed URL. Once the socket is open the
    /// runner reports it through [`Self::connection_established`].
    pub fn reinitialize(&mut self, now: u64) -> (r: Result<String, GatewayError>)
        ensures
            *final(self) == (Shard {
                stage: ConnectionStage::Connecting,
                started: now,
                ..*old(self)
            }),
            r matches Ok(u) ==> u@ == gateway_url_spec(
                spec_reconnect_base(*old(self)),
                old(self).compression,
            ) && url_parse_ok(u@),
            r matches Err(e) ==> e == GatewayError::BuildingUrl && !url_parse_ok(
                gateway_url_spec(spec_reconnect_base(*old(self)), old(self).compression),
            ),
    {
        self.stage = ConnectionStage::Connecting;
        self.started = now;
        let base: &str = match &self.resume_metadata {
            Some(m) => m.resume_ws_url.as_str(),
            None => self.ws_url.as_str(),
        };
        connect_url(base, self.compression)
    }

    /// Reports that the socket from [`Self::reinitialize`] is open: the shard
    /// enters Handshake and awaits Hello.
    pub fn connection_established(&mut self)
        ensures
            *final(self) == (Shard { stage: ConnectionStage::Handshake, ..*old(self) }),
    {
        self.stage = ConnectionStage::Handshake;
    }

    /// Enters Resuming and returns the resume parameters to send, or
    /// `NoSessionId` when no live session is held — the runner must identify
    /// instead.
    pub fn resume(&mut self) -> (r: Result<ResumeRequest, GatewayError>)
        ensures
            *final(self) == (Shard { stage: ConnectionStage::Resuming, ..*old(self) }),
            old(self).resume_metadata matches Some(m) ==> r matches Ok(d) && d.session_id
                == m.session_id && d.seq == old(self).seq,
            old(self).resume_metadata is None ==> r == Result::<
                ResumeRequest,
                GatewayError,
            >::Err(GatewayError::NoSessionId),
    {
        self.stage = ConnectionStage::Resuming;
        match &self.resume_metadata {
            Some(m) => Ok(ResumeRequest { session_id: m.session_id.clone(), seq: self.seq }),
            None => Err(GatewayError::NoSessionId),
        }
    }
}

/// The parameters of an op-6 resume frame: the held session id and the last
/// received sequence.
#[derive(Clone, Debug, Eq, PartialEq)]
pub struct ResumeRequest {
    pub session_id: String,
    pub seq: u64,
}

/// Information about a shard runner: what the manager reads back.
#[derive(Clone, Debug, Eq, PartialEq)]
pub struct ShardRunnerInfo {
    /// The latency between a heartbeat send and its acknowledgement, in
    /// milliseconds.
    pub latency: Option<u64>,
    /// The current connection stage of the shard.
    pub stage: ConnectionStage,
}

/// An event denoting that a shard's connection stage changed.
#[derive(Clone, Copy, Debug, Eq, PartialEq, Structural)]
pub struct ShardStageUpdateEvent {
    /// The new connection stage.
    pub new: ConnectionStage,
    /// The previous connection stage.
    pub prev: ConnectionStage,
    /// The id of the shard whose connection stage changed.
    pub shard_id: ShardId,
}

} // verus!
