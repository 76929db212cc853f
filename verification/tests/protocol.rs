//! Tests of the protocol tables and rules: opcode and close-code mapping,
//! URL building, the liveness timer, and single event transitions.

use gateway_shard::constants::{CloseCode, Opcode, GATEWAY_VERSION, LARGE_THRESHOLD};
use gateway_shard::error::GatewayError;
use gateway_shard::event::{ChunkGuildFilter, CloseFrame, Event, GatewayEvent, RecvError,
    ShardAction};
use gateway_shard::id::{GuildId, ShardId, UserId};
use gateway_shard::shard::{ConnectionStage, GatewayIntents, HeartbeatOutcome, Shard, ShardInfo,
    Token};
use gateway_shard::transport::{connect_url, gateway_url, TransportCompression};

fn shard_at(stage_hello: bool) -> Shard {
    let mut shard = Shard::new(
        "wss://gateway.example".to_string(),
        Token::new("example-token".to_string()),
        ShardInfo::new(ShardId(1), 3),
        GatewayIntents::from_bits(0b101),
        None,
        TransportCompression::Plain,
        0,
    );
    if stage_hello {
        shard.handle_event(Ok(GatewayEvent::Hello(1000)), 10).unwrap();
    }
    shard
}

#[test]
fn opcode_numbers_round_trip() {
    assert_eq!(Opcode::from_number(0), Opcode::Dispatch);
    assert_eq!(Opcode::from_number(1), Opcode::Heartbeat);
    assert_eq!(Opcode::from_number(6), Opcode::Resume);
    assert_eq!(Opcode::from_number(7), Opcode::Reconnect);
    assert_eq!(Opcode::from_number(9), Opcode::InvalidSession);
    assert_eq!(Opcode::from_number(10), Opcode::Hello);
    assert_eq!(Opcode::from_number(11), Opcode::HeartbeatAck);
    assert_eq!(Opcode::from_number(99), Opcode::Unknown(99));
    for n in 0..=255u8 {
        assert_eq!(Opcode::from_number(n).number(), n);
    }
}

#[test]
fn close_code_numbers() {
    assert_eq!(CloseCode::from_number(4000), CloseCode::UnknownError);
    assert_eq!(CloseCode::from_number(4004), CloseCode::AuthenticationFailed);
    assert_eq!(CloseCode::from_number(4007), CloseCode::InvalidSequence);
    assert_eq!(CloseCode::from_number(4009), CloseCode::SessionTimeout);
    assert_eq!(CloseCode::from_number(4014), CloseCode::DisallowedGatewayIntents);
    assert_eq!(CloseCode::from_number(4006), CloseCode::Unknown(4006));
    assert_eq!(CloseCode::from_number(1000), CloseCode::Unknown(1000));
}

#[test]
fn constants_are_bit_exact() {
    assert_eq!(GATEWAY_VERSION, 10);
    assert_eq!(LARGE_THRESHOLD, 250);
}

#[test]
fn gateway_url_carries_version_and_compression() {
    assert_eq!(gateway_url("wss://h.example", TransportCompression::Plain), "wss://h.example?v=10");
    assert_eq!(
        gateway_url("wss://h.example", TransportCompression::Zlib),
        "wss://h.example?v=10&compress=zlib-stream"
    );
    assert_eq!(
        gateway_url("wss://h.example", TransportCompression::Zstd),
        "wss://h.example?v=10&compress=zstd-stream"
    );
}

#[test]
fn connect_url_rejects_a_malformed_base() {
    assert_eq!(connect_url("not a url", TransportCompression::Plain), Err(GatewayError::BuildingUrl));
    let ok = connect_url("wss://h.example", TransportCompression::Zlib).unwrap();
    assert_eq!(ok, "wss://h.example?v=10&compress=zlib-stream");
}

#[test]
fn reinitialize_surfaces_url_errors() {
    let mut shard = Shard::new(
        "no scheme here".to_string(),
        Token::new("example-token".to_string()),
        ShardInfo::new(ShardId(0), 1),
        GatewayIntents::from_bits(0),
        None,
        TransportCompression::Plain,
        0,
    );
    assert_eq!(shard.reinitialize(5), Err(GatewayError::BuildingUrl));
    assert_eq!(shard.stage(), ConnectionStage::Connecting);
}

#[test]
fn pre_hello_grace_window() {
    let shard = shard_at(false);
    assert_eq!(shard.do_heartbeat(14_999), HeartbeatOutcome::Healthy);
    assert_eq!(shard.do_heartbeat(15_000), HeartbeatOutcome::Unhealthy);
}

#[test]
fn heartbeat_failure_is_reported() {
    let mut shard = shard_at(true);
    assert_eq!(shard.heartbeat(50, false), Err(GatewayError::HeartbeatFailed));
    assert_eq!(shard.last_heartbeat_sent(), None);
    assert!(shard.last_heartbeat_acknowledged());

    shard.heartbeat(50, true).unwrap();
    assert_eq!(shard.last_heartbeat_sent(), Some(50));
    assert!(!shard.last_heartbeat_acknowledged());
}

#[test]
fn identify_failure_changes_nothing() {
    let mut shard = shard_at(false);
    assert_eq!(shard.identify(50, false), Err(GatewayError::Transport));
    assert_eq!(shard.stage(), ConnectionStage::Handshake);
    assert_eq!(shard.last_heartbeat_sent(), None);
}

#[test]
fn latency_needs_a_newer_ack() {
    let mut shard = shard_at(true);
    assert_eq!(shard.latency(), None);
    shard.heartbeat(100, true).unwrap();
    assert_eq!(shard.latency(), None);
    // An ack at the same instant as the send reports no latency.
    shard.handle_event(Ok(GatewayEvent::HeartbeatAck), 100).unwrap();
    assert_eq!(shard.latency(), None);
    shard.handle_event(Ok(GatewayEvent::HeartbeatAck), 130).unwrap();
    assert_eq!(shard.latency(), Some(30));
}

#[test]
fn server_heartbeat_request_in_sequence() {
    let mut shard = shard_at(false);
    let action = shard.handle_event(Ok(GatewayEvent::Heartbeat(1)), 10).unwrap();
    assert_eq!(action, Some(ShardAction::Heartbeat));
    assert_eq!(shard.stage(), ConnectionStage::Handshake);
}

#[test]
fn off_sequence_heartbeat_in_handshake_identifies() {
    let mut shard = shard_at(false);
    let action = shard.handle_event(Ok(GatewayEvent::Heartbeat(5)), 10).unwrap();
    assert_eq!(action, Some(ShardAction::Identify));
    assert_eq!(shard.stage(), ConnectionStage::Identifying);
}

#[test]
fn off_sequence_heartbeat_elsewhere_reconnects() {
    let mut shard = shard_at(true);
    // Hello moved the shard out of Handshake into Identifying.
    let action = shard.handle_event(Ok(GatewayEvent::Heartbeat(5)), 10).unwrap();
    assert_eq!(action, Some(ShardAction::Reconnect));
    assert_eq!(shard.stage(), ConnectionStage::Identifying);
}

#[test]
fn late_hello_reconnects() {
    let mut shard = shard_at(true);
    let action = shard.handle_event(Ok(GatewayEvent::Hello(2000)), 20).unwrap();
    assert_eq!(action, Some(ShardAction::Reconnect));
    assert_eq!(shard.heartbeat_interval(), Some(2000));
}

#[test]
fn undecodable_dispatch_still_records_sequence() {
    let mut shard = shard_at(true);
    let result = shard.handle_event(Ok(GatewayEvent::Dispatch { seq: 9, event: None }), 20);
    assert_eq!(result.unwrap_err(), GatewayError::Decode);
    assert_eq!(shard.seq(), 9);
}

#[test]
fn other_dispatch_passes_through() {
    let mut shard = shard_at(true);
    let dispatch = GatewayEvent::Dispatch {
        seq: 2,
        event: Some(Event::Other { name: "TYPING_START".to_string() }),
    };
    let action = shard.handle_event(Ok(dispatch), 20).unwrap();
    assert_eq!(
        action,
        Some(ShardAction::Dispatch(Event::Other { name: "TYPING_START".to_string() }))
    );
    assert_eq!(shard.seq(), 2);
}

#[test]
fn resumable_invalidation_keeps_metadata() {
    let mut shard = shard_at(true);
    let ready = GatewayEvent::Dispatch {
        seq: 1,
        event: Some(Event::Ready {
            session_id: "sess".to_string(),
            resume_gateway_url: "wss://r.example".to_string(),
            application_id: gateway_shard::id::ApplicationId::new(7),
        }),
    };
    shard.handle_event(Ok(ready), 30).unwrap();
    let action = shard.handle_event(Ok(GatewayEvent::InvalidateSession(true)), 40).unwrap();
    assert_eq!(action, Some(ShardAction::Reconnect));
    assert_eq!(shard.session_id().map(|s| s.as_str()), Some("sess"));
}

#[test]
fn reconnect_request_and_websocket_errors() {
    let mut shard = shard_at(true);
    let action = shard.handle_event(Ok(GatewayEvent::Reconnect), 40).unwrap();
    assert_eq!(action, Some(ShardAction::Reconnect));

    let action = shard.handle_event(Err(RecvError::WebSocket), 50).unwrap();
    assert_eq!(action, Some(ShardAction::Reconnect));

    // Unhandled errors are swallowed with no action.
    let action = shard.handle_event(Err(RecvError::Other), 60).unwrap();
    assert_eq!(action, None);
}

#[test]
fn fatal_close_codes_surface_their_errors() {
    let cases: Vec<(u16, GatewayError)> = vec![
        (4003, GatewayError::NoAuthentication),
        (4004, GatewayError::InvalidAuthentication),
        (4010, GatewayError::InvalidShardData),
        (4011, GatewayError::OverloadedShard),
        (4012, GatewayError::InvalidApiVersion),
        (4013, GatewayError::InvalidGatewayIntents),
        (4014, GatewayError::DisallowedGatewayIntents),
    ];
    for (code, expected) in cases {
        let mut shard = shard_at(true);
        let close = RecvError::Closed(Some(CloseFrame { code, reason: String::new() }));
        assert_eq!(shard.handle_event(Err(close), 40).unwrap_err(), expected);
    }
}

#[test]
fn recoverable_close_codes_reconnect() {
    for code in [4000u16, 4001, 4002, 4005, 4008, 1234] {
        let mut shard = shard_at(true);
        let close = RecvError::Closed(Some(CloseFrame { code, reason: String::new() }));
        let action = shard.handle_event(Err(close), 40).unwrap();
        assert_eq!(action, Some(ShardAction::Reconnect));
        assert_eq!(shard.seq(), 0);
    }
    // A close with no frame at all also just reconnects.
    let mut shard = shard_at(true);
    let action = shard.handle_event(Err(RecvError::Closed(None)), 40).unwrap();
    assert_eq!(action, Some(ShardAction::Reconnect));
}

#[test]
fn session_timeout_drops_resume_metadata() {
    let mut shard = shard_at(true);
    let ready = GatewayEvent::Dispatch {
        seq: 3,
        event: Some(Event::Ready {
            session_id: "sess".to_string(),
            resume_gateway_url: "wss://r.example".to_string(),
            application_id: gateway_shard::id::ApplicationId::new(7),
        }),
    };
    shard.handle_event(Ok(ready), 30).unwrap();
    let close = RecvError::Closed(Some(CloseFrame { code: 4009, reason: String::new() }));
    let action = shard.handle_event(Err(close), 40).unwrap();
    assert_eq!(action, Some(ShardAction::Reconnect));
    assert_eq!(shard.session_id(), None);
    // The sequence is kept; only InvalidSequence resets it.
    assert_eq!(shard.seq(), 3);
}

#[test]
fn chunk_guild_filter_mapping() {
    let shard = shard_at(false);
    let guild = GuildId::new(81384788765712384);

    let request = shard.chunk_guild(guild, Some(2000), false, ChunkGuildFilter::AllMembers, None);
    assert_eq!(request.query.as_deref(), Some(""));
    assert_eq!(request.user_ids, None);
    assert_eq!(request.limit, Some(2000));

    let request = shard.chunk_guild(
        guild,
        Some(20),
        false,
        ChunkGuildFilter::Query("do".to_string()),
        Some("request".to_string()),
    );
    assert_eq!(request.query.as_deref(), Some("do"));
    assert_eq!(request.user_ids, None);
    assert_eq!(request.nonce.as_deref(), Some("request"));

    let ids = vec![UserId::new(1), UserId::new(2)];
    let request = shard.chunk_guild(guild, None, true, ChunkGuildFilter::UserIds(ids.clone()), None);
    assert_eq!(request.query, None);
    assert_eq!(request.user_ids, Some(ids));
    assert!(request.presences);
}

#[test]
fn connection_stage_names_and_predicates() {
    assert!(ConnectionStage::Identifying.is_connecting());
    assert!(ConnectionStage::Connecting.is_connecting());
    assert!(!ConnectionStage::Connected.is_connecting());
    assert!(!ConnectionStage::Disconnected.is_connecting());
    assert_eq!(ConnectionStage::Handshake.name(), "handshaking");
    assert_eq!(ConnectionStage::Connected.name(), "connected");
}
