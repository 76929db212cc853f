//! End-to-end session scenarios: a fresh session, a resume, invalidations,
//! missed acknowledgements, fatal closes, and presence coercion.

use gateway_shard::error::GatewayError;
use gateway_shard::event::{CloseFrame, Event, GatewayEvent, RecvError, ShardAction};
use gateway_shard::id::{ApplicationId, ShardId};
use gateway_shard::presence::OnlineStatus;
use gateway_shard::shard::{ConnectionStage, GatewayIntents, HeartbeatOutcome, Shard, ShardInfo,
    Token};
use gateway_shard::transport::TransportCompression;

fn fresh_shard() -> Shard {
    Shard::new(
        "wss://gateway.example".to_string(),
        Token::new("example-token".to_string()),
        ShardInfo::new(ShardId(0), 1),
        GatewayIntents::from_bits(0),
        None,
        TransportCompression::Plain,
        0,
    )
}

fn ready_event() -> GatewayEvent {
    GatewayEvent::Dispatch {
        seq: 1,
        event: Some(Event::Ready {
            session_id: "abc".to_string(),
            resume_gateway_url: "wss://r.example".to_string(),
            application_id: ApplicationId::new(42),
        }),
    }
}

/// Drives a fresh shard through Hello, Identify and Ready; ends Connected at
/// time 150 with seq 1 and an identify sent at time 100.
fn connected_shard() -> Shard {
    let mut shard = fresh_shard();
    shard.set_application_id_callback();
    let action = shard.handle_event(Ok(GatewayEvent::Hello(41250)), 100).unwrap();
    assert_eq!(action, Some(ShardAction::Identify));
    shard.identify(100, true).unwrap();
    shard.handle_event(Ok(ready_event()), 150).unwrap();
    shard
}

#[test]
fn s1_fresh_session_happy_path() {
    let mut shard = fresh_shard();
    shard.set_application_id_callback();
    assert!(shard.application_id_callback_armed());
    assert_eq!(shard.stage(), ConnectionStage::Handshake);

    let action = shard.handle_event(Ok(GatewayEvent::Hello(41250)), 100).unwrap();
    assert_eq!(action, Some(ShardAction::Identify));
    assert_eq!(shard.stage(), ConnectionStage::Identifying);
    assert_eq!(shard.heartbeat_interval(), Some(41250));

    // The runner sends the identify frame and reports success.
    shard.identify(100, true).unwrap();
    assert_eq!(shard.last_heartbeat_sent(), Some(100));

    let action = shard.handle_event(Ok(ready_event()), 150).unwrap();
    match action {
        Some(ShardAction::Dispatch(Event::Ready { application_id, .. })) => {
            assert_eq!(application_id.get(), 42);
        },
        other => panic!("expected a Ready dispatch, got {:?}", other),
    }
    assert_eq!(shard.stage(), ConnectionStage::Connected);
    assert_eq!(shard.session_id().map(|s| s.as_str()), Some("abc"));
    assert_eq!(shard.seq(), 1);
    // The one-shot observer fired exactly once.
    assert!(!shard.application_id_callback_armed());
    shard.handle_event(Ok(ready_event()), 160).unwrap();
    assert!(!shard.application_id_callback_armed());

    // Past the interval a heartbeat is due; it carries the current sequence.
    let now = 100 + 42_000;
    assert_eq!(shard.do_heartbeat(now), HeartbeatOutcome::SendHeartbeat);
    assert_eq!(shard.seq(), 1);
    shard.heartbeat(now, true).unwrap();
    assert!(!shard.last_heartbeat_acknowledged());
    assert_eq!(shard.latency(), None);

    shard.handle_event(Ok(GatewayEvent::HeartbeatAck), now + 50).unwrap();
    assert!(shard.last_heartbeat_acknowledged());
    assert_eq!(shard.latency(), Some(50));
}

#[test]
fn s2_resume_path() {
    let mut shard = connected_shard();

    let close = RecvError::Closed(Some(CloseFrame { code: 4000, reason: String::new() }));
    let action = shard.handle_event(Err(close), 200).unwrap();
    assert_eq!(action, Some(ShardAction::Reconnect));

    // The runner reinitializes: the resume URL is used.
    let url = shard.reinitialize(250).unwrap();
    assert_eq!(url, "wss://r.example?v=10");
    assert_eq!(shard.stage(), ConnectionStage::Connecting);
    assert_eq!(shard.started, 250);
    shard.connection_established();
    assert_eq!(shard.stage(), ConnectionStage::Handshake);

    let request = shard.resume().unwrap();
    assert_eq!(request.session_id, "abc");
    assert_eq!(request.seq, 1);
    assert_eq!(shard.stage(), ConnectionStage::Resuming);

    // Hello while resuming records the interval and needs no action.
    let action = shard.handle_event(Ok(GatewayEvent::Hello(41250)), 300).unwrap();
    assert_eq!(action, None);
    assert_eq!(shard.heartbeat_interval(), Some(41250));

    let resumed = GatewayEvent::Dispatch { seq: 1, event: Some(Event::Resumed) };
    let action = shard.handle_event(Ok(resumed), 350).unwrap();
    assert_eq!(action, Some(ShardAction::Dispatch(Event::Resumed)));
    assert_eq!(shard.stage(), ConnectionStage::Connected);
    // Resume metadata is unchanged.
    assert_eq!(shard.session_id().map(|s| s.as_str()), Some("abc"));
}

#[test]
fn s3_non_resumable_invalidation() {
    let mut shard = connected_shard();

    let action = shard.handle_event(Ok(GatewayEvent::InvalidateSession(false)), 200).unwrap();
    assert_eq!(action, Some(ShardAction::Reconnect));
    assert_eq!(shard.session_id(), None);
    // The sequence is retained.
    assert_eq!(shard.seq(), 1);

    // Without a session id, resuming fails and the runner must identify.
    assert_eq!(shard.resume().unwrap_err(), GatewayError::NoSessionId);

    // The generic URL is used on the next reconnect.
    let url = shard.reinitialize(250).unwrap();
    assert_eq!(url, "wss://gateway.example?v=10");

    // A subsequent InvalidSequence close resets the sequence.
    let close = RecvError::Closed(Some(CloseFrame { code: 4007, reason: String::new() }));
    shard.handle_event(Err(close), 300).unwrap();
    assert_eq!(shard.seq(), 0);
}

#[test]
fn s4_missed_ack() {
    let mut shard = connected_shard();

    // First tick past the interval: a heartbeat goes out unanswered.
    let first = 100 + 42_000;
    assert_eq!(shard.do_heartbeat(first), HeartbeatOutcome::SendHeartbeat);
    shard.heartbeat(first, true).unwrap();

    // A second full interval passes with no ack: unhealthy, nothing sent.
    let second = first + 42_000;
    assert_eq!(shard.do_heartbeat(second), HeartbeatOutcome::Unhealthy);
    assert_eq!(shard.last_heartbeat_sent(), Some(first));
}

#[test]
fn s5_fatal_close() {
    let mut shard = connected_shard();
    let close = RecvError::Closed(Some(CloseFrame { code: 4004, reason: String::new() }));
    let result = shard.handle_event(Err(close), 200);
    assert_eq!(result.unwrap_err(), GatewayError::InvalidAuthentication);
}

#[test]
fn s6_offline_coercion() {
    let mut shard = fresh_shard();
    shard.set_status(OnlineStatus::Offline);
    assert_eq!(shard.presence().status, OnlineStatus::Invisible);

    shard.set_status(OnlineStatus::Idle);
    assert_eq!(shard.presence().status, OnlineStatus::Idle);

    shard.set_presence(None, OnlineStatus::Offline);
    assert_eq!(shard.presence().status, OnlineStatus::Invisible);
    assert!(shard.presence().activity.is_none());
}

#[test]
fn identify_is_not_emitted_twice_in_a_session() {
    let mut shard = fresh_shard();
    // An off-sequence server heartbeat during Handshake triggers the identify.
    let action = shard.handle_event(Ok(GatewayEvent::Heartbeat(9)), 10).unwrap();
    assert_eq!(action, Some(ShardAction::Identify));
    assert_eq!(shard.stage(), ConnectionStage::Identifying);
    // The Hello that follows is late and cannot identify again.
    let action = shard.handle_event(Ok(GatewayEvent::Hello(41250)), 20).unwrap();
    assert_eq!(action, Some(ShardAction::Reconnect));
    // Neither can another off-sequence heartbeat.
    let action = shard.handle_event(Ok(GatewayEvent::Heartbeat(20)), 30).unwrap();
    assert_eq!(action, Some(ShardAction::Reconnect));
}

#[test]
fn acknowledgement_stays_missing_until_the_ack() {
    let mut shard = connected_shard();
    shard.heartbeat(200, true).unwrap();
    assert!(!shard.last_heartbeat_acknowledged());

    // Ordinary traffic does not count as an acknowledgement.
    let other = GatewayEvent::Dispatch {
        seq: 2,
        event: Some(Event::Other { name: "TYPING_START".to_string() }),
    };
    shard.handle_event(Ok(other), 210).unwrap();
    shard.handle_event(Ok(GatewayEvent::Heartbeat(3)), 220).unwrap();
    assert!(!shard.last_heartbeat_acknowledged());

    shard.handle_event(Ok(GatewayEvent::HeartbeatAck), 230).unwrap();
    assert!(shard.last_heartbeat_acknowledged());
}

#[test]
fn sequence_never_decreases_across_dispatches() {
    let mut shard = connected_shard();
    assert_eq!(shard.seq(), 1);
    let five = GatewayEvent::Dispatch {
        seq: 5,
        event: Some(Event::Other { name: "MESSAGE_CREATE".to_string() }),
    };
    shard.handle_event(Ok(five), 200).unwrap();
    assert_eq!(shard.seq(), 5);
    // A gap beyond the next sequence is recorded as-is.
    let nine = GatewayEvent::Dispatch {
        seq: 9,
        event: Some(Event::Other { name: "MESSAGE_CREATE".to_string() }),
    };
    shard.handle_event(Ok(nine), 210).unwrap();
    assert_eq!(shard.seq(), 9);
}
