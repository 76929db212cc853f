//! Tests of the outbound codec: exact frames, escaping, and a round trip of
//! the identify payload through a real JSON parser.

use gateway_shard::codec::{chunk_guild_payload, escape_json, heartbeat_payload,
    presence_update_payload};
use gateway_shard::event::{ChunkGuildFilter, GatewayEvent};
use gateway_shard::id::{GuildId, ShardId, UserId};
use gateway_shard::presence::{ActivityData, OnlineStatus, PresenceData};
use gateway_shard::shard::{GatewayIntents, Shard, ShardInfo, Token};
use gateway_shard::transport::TransportCompression;

fn shard_with_presence() -> Shard {
    Shard::new(
        "wss://gateway.example".to_string(),
        Token::new("a-token".to_string()),
        ShardInfo::new(ShardId(1), 3),
        GatewayIntents::from_bits(641),
        Some(PresenceData {
            activity: Some(ActivityData { name: "with \"quotes\"".to_string(), state: None }),
            status: OnlineStatus::Idle,
        }),
        TransportCompression::Plain,
        0,
    )
}

#[test]
fn heartbeat_frames_are_exact() {
    assert_eq!(heartbeat_payload(Some(212)), b"{\"op\":1,\"d\":212}");
    assert_eq!(heartbeat_payload(None), b"{\"op\":1,\"d\":null}");
}

#[test]
fn json_escaping_covers_quotes_backslashes_and_controls() {
    assert_eq!(escape_json("plain"), b"plain");
    assert_eq!(escape_json("a\"b"), b"a\\\"b");
    assert_eq!(escape_json("a\\b"), b"a\\\\b");
    assert_eq!(escape_json("a\nb\tc"), b"a\\u000ab\\u0009c");
    // Multi-byte UTF-8 passes through untouched.
    assert_eq!(escape_json("héllo"), "héllo".as_bytes());
}

#[test]
fn resume_frame_is_exact() {
    let shard = shard_with_presence();
    let frame = shard.resume_payload("abc", 212);
    assert_eq!(
        String::from_utf8(frame).unwrap(),
        "{\"op\":6,\"d\":{\"token\":\"a-token\",\"session_id\":\"abc\",\"seq\":212}}"
    );
}

#[test]
fn identify_round_trips_through_a_json_parser() {
    let shard = shard_with_presence();
    let payload = shard.identify_payload();
    let value: serde_json::Value = serde_json::from_slice(&payload).unwrap();

    assert_eq!(value["op"].as_u64(), Some(2));
    let d = &value["d"];
    assert_eq!(d["token"].as_str(), Some("a-token"));
    assert_eq!(d["intents"].as_u64(), Some(641));
    assert_eq!(d["compress"].as_bool(), Some(false));
    assert_eq!(d["large_threshold"].as_u64(), Some(250));
    assert_eq!(d["shard"][0].as_u64(), Some(1));
    assert_eq!(d["shard"][1].as_u64(), Some(3));
    assert_eq!(d["presence"]["status"].as_str(), Some("idle"));
    assert_eq!(d["presence"]["afk"].as_bool(), Some(false));
    // The escaped activity name comes back out unchanged.
    assert_eq!(
        d["presence"]["activities"][0]["name"].as_str(),
        Some("with \"quotes\"")
    );
}

#[test]
fn presence_update_frame_round_trips() {
    let presence = PresenceData {
        activity: Some(ActivityData {
            name: "line\nbreak".to_string(),
            state: Some("deep \\ nested".to_string()),
        }),
        status: OnlineStatus::DoNotDisturb,
    };
    let payload = presence_update_payload(&presence);
    let value: serde_json::Value = serde_json::from_slice(&payload).unwrap();
    assert_eq!(value["op"].as_u64(), Some(3));
    assert_eq!(value["d"]["status"].as_str(), Some("dnd"));
    assert_eq!(value["d"]["activities"][0]["name"].as_str(), Some("line\nbreak"));
    assert_eq!(value["d"]["activities"][0]["state"].as_str(), Some("deep \\ nested"));
}

#[test]
fn chunk_guild_frame_round_trips() {
    let shard = shard_with_presence();
    let guild = GuildId::new(81384788765712384);

    let request = shard.chunk_guild(
        guild,
        Some(20),
        true,
        ChunkGuildFilter::Query("do".to_string()),
        Some("nonce-1".to_string()),
    );
    let value: serde_json::Value =
        serde_json::from_slice(&chunk_guild_payload(&request)).unwrap();
    assert_eq!(value["op"].as_u64(), Some(8));
    assert_eq!(value["d"]["guild_id"].as_str(), Some("81384788765712384"));
    assert_eq!(value["d"]["query"].as_str(), Some("do"));
    assert!(value["d"].get("user_ids").is_none());
    assert_eq!(value["d"]["limit"].as_u64(), Some(20));
    assert_eq!(value["d"]["presences"].as_bool(), Some(true));
    assert_eq!(value["d"]["nonce"].as_str(), Some("nonce-1"));

    let ids = vec![UserId::new(5), UserId::new(6), UserId::new(7)];
    let request = shard.chunk_guild(guild, None, false, ChunkGuildFilter::UserIds(ids), None);
    let value: serde_json::Value =
        serde_json::from_slice(&chunk_guild_payload(&request)).unwrap();
    assert!(value["d"].get("query").is_none());
    assert_eq!(value["d"]["user_ids"][0].as_str(), Some("5"));
    assert_eq!(value["d"]["user_ids"][2].as_str(), Some("7"));
    assert_eq!(value["d"]["limit"].as_u64(), Some(0));
}

#[test]
fn update_presence_uses_the_shards_presence() {
    let mut shard = shard_with_presence();
    shard.set_status(OnlineStatus::Offline);
    let value: serde_json::Value = serde_json::from_slice(&shard.update_presence()).unwrap();
    // Offline was coerced before the frame was built.
    assert_eq!(value["d"]["status"].as_str(), Some("invisible"));
}

#[test]
fn decoded_gateway_event_equality() {
    // Two separately decoded frames with the same content compare equal.
    assert_eq!(GatewayEvent::Hello(41250), GatewayEvent::Hello(41250));
    assert_ne!(GatewayEvent::Hello(41250), GatewayEvent::HeartbeatAck);
}
