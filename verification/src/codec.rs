//! The outbound codec: the control and command payloads the shard sends,
//! built as UTF-8 JSON bytes with exact byte-level contracts.

use vstd::prelude::*;
use vstd::slice::slice_to_vec;
use vstd::string::StringSliceAdditionalSpecFns;
use vstd::utf8::encode_utf8;
use crate::constants::LARGE_THRESHOLD;
use crate::digits::dec_digits;
use crate::digits::u64_to_string;
use crate::event::GuildMembersRequest;
use crate::id::UserId;
use crate::presence::{ActivityData, OnlineStatus, PresenceData};
use crate::shard::Shard;

verus! {

/// The lower-case hex digit for a value below sixteen.
pub open spec fn hex_digit_byte(d: u8) -> u8 {
    if d < 10 {
        (0x30 + d) as u8
    } else {
        (0x57 + d) as u8
    }
}

/// How one byte of a string is written inside a JSON string literal: quotes
/// and backslashes are escaped, control bytes become `\u00XX`, and everything
/// else — including UTF-8 continuation bytes — passes through.
pub open spec fn escape_byte(b: u8) -> Seq<u8> {
    if b == 0x22 {
        seq![0x5cu8, 0x22u8]
    } else if b == 0x5c {
        seq![0x5cu8, 0x5cu8]
    } else if b < 0x20 {
        seq![0x5cu8, 0x75u8, 0x30u8, 0x30u8, hex_digit_byte(b / 16), hex_digit_byte(b % 16)]
    } else {
        seq![b]
    }
}

/// A whole byte string, escaped for a JSON string literal.
pub open spec fn json_escaped(bs: Seq<u8>) -> Seq<u8>
    decreases bs.len(),
{
    if bs.len() == 0 {
        Seq::<u8>::empty()
    } else {
        json_escaped(bs.drop_last()) + escape_byte(bs.last())
    }
}

/// The decimal digits of `n`, as bytes.
pub open spec fn dec_bytes(n: int) -> Seq<u8> {
    encode_utf8(dec_digits(n))
}

/// The JSON for an online status.
pub open spec fn status_json(status: OnlineStatus) -> Seq<u8> {
    match status {
        OnlineStatus::DoNotDisturb => ("dnd").spec_bytes(),
        OnlineStatus::Idle => ("idle").spec_bytes(),
        OnlineStatus::Invisible => ("invisible").spec_bytes(),
        OnlineStatus::Offline => ("offline").spec_bytes(),
        OnlineStatus::Online => ("online").spec_bytes(),
    }
}

/// The JSON for the activity list of a presence.
pub open spec fn activities_json(activity: Option<ActivityData>) -> Seq<u8> {
    match activity {
        None => ("[]").spec_bytes(),
        Some(a) => ("[{\"name\":\"").spec_bytes() + json_escaped(encode_utf8(a.name@)) + (
        match a.state {
            None => ("\"}]").spec_bytes(),
            Some(s) => ("\",\"state\":\"").spec_bytes() + json_escaped(encode_utf8(s@)) + (
            "\"}]").spec_bytes(),
        }),
    }
}

/// The JSON object for a presence: since, activities, status, afk.
pub open spec fn presence_json(presence: PresenceData) -> Seq<u8> {
    ("{\"since\":null,\"activities\":").spec_bytes() + activities_json(presence.activity) + (
    ",\"status\":\"").spec_bytes() + status_json(presence.status) + ("\",\"afk\":false}"
    ).spec_bytes()
}

/// The op-1 heartbeat payload: the sequence, or null when none was seen yet.
pub open spec fn heartbeat_json(seq: Option<u64>) -> Seq<u8> {
    ("{\"op\":1,\"d\":").spec_bytes() + (match seq {
        Some(n) => dec_bytes(n as int),
        None => ("null").spec_bytes(),
    }) + ("}").spec_bytes()
}

/// The op-2 identify payload: token, intents, connection properties, the
/// fixed large threshold, the shard pair, and the presence.
pub open spec fn identify_json(
    token: Seq<u8>,
    intents: u64,
    index: u16,
    total: u16,
    presence: PresenceData,
) -> Seq<u8> {
    ("{\"op\":2,\"d\":{\"token\":\"").spec_bytes() + json_escaped(token) + (
    "\",\"intents\":").spec_bytes() + dec_bytes(intents as int) + (
    ",\"properties\":{\"os\":\"linux\",\"browser\":\"gateway_shard\",\"device\":\"gateway_shard\"},\"compress\":false,\"large_threshold\":"
    ).spec_bytes() + dec_bytes(LARGE_THRESHOLD as int) + (",\"shard\":[").spec_bytes()
        + dec_bytes(index as int) + (",").spec_bytes() + dec_bytes(total as int) + (
    "],\"presence\":").spec_bytes() + presence_json(presence) + ("}}").spec_bytes()
}

/// The op-6 resume payload: token, session id, and the last seen sequence.
pub open spec fn resume_json(token: Seq<u8>, session_id: Seq<u8>, seq: u64) -> Seq<u8> {
    ("{\"op\":6,\"d\":{\"token\":\"").spec_bytes() + json_escaped(token) + (
    "\",\"session_id\":\"").spec_bytes() + json_escaped(session_id) + ("\",\"seq\":"
    ).spec_bytes() + dec_bytes(seq as int) + ("}}").spec_bytes()
}

/// The op-3 presence update payload.
pub open spec fn presence_update_json(presence: PresenceData) -> Seq<u8> {
    ("{\"op\":3,\"d\":").spec_bytes() + presence_json(presence) + ("}").spec_bytes()
}

/// The JSON list of user ids, each a quoted decimal string.
pub open spec fn user_ids_json(ids: Seq<UserId>) -> Seq<u8>
    decreases ids.len(),
{
    if ids.len() == 0 {
        Seq::<u8>::empty()
    } else if ids.len() == 1 {
        ("\"").spec_bytes() + dec_bytes(ids[0].spec_get() as int) + ("\"").spec_bytes()
    } else {
        user_ids_json(ids.drop_last()) + (",\"").spec_bytes() + dec_bytes(
            ids.last().spec_get() as int,
        ) + ("\"").spec_bytes()
    }
}

/// The query member of an op-8 payload, present only when the request holds
/// one.
pub open spec fn chunk_query_part(query: Option<String>) -> Seq<u8> {
    match query {
        Some(q) => (",\"query\":\"").spec_bytes() + json_escaped(encode_utf8(q@)) + ("\""
        ).spec_bytes(),
        None => Seq::<u8>::empty(),
    }
}

/// The user-id list member of an op-8 payload, present only when the request
/// holds one.
pub open spec fn chunk_user_ids_part(user_ids: Option<Vec<UserId>>) -> Seq<u8> {
    match user_ids {
        Some(ids) => (",\"user_ids\":[").spec_bytes() + user_ids_json(ids@) + ("]").spec_bytes(),
        None => Seq::<u8>::empty(),
    }
}

/// The nonce member of an op-8 payload, present only when the request holds
/// one.
pub open spec fn chunk_nonce_part(nonce: Option<String>) -> Seq<u8> {
    match nonce {
        Some(n) => (",\"nonce\":\"").spec_bytes() + json_escaped(encode_utf8(n@)) + ("\""
        ).spec_bytes(),
        None => Seq::<u8>::empty(),
    }
}

/// The op-8 request-guild-members payload. Exactly one of `query` or
/// `user_ids` is written, per the request the shard built.
pub open spec fn chunk_guild_json(request: GuildMembersRequest) -> Seq<u8> {
    ("{\"op\":8,\"d\":{\"guild_id\":\"").spec_bytes() + dec_bytes(
        request.guild_id.spec_get() as int,
    ) + ("\"").spec_bytes() + chunk_query_part(request.query) + chunk_user_ids_part(
        request.user_ids,
    ) + (",\"limit\":").spec_bytes() + dec_bytes((match request.limit {
        Some(l) => l,
        None => 0u16,
    }) as int) + (",\"presences\":").spec_bytes() + (if request.presences {
        ("true").spec_bytes()
    } else {
        ("false").spec_bytes()
    }) + chunk_nonce_part(request.nonce) + ("}}").spec_bytes()
}

/// The lower-case hex digit for a value below sixteen.
fn hex_digit(d: u8) -> (r: u8)
    requires
        d < 16,
    ensures
        r == hex_digit_byte(d),
{
    if d < 10 {
        0x30 + d
    } else {
        0x57 + d
    }
}

/// Escapes a string for inclusion in a JSON string literal.
pub fn escape_json(s: &str) -> (r: Vec<u8>)
    ensures
        r@ == json_escaped(s.spec_bytes()),
{
    let bytes = s.as_bytes();
    let mut out: Vec<u8> = Vec::new();
    let mut i: usize = 0;
    while i < bytes.len()
        invariant
            i <= bytes@.len(),
            bytes@ == s.spec_bytes(),
            out@ == json_escaped(bytes@.take(i as int)),
        decreases bytes@.len() - i,
    {
        let b = bytes[i];
        if b == 0x22 {
            out.push(0x5c);
            out.push(0x22);
        } else if b == 0x5c {
            out.push(0x5c);
            out.push(0x5c);
        } else if b < 0x20 {
            out.push(0x5c);
            out.push(0x75);
            out.push(0x30);
            out.push(0x30);
            out.push(hex_digit(b / 16));
            out.push(hex_digit(b % 16));
        } else {
            out.push(b);
        }
        proof {
            assert(bytes@.take(i as int + 1).drop_last() =~= bytes@.take(i as int));
            assert(bytes@.take(i as int + 1).last() == bytes@[i as int]);
            assert(out@ =~= json_escaped(bytes@.take(i as int + 1)));
        }
        i = i + 1;
    }
    proof {
        assert(bytes@.take(bytes@.len() as int) =~= bytes@);
    }
    out
}

/// Appends the bytes of a string slice.
fn push_str_bytes(out: &mut Vec<u8>, s: &str)
    ensures
        final(out)@ == old(out)@ + s.spec_bytes(),
{
    let mut part = slice_to_vec(s.as_bytes());
    out.append(&mut part);
}

/// Appends the decimal digits of a number.
fn push_dec(out: &mut Vec<u8>, n: u64)
    ensures
        final(out)@ == old(out)@ + dec_bytes(n as int),
{
    let digits = u64_to_string(n);
    push_str_bytes(out, digits.as_str());
}

/// Appends a string, escaped for a JSON string literal.
fn push_escaped(out: &mut Vec<u8>, s: &str)
    ensures
        final(out)@ == old(out)@ + json_escaped(encode_utf8(s@)),
{
    let mut part = escape_json(s);
    out.append(&mut part);
}

/// Appends the JSON of a presence object.
#[verifier::rlimit(100)]
#[verifier::spinoff_prover]
fn push_presence(out: &mut Vec<u8>, presence: &PresenceData)
    ensures
        final(out)@ == old(out)@ + presence_json(*presence),
{
    push_str_bytes(out, "{\"since\":null,\"activities\":");
    match &presence.activity {
        Some(a) => {
            push_str_bytes(out, "[{\"name\":\"");
            push_escaped(out, a.name.as_str());
            match &a.state {
                Some(state) => {
                    push_str_bytes(out, "\",\"state\":\"");
                    push_escaped(out, state.as_str());
                    push_str_bytes(out, "\"}]");
                },
                None => {
                    push_str_bytes(out, "\"}]");
                },
            }
        },
        None => {
            push_str_bytes(out, "[]");
        },
    }
    push_str_bytes(out, ",\"status\":\"");
    match presence.status {
        OnlineStatus::DoNotDisturb => push_str_bytes(out, "dnd"),
        OnlineStatus::Idle => push_str_bytes(out, "idle"),
        OnlineStatus::Invisible => push_str_bytes(out, "invisible"),
        OnlineStatus::Offline => push_str_bytes(out, "offline"),
        OnlineStatus::Online => push_str_bytes(out, "online"),
    }
    push_str_bytes(out, "\",\"afk\":false}");
    proof {
        assert(final(out)@ =~= old(out)@ + presence_json(*presence));
    }
}

/// Builds the op-1 heartbeat frame.
pub fn heartbeat_payload(seq: Option<u64>) -> (r: Vec<u8>)
    ensures
        r@ == heartbeat_json(seq),
{
    let mut out: Vec<u8> = Vec::new();
    push_str_bytes(&mut out, "{\"op\":1,\"d\":");
    match seq {
        Some(n) => push_dec(&mut out, n),
        None => push_str_bytes(&mut out, "null"),
    }
    push_str_bytes(&mut out, "}");
    proof {
        assert(out@ =~= heartbeat_json(seq));
    }
    out
}

/// Builds the op-3 presence update frame.
pub fn presence_update_payload(presence: &PresenceData) -> (r: Vec<u8>)
    ensures
        r@ == presence_update_json(*presence),
{
    let mut out: Vec<u8> = Vec::new();
    push_str_bytes(&mut out, "{\"op\":3,\"d\":");
    push_presence(&mut out, presence);
    push_str_bytes(&mut out, "}");
    proof {
        assert(out@ =~= presence_update_json(*presence));
    }
    out
}

impl Shard {
    /// Builds the op-2 identify frame for this shard: its token, intents,
    /// identity and presence, with the fixed large threshold.
    pub fn identify_payload(&self) -> (r: Vec<u8>)
        ensures
            r@ == identify_json(
                encode_utf8(self.token@),
                self.intents.bits,
                self.shard_info.id.0,
                self.shard_info.total,
                self.presence,
            ),
    {
        let mut out: Vec<u8> = Vec::new();
        push_str_bytes(&mut out, "{\"op\":2,\"d\":{\"token\":\"");
        push_escaped(&mut out, self.expose_secret());
        push_str_bytes(&mut out, "\",\"intents\":");
        push_dec(&mut out, self.intents.bits);
        push_str_bytes(
            &mut out,
            ",\"properties\":{\"os\":\"linux\",\"browser\":\"gateway_shard\",\"device\":\"gateway_shard\"},\"compress\":false,\"large_threshold\":",
        );
        push_dec(&mut out, LARGE_THRESHOLD as u64);
        push_str_bytes(&mut out, ",\"shard\":[");
        push_dec(&mut out, self.shard_info.id.get() as u64);
        push_str_bytes(&mut out, ",");
        push_dec(&mut out, self.shard_info.total as u64);
        push_str_bytes(&mut out, "],\"presence\":");
        push_presence(&mut out, &self.presence);
        push_str_bytes(&mut out, "}}");
        proof {
            assert(out@ =~= identify_json(
                encode_utf8(self.token@),
                self.intents.bits,
                self.shard_info.id.0,
                self.shard_info.total,
                self.presence,
            ));
        }
        out
    }

    /// Builds the op-6 resume frame from the held session id and sequence.
    pub fn resume_payload(&self, session_id: &str, seq: u64) -> (r: Vec<u8>)
        ensures
            r@ == resume_json(encode_utf8(self.token@), encode_utf8(session_id@), seq),
    {
        let mut out: Vec<u8> = Vec::new();
        push_str_bytes(&mut out, "{\"op\":6,\"d\":{\"token\":\"");
        push_escaped(&mut out, self.expose_secret());
        push_str_bytes(&mut out, "\",\"session_id\":\"");
        push_escaped(&mut out, session_id);
        push_str_bytes(&mut out, "\",\"seq\":");
        push_dec(&mut out, seq);
        push_str_bytes(&mut out, "}}");
        proof {
            assert(out@ =~= resume_json(
                encode_utf8(self.token@),
                encode_utf8(session_id@),
                seq,
            ));
        }
        out
    }

    /// Builds the op-3 presence update frame carrying this shard's presence.
    pub fn update_presence(&self) -> (r: Vec<u8>)
        ensures
            r@ == presence_update_json(self.presence),
    {
        presence_update_payload(&self.presence)
    }
}

/// Builds the op-8 request-guild-members frame from a request the shard
/// built.
#[verifier::rlimit(100)]
#[verifier::spinoff_prover]
pub fn chunk_guild_payload(request: &GuildMembersRequest) -> (r: Vec<u8>)
    ensures
        r@ == chunk_guild_json(*request),
{
    let mut out: Vec<u8> = Vec::new();
    push_str_bytes(&mut out, "{\"op\":8,\"d\":{\"guild_id\":\"");
    push_dec(&mut out, request.guild_id.get());
    push_str_bytes(&mut out, "\"");
    let ghost head: Seq<u8> = out@;
    match &request.query {
        Some(q) => {
            push_str_bytes(&mut out, ",\"query\":\"");
            push_escaped(&mut out, q.as_str());
            push_str_bytes(&mut out, "\"");
        },
        None => {},
    }
    proof {
        assert(out@ =~= head + chunk_query_part(request.query));
    }
    let ghost with_query: Seq<u8> = out@;
    match &request.user_ids {
        Some(ids) => {
            push_str_bytes(&mut out, ",\"user_ids\":[");
            let ghost prefix: Seq<u8> = out@;
            let mut i: usize = 0;
            while i < ids.len()
                invariant
                    i <= ids@.len(),
                    out@ == prefix + user_ids_json(ids@.take(i as int)),
                decreases ids@.len() - i,
            {
                if i == 0 {
                    push_str_bytes(&mut out, "\"");
                } else {
                    push_str_bytes(&mut out, ",\"");
                }
                push_dec(&mut out, ids[i].get());
                push_str_bytes(&mut out, "\"");
                proof {
                    assert(ids@.take(i as int + 1).drop_last() =~= ids@.take(i as int));
                    assert(ids@.take(i as int + 1).last() == ids@[i as int]);
                    assert(out@ =~= prefix + user_ids_json(ids@.take(i as int + 1)));
                }
                i = i + 1;
            }
            proof {
                assert(ids@.take(ids@.len() as int) =~= ids@);
            }
            push_str_bytes(&mut out, "]");
        },
        None => {},
    }
    proof {
        assert(out@ =~= with_query + chunk_user_ids_part(request.user_ids));
    }
    let ghost with_ids: Seq<u8> = out@;
    push_str_bytes(&mut out, ",\"limit\":");
    let limit: u16 = match request.limit {
        Some(l) => l,
        None => 0,
    };
    push_dec(&mut out, limit as u64);
    push_str_bytes(&mut out, ",\"presences\":");
    if request.presences {
        push_str_bytes(&mut out, "true");
    } else {
        push_str_bytes(&mut out, "false");
    }
    let ghost with_tail: Seq<u8> = out@;
    match &request.nonce {
        Some(n) => {
            push_str_bytes(&mut out, ",\"nonce\":\"");
            push_escaped(&mut out, n.as_str());
            push_str_bytes(&mut out, "\"");
        },
        None => {},
    }
    proof {
        assert(out@ =~= with_tail + chunk_nonce_part(request.nonce));
    }
    push_str_bytes(&mut out, "}}");
    proof {
        assert(out@ =~= chunk_guild_json(*request));
    }
    out
}

} // verus!
