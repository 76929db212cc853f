//! Session invariants, proved over the protocol's transition function.
//!
//! The statements quantify over whole traces: a trace is a sequence of
//! `(received frame or failure, clock reading)` pairs, folded through
//! [`spec_handle_event`], the function that
//! [`crate::shard::Shard::handle_event`] is proved to implement exactly.

use vstd::prelude::*;
use crate::constants::{close_code_of, CloseCode};
use crate::error::GatewayError;
use crate::event::{Event, GatewayEvent, RecvError, ShardAction};
use crate::shard::{spec_do_heartbeat, spec_handle_event, spec_latency, ConnectionStage,
    HeartbeatOutcome, Shard};

verus! {

/// One received frame (or receive failure) together with the clock reading it
/// was handled at.
pub struct TraceInput {
    pub event: Result<GatewayEvent, RecvError>,
    pub now: u64,
}

/// The state after one step of the protocol.
pub open spec fn step_shard(s: Shard, input: TraceInput) -> Shard {
    spec_handle_event(s, input.event, input.now).shard
}

/// Whether one step emits the `Identify` action.
pub open spec fn emits_identify(s: Shard, input: TraceInput) -> bool {
    spec_handle_event(s, input.event, input.now).outcome == Ok::<
        Option<ShardAction>,
        GatewayError,
    >(Some(ShardAction::Identify))
}

/// The state after a whole trace of steps.
pub open spec fn run_shard(s: Shard, inputs: Seq<TraceInput>) -> Shard
    decreases inputs.len(),
{
    if inputs.len() == 0 {
        s
    } else {
        run_shard(step_shard(s, inputs[0]), inputs.drop_first())
    }
}

/// How many steps of a trace emit the `Identify` action.
pub open spec fn identify_count(s: Shard, inputs: Seq<TraceInput>) -> nat
    decreases inputs.len(),
{
    if inputs.len() == 0 {
        0
    } else {
        (if emits_identify(s, inputs[0]) {
            1nat
        } else {
            0nat
        }) + identify_count(step_shard(s, inputs[0]), inputs.drop_first())
    }
}

/// An `Identify` is emitted only out of Handshake, only for a Hello or a
/// server heartbeat request, and the step that emits it leaves Handshake for
/// Identifying.
pub proof fn lemma_identify_only_from_handshake(s: Shard, input: TraceInput)
    ensures
        emits_identify(s, input) ==> s.stage == ConnectionStage::Handshake && step_shard(
            s,
            input,
        ).stage == ConnectionStage::Identifying,
        emits_identify(s, input) ==> (input.event matches Ok(GatewayEvent::Hello(interval))
            || input.event matches Ok(GatewayEvent::Heartbeat(seq))),
{
}

/// No received event brings a shard back into Handshake: only reinitializing
/// the connection does.
pub proof fn lemma_no_return_to_handshake(s: Shard, input: TraceInput)
    ensures
        step_shard(s, input).stage == ConnectionStage::Handshake ==> s.stage
            == ConnectionStage::Handshake,
{
}

/// Out of any stage but Handshake, a trace of received events emits no
/// `Identify` at all.
pub proof fn lemma_no_identify_outside_handshake(s: Shard, inputs: Seq<TraceInput>)
    requires
        s.stage != ConnectionStage::Handshake,
    ensures
        identify_count(s, inputs) == 0,
    decreases inputs.len(),
{
    if inputs.len() > 0 {
        lemma_identify_only_from_handshake(s, inputs[0]);
        lemma_no_return_to_handshake(s, inputs[0]);
        lemma_no_identify_outside_handshake(step_shard(s, inputs[0]), inputs.drop_first());
    }
}

/// Within one session — one trace of received events, with no reinitialize in
/// between — `Identify` is emitted at most once, and only out of Handshake
/// after the server spoke (Hello, or an off-sequence heartbeat request).
pub proof fn lemma_identify_at_most_once(s: Shard, inputs: Seq<TraceInput>)
    ensures
        identify_count(s, inputs) <= 1,
    decreases inputs.len(),
{
    if inputs.len() > 0 {
        let next = step_shard(s, inputs[0]);
        if emits_identify(s, inputs[0]) {
            lemma_identify_only_from_handshake(s, inputs[0]);
            lemma_no_identify_outside_handshake(next, inputs.drop_first());
        } else {
            lemma_identify_at_most_once(next, inputs.drop_first());
        }
    }
}

/// A shard enters Connected only through a dispatched Ready (fresh session)
/// or a dispatched Resumed (recovered session).
pub proof fn lemma_connected_only_by_ready_or_resumed(s: Shard, input: TraceInput)
    ensures
        (step_shard(s, input).stage == ConnectionStage::Connected && s.stage
            != ConnectionStage::Connected) ==> (input.event matches Ok(
            GatewayEvent::Dispatch { event: Some(Event::Ready { .. }), .. },
        ) || input.event matches Ok(
            GatewayEvent::Dispatch { event: Some(Event::Resumed), .. },
        )),
{
}

/// Whether one input records a fresh session: a dispatched Ready.
pub open spec fn sets_resume(input: TraceInput) -> bool {
    input.event matches Ok(
        GatewayEvent::Dispatch { event: Some(Event::Ready { .. }), .. },
    )
}

/// Whether one input abandons the session beyond resuming: a non-resumable
/// session invalidation, or a SessionTimeout close.
pub open spec fn clears_resume(input: TraceInput) -> bool {
    ||| input.event matches Ok(GatewayEvent::InvalidateSession(false))
    ||| (input.event matches Err(RecvError::Closed(Some(frame))) && close_code_of(frame.code)
        == CloseCode::SessionTimeout)
}

/// Whether resume metadata is held after a trace: decided by the last setting
/// or clearing input, or carried over from the start when there is none.
pub open spec fn resume_held_after(held: bool, inputs: Seq<TraceInput>) -> bool
    decreases inputs.len(),
{
    if inputs.len() == 0 {
        held
    } else {
        let held_next = if sets_resume(inputs[0]) {
            true
        } else if clears_resume(inputs[0]) {
            false
        } else {
            held
        };
        resume_held_after(held_next, inputs.drop_first())
    }
}

/// One step holds resume metadata exactly when a Ready set it, an
/// invalidation cleared it, or it carries over unchanged.
pub proof fn lemma_resume_metadata_step(s: Shard, input: TraceInput)
    ensures
        (step_shard(s, input).resume_metadata is Some) == (if sets_resume(input) {
            true
        } else if clears_resume(input) {
            false
        } else {
            s.resume_metadata is Some
        }),
{
}

/// Resume metadata is held after a trace exactly while the last
/// `Dispatch(Ready)` has not been followed by a non-resumable invalidation
/// (`InvalidateSession(false)` or a SessionTimeout close).
pub proof fn lemma_resume_metadata_tracks_session(s: Shard, inputs: Seq<TraceInput>)
    ensures
        (run_shard(s, inputs).resume_metadata is Some) == resume_held_after(
            s.resume_metadata is Some,
            inputs,
        ),
    decreases inputs.len(),
{
    if inputs.len() > 0 {
        lemma_resume_metadata_step(s, inputs[0]);
        lemma_resume_metadata_tracks_session(step_shard(s, inputs[0]), inputs.drop_first());
    }
}

/// Whether one input restores the heartbeat acknowledgement: a HeartbeatAck,
/// or a dispatched Resumed (which marks the acknowledgement fresh).
pub open spec fn restores_ack(input: TraceInput) -> bool {
    ||| input.event matches Ok(GatewayEvent::HeartbeatAck)
    ||| input.event matches Ok(GatewayEvent::Dispatch { event: Some(Event::Resumed), .. })
}

/// Once a heartbeat is unacknowledged it stays so across any events until a
/// HeartbeatAck (or a dispatched Resumed) is processed. Together with the
/// contract of `Shard::heartbeat` — a successful send clears the flag — this
/// pins the acknowledgement tracking down.
pub proof fn lemma_unacknowledged_until_ack(s: Shard, inputs: Seq<TraceInput>)
    requires
        !s.last_heartbeat_acknowledged,
        forall|i: int| 0 <= i < inputs.len() ==> !restores_ack(#[trigger] inputs[i]),
    ensures
        !run_shard(s, inputs).last_heartbeat_acknowledged,
    decreases inputs.len(),
{
    if inputs.len() > 0 {
        assert(!restores_ack(inputs[0]));
        assert(forall|i: int|
            0 <= i < inputs.drop_first().len() ==> !restores_ack(
                #[trigger] inputs.drop_first()[i],
            ));
        lemma_unacknowledged_until_ack(step_shard(s, inputs[0]), inputs.drop_first());
    }
}

/// Whether a trace keeps the session's sequence discipline from state `s`:
/// every dispatch carries a sequence at least as large as the one held when
/// it arrives, and the session is never abandoned by an InvalidSequence
/// close.
pub open spec fn seq_discipline(s: Shard, inputs: Seq<TraceInput>) -> bool
    decreases inputs.len(),
{
    if inputs.len() == 0 {
        true
    } else {
        let head_ok = match inputs[0].event {
            Ok(GatewayEvent::Dispatch { seq, .. }) => seq >= s.seq,
            Err(RecvError::Closed(Some(frame))) => close_code_of(frame.code)
                != CloseCode::InvalidSequence,
            _ => true,
        };
        head_ok && seq_discipline(step_shard(s, inputs[0]), inputs.drop_first())
    }
}

/// `seq` never decreases within a session: under the sequence discipline —
/// the server hands out non-decreasing dispatch sequences, and the session is
/// not abandoned by an InvalidSequence close — the held sequence only grows.
pub proof fn lemma_seq_never_decreases(s: Shard, inputs: Seq<TraceInput>)
    requires
        seq_discipline(s, inputs),
    ensures
        run_shard(s, inputs).seq >= s.seq,
    decreases inputs.len(),
{
    if inputs.len() > 0 {
        lemma_seq_never_decreases(step_shard(s, inputs[0]), inputs.drop_first());
    }
}

/// Latency is reported, as a non-negative gap, exactly when both timestamps
/// exist and the acknowledgement is newer than the send.
pub proof fn lemma_latency_reported(s: Shard)
    ensures
        (spec_latency(s) is Some) <==> (s.last_heartbeat_sent matches Some(sent)
            && s.last_heartbeat_ack matches Some(ack) && ack > sent),
        spec_latency(s) matches Some(d) ==> s.last_heartbeat_sent matches Some(sent)
            && s.last_heartbeat_ack matches Some(ack) && d == ack - sent && d >= 0,
{
}

/// After a missed acknowledgement, the liveness timer reports unhealthy on
/// any tick past one interval after the send, instead of sending again.
pub proof fn lemma_missed_ack_unhealthy(s: Shard, now: u64)
    requires
        !s.last_heartbeat_acknowledged,
        s.heartbeat_interval matches Some(interval) && s.last_heartbeat_sent matches Some(sent)
            && now - sent >= interval,
    ensures
        spec_do_heartbeat(s, now) == HeartbeatOutcome::Unhealthy,
{
}

} // verus!
