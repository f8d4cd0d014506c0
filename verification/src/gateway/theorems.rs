//! What holds of a shard whatever happens to it.

use vstd::prelude::*;
use crate::gateway::backoff::lemma_delay_bounds;
use crate::gateway::close::CloseClass;
use crate::gateway::command::encoded;
use crate::gateway::command::SendError;
use crate::gateway::frame::ControlView;
use crate::gateway::frame::Frame;
use crate::gateway::opcode::OpCode;
use crate::gateway::ratelimit::lemma_acquired;
use crate::gateway::ratelimit::Admission;
use crate::gateway::shard::Action;
use crate::gateway::shard::ConnectionPhase;
use crate::gateway::shard::Fault;
use crate::gateway::shard::ShardState;
use crate::gateway::shard::Signal;

verus! {

/// One thing that happens to a shard.
pub enum Input {
    Signal(Signal),
    Frame(Frame),
}

/// One thing that happens to a shard, with the time at which it happens and
/// the random number that is at hand then.
pub struct Occurrence {
    pub input: Input,
    pub now: u64,
    pub entropy: u64,
}

/// The state after `occurrence`, and what the driver is to do.
pub open spec fn after(state: ShardState, occurrence: Occurrence) -> (ShardState, Action) {
    match occurrence.input {
        Input::Signal(signal) => state.after_signal(signal, occurrence.now, occurrence.entropy),
        Input::Frame(frame) => state.after_frame(frame, occurrence.now, occurrence.entropy),
    }
}

/// The state after all of `trace` has happened, first to last.
pub open spec fn after_all(state: ShardState, trace: Seq<Occurrence>) -> ShardState
    decreases trace.len(),
{
    if trace.len() == 0 {
        state
    } else {
        after_all(after(state, trace[0]).0, trace.drop_first())
    }
}

/// How often the driver is told to reconnect while `trace` happens.
pub open spec fn reconnects(state: ShardState, trace: Seq<Occurrence>) -> nat
    decreases trace.len(),
{
    if trace.len() == 0 {
        0
    } else {
        let here: nat = if after(state, trace[0]).1 is Reconnect {
            1
        } else {
            0
        };
        here + reconnects(after(state, trace[0]).0, trace.drop_first())
    }
}

/// Whether the wait before the next attempt to connect ends within `trace`.
pub open spec fn backoff_elapses(trace: Seq<Occurrence>) -> bool {
    exists|i: int|
        0 <= i < trace.len() && (#[trigger] trace[i]).input == Input::Signal(
            Signal::BackoffElapsed,
        )
}

/// A shard is always in exactly one phase, and its parts fit that phase:
/// what happens to a shard in a well-formed state leaves it in one.
pub proof fn lemma_well_formed_after(state: ShardState, occurrence: Occurrence)
    requires
        state.wf(),
    ensures
        after(state, occurrence).0.wf(),
        after(state, occurrence).0.id == state.id,
        after(state, occurrence).0.policy == state.policy,
{
    let now = occurrence.now;
    let entropy = occurrence.entropy;
    lemma_delay_bounds(state.backoff, now, entropy);
    lemma_acquired(state.bucket, now);
    match occurrence.input {
        Input::Signal(signal) => {},
        Input::Frame(frame) => {},
    }
}

/// A shard in a well-formed state is in one after anything that happens to
/// it, and after everything.
pub proof fn lemma_well_formed_after_all(state: ShardState, trace: Seq<Occurrence>)
    requires
        state.wf(),
    ensures
        after_all(state, trace).wf(),
    decreases trace.len(),
{
    if trace.len() > 0 {
        lemma_well_formed_after(state, trace[0]);
        lemma_well_formed_after_all(after(state, trace[0]).0, trace.drop_first());
    }
}

/// Whether a shard may go from the phase `from` to the phase `to` in one
/// step. It may always stay where it is and it may always be shut down;
/// from `Shutdown` it goes nowhere.
pub open spec fn may_follow(from: ConnectionPhase, to: ConnectionPhase) -> bool {
    ||| to == from
    ||| from != ConnectionPhase::Shutdown && to == ConnectionPhase::Shutdown
    ||| from == ConnectionPhase::Disconnected && to == ConnectionPhase::Connecting
    ||| from == ConnectionPhase::Connecting && (to == ConnectionPhase::WaitingHello || to
        == ConnectionPhase::Reconnecting)
    ||| from == ConnectionPhase::WaitingHello && (to == ConnectionPhase::Identifying || to
        == ConnectionPhase::Resuming || to == ConnectionPhase::Connecting || to
        == ConnectionPhase::Reconnecting)
    ||| from == ConnectionPhase::Identifying && (to == ConnectionPhase::Connected || to
        == ConnectionPhase::Connecting || to == ConnectionPhase::Reconnecting)
    ||| from == ConnectionPhase::Resuming && (to == ConnectionPhase::Connected || to
        == ConnectionPhase::Identifying || to == ConnectionPhase::Reconnecting)
    ||| from == ConnectionPhase::Connected && to == ConnectionPhase::Reconnecting
    ||| from == ConnectionPhase::Reconnecting && to == ConnectionPhase::Connecting
}

/// A shard changes its phase along the edges of [`may_follow`] and no
/// others, whatever happens to it; and asking to send never changes it.
pub proof fn lemma_phases_follow_edges(state: ShardState, occurrence: Occurrence)
    requires
        state.wf(),
    ensures
        may_follow(state.phase, after(state, occurrence).0.phase),
{
    match occurrence.input {
        Input::Signal(signal) => {},
        Input::Frame(frame) => {},
    }
}

/// A session begins with a ready event and in no other way: if a shard that
/// held no session holds one after a step, the step was the arrival of the
/// ready event while a session was asked for, and the shard is connected.
pub proof fn lemma_sessions_begin_with_ready(state: ShardState, occurrence: Occurrence)
    requires
        state.wf(),
        state.session is None,
        after(state, occurrence).0.session is Some,
    ensures
        state.phase == ConnectionPhase::Identifying,
        after(state, occurrence).0.phase == ConnectionPhase::Connected,
        after(state, occurrence).1 == Action::Forward,
        match occurrence.input {
            Input::Frame(frame) => frame.op == OpCode::Dispatch && Some(
                after(state, occurrence).0.session->0.sequence,
            ) == frame.sequence && frame.control == (ControlView::Ready {
                session_id: after(state, occurrence).0.session->0.id,
            }),
            Input::Signal(_) => false,
        },
{
    match occurrence.input {
        Input::Signal(signal) => {},
        Input::Frame(frame) => {},
    }
}

/// Asking to send leaves a well-formed state well-formed, and changes
/// nothing but the command quota.
pub proof fn lemma_well_formed_after_send(state: ShardState, op: OpCode, payload: Seq<u8>, now: u64)
    requires
        state.wf(),
    ensures
        state.after_send(op, payload, now).0.wf(),
        state.after_send(op, payload, now).0 == (ShardState {
            bucket: state.after_send(op, payload, now).0.bucket,
            ..state
        }),
{
    lemma_acquired(state.bucket, now);
}

/// Shutdown is final: a shard that has been shut down stays so and asks for
/// nothing, whatever happens.
pub proof fn lemma_shutdown_is_terminal(state: ShardState, occurrence: Occurrence)
    requires
        state.phase == ConnectionPhase::Shutdown,
    ensures
        after(state, occurrence) == (state, Action::Idle),
{
}

/// A shutdown is obeyed in any phase: the shard is shut down, and the driver
/// is told to release what it holds, unless the shard was shut down before.
pub proof fn lemma_shutdown_from_anywhere(state: ShardState, now: u64, entropy: u64)
    ensures
        state.after_signal(Signal::Shutdown, now, entropy).0.phase == ConnectionPhase::Shutdown,
        state.phase != ConnectionPhase::Shutdown ==> state.after_signal(
            Signal::Shutdown,
            now,
            entropy,
        ).1 == Action::Close,
{
}

/// While a shard waits to reconnect, nothing moves it but the end of the
/// wait and a shutdown.
pub proof fn lemma_reconnecting_waits(state: ShardState, occurrence: Occurrence)
    requires
        state.phase == ConnectionPhase::Reconnecting,
        occurrence.input != Input::Signal(Signal::BackoffElapsed),
        occurrence.input != Input::Signal(Signal::Shutdown),
        state.wf(),
    ensures
        after(state, occurrence) == (state, Action::Idle),
{
}

proof fn lemma_no_reconnect_while_waiting(state: ShardState, trace: Seq<Occurrence>)
    requires
        state.wf(),
        state.phase == ConnectionPhase::Reconnecting || state.phase == ConnectionPhase::Shutdown,
        !backoff_elapses(trace),
    ensures
        reconnects(state, trace) == 0,
        after_all(state, trace).phase == ConnectionPhase::Reconnecting || after_all(
            state,
            trace,
        ).phase == ConnectionPhase::Shutdown,
    decreases trace.len(),
{
    if trace.len() > 0 {
        let first = trace[0];
        let rest = trace.drop_first();
        assert(first.input != Input::Signal(Signal::BackoffElapsed));
        assert(!backoff_elapses(rest)) by {
            if backoff_elapses(rest) {
                let i = choose|i: int|
                    0 <= i < rest.len() && (#[trigger] rest[i]).input == Input::Signal(
                        Signal::BackoffElapsed,
                    );
                assert(trace[i + 1] == rest[i]);
            }
        }
        lemma_well_formed_after(state, first);
        if state.phase == ConnectionPhase::Reconnecting && first.input != Input::Signal(
            Signal::Shutdown,
        ) {
            lemma_reconnecting_waits(state, first);
        }
        lemma_no_reconnect_while_waiting(after(state, first).0, rest);
    }
}

/// A heartbeat that is not acknowledged before the next one is due costs the
/// connection exactly once.
///
/// On a running session with a heartbeat out, the fire of the heartbeat
/// timer takes the shard to `Reconnecting` and tells the driver to
/// reconnect; the session is kept, to be resumed. Whatever else happens
/// until the wait before the next attempt is over, further fires of the
/// timer among it, the driver is not told to reconnect a second time.
pub proof fn lemma_missed_ack_reconnects_once(
    state: ShardState,
    now: u64,
    entropy: u64,
    later: Seq<Occurrence>,
)
    requires
        state.wf(),
        state.phase == ConnectionPhase::Connected,
        state.heartbeat->0.ack_pending,
        !backoff_elapses(later),
    ensures
        state.after_signal(Signal::HeartbeatDue, now, entropy).0.phase
            == ConnectionPhase::Reconnecting,
        state.after_signal(Signal::HeartbeatDue, now, entropy).1 == (Action::Reconnect {
            delay_ms: state.backoff.delay(now, entropy),
        }),
        state.after_signal(Signal::HeartbeatDue, now, entropy).0.session == state.session,
        state.after_signal(Signal::HeartbeatDue, now, entropy).0.fault == Some(Fault::Transport),
        reconnects(
            state,
            seq![Occurrence { input: Input::Signal(Signal::HeartbeatDue), now, entropy }] + later,
        ) == 1,
{
    let due = Occurrence { input: Input::Signal(Signal::HeartbeatDue), now, entropy };
    let trace = seq![due] + later;
    assert(trace[0] == due);
    assert(trace.drop_first() =~= later);
    lemma_well_formed_after(state, due);
    lemma_no_reconnect_while_waiting(after(state, due).0, later);
}

/// A heartbeat that was acknowledged in time costs nothing: on a running
/// session with no heartbeat out, the fire of the heartbeat timer sends the
/// next one, and the session runs on.
pub proof fn lemma_acked_heartbeat_goes_on(state: ShardState, now: u64, entropy: u64)
    requires
        state.wf(),
        state.phase == ConnectionPhase::Connected,
        !state.heartbeat->0.ack_pending,
    ensures
        state.after_signal(Signal::HeartbeatDue, now, entropy).0.phase
            == ConnectionPhase::Connected,
        state.after_signal(Signal::HeartbeatDue, now, entropy).1 == (Action::Heartbeat {
            sequence: state.sequence(),
        }),
        state.after_signal(Signal::HeartbeatDue, now, entropy).0.heartbeat->0.ack_pending,
{
}

/// The shard as it stands when the service has said hello on the connection
/// that follows the close of `state`'s connection with `code`.
pub open spec fn greeted_after_close(
    state: ShardState,
    code: Option<u16>,
    hello: Frame,
    now: u64,
    entropy: u64,
) -> (ShardState, Action) {
    let closed = state.after_signal(Signal::TransportClosed { code }, now, entropy).0;
    let opening = closed.after_signal(Signal::BackoffElapsed, now, entropy).0;
    let waiting = opening.after_signal(Signal::TransportEstablished, now, entropy).0;
    waiting.after_frame(hello, now, entropy)
}

/// A resume is attempted if and only if a session is held and the close code
/// of the connection before allows a resume. In every other case the session
/// is forgotten first, and the next attempt is a fresh identify.
///
/// `state` is any state in which a transport is held, `code` a close code
/// that is not fatal, and `hello` the hello on the next connection.
pub proof fn lemma_resume_iff_held_and_resumable(
    state: ShardState,
    code: Option<u16>,
    hello: Frame,
    now: u64,
    entropy: u64,
)
    requires
        state.wf(),
        state.phase.spec_has_transport(),
        state.policy.classify_close(code) != CloseClass::Fatal,
        hello.op == OpCode::Hello,
        hello.control matches ControlView::Hello { heartbeat_interval, .. } && heartbeat_interval
            > 0,
    ensures
        ({
            let resumable = state.session is Some && state.policy.classify_close(code)
                == CloseClass::Resumable;
            let closed = state.after_signal(Signal::TransportClosed { code }, now, entropy);
            let opening = closed.0.after_signal(Signal::BackoffElapsed, now, entropy);
            let greeted = greeted_after_close(state, code, hello, now, entropy);
            &&& closed.0.phase == ConnectionPhase::Reconnecting
            &&& closed.1 is Reconnect
            &&& closed.0.session == if resumable {
                state.session
            } else {
                None
            }
            &&& opening.1 == Action::Open { resume: resumable }
            &&& greeted.0.phase == ConnectionPhase::Resuming <==> resumable
            &&& resumable ==> greeted.0.session == state.session && (greeted.1
                == (Action::Resume { sequence: state.session->0.sequence }) || greeted.1 is Retry)
            &&& !resumable ==> greeted.0.phase == ConnectionPhase::Identifying
                && greeted.0.session is None && greeted.1 == Action::AwaitIdentifySlot
        }),
{
    let closed = state.after_signal(Signal::TransportClosed { code }, now, entropy).0;
    let opening = closed.after_signal(Signal::BackoffElapsed, now, entropy).0;
    let waiting = opening.after_signal(Signal::TransportEstablished, now, entropy).0;
    assert(closed.phase == ConnectionPhase::Reconnecting);
    assert(opening.phase == ConnectionPhase::Connecting);
    assert(waiting.phase == ConnectionPhase::WaitingHello);
    assert(waiting.session == closed.session);
}

/// What is handed on has been recorded: when the shard answers a frame with
/// `Forward`, the frame is a dispatch frame with a sequence number, and that
/// number is the session's last.
pub proof fn lemma_forwarded_is_recorded(state: ShardState, frame: Frame, now: u64, entropy: u64)
    requires
        state.wf(),
        state.after_frame(frame, now, entropy).1 == Action::Forward,
    ensures
        frame.op == OpCode::Dispatch,
        frame.sequence is Some,
        state.after_frame(frame, now, entropy).0.sequence() == frame.sequence,
        state.session matches Some(before) ==> before.sequence <= frame.sequence->0,
{
}

/// A heartbeat is never held back by the command quota, and takes nothing
/// from it: on a running session, a heartbeat that has a text is sent, and
/// the shard is as it was.
pub proof fn lemma_heartbeat_is_never_limited(state: ShardState, payload: Seq<u8>, now: u64)
    requires
        state.phase == ConnectionPhase::Connected,
        encoded(OpCode::Heartbeat, payload) is Ok,
    ensures
        state.after_send(OpCode::Heartbeat, payload, now) == (
            state,
            Ok::<Seq<u8>, SendError>(encoded(OpCode::Heartbeat, payload)->Ok_0),
        ),
{
}

/// Any other command takes a token when it is sent and is refused when
/// there is none: what the quota answers decides.
pub proof fn lemma_commands_are_metered(state: ShardState, op: OpCode, payload: Seq<u8>, now: u64)
    requires
        state.wf(),
        state.phase == ConnectionPhase::Connected,
        op != OpCode::Heartbeat,
        encoded(op, payload) is Ok,
    ensures
        state.after_send(op, payload, now).0.bucket == state.bucket.acquired(now).0,
        match state.bucket.acquired(now).1 {
            Admission::Granted => state.after_send(op, payload, now).1 is Ok,
            Admission::Wait(ms) => ms > 0 && state.after_send(op, payload, now).1 == Err::<
                Seq<u8>,
                SendError,
            >(SendError::RateLimited(ms)),
        },
{
    lemma_acquired(state.bucket, now);
}

} // verus!
