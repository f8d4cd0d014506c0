//! The shard: what to do next, given what happened.
//!
//! A shard decides and its driver acts. The driver owns the transport, the
//! decompressor and the timers. It hands every thing that happens to the
//! shard, as a [`Signal`] or as a frame, with the time and a random number,
//! and carries out the one [`Action`] that the shard answers with.

use vstd::prelude::*;
use crate::gateway::backoff::Backoff;
use crate::gateway::backoff::BackoffState;
use crate::gateway::close::CloseClass;
use crate::gateway::close::ClosePolicy;
use crate::gateway::close::PolicyTable;
use crate::gateway::command::encode_parts;
use crate::gateway::command::encoded;
use crate::gateway::command::heartbeat_payload;
use crate::gateway::command::identify_payload;
use crate::gateway::command::is_plain;
use crate::gateway::command::resume_payload;
use crate::gateway::command::CommandEnvelope;
use crate::gateway::command::SendError;
use crate::gateway::frame::Control;
use crate::gateway::frame::ControlView;
use crate::gateway::frame::DecodedFrame;
use crate::gateway::frame::Frame;
use crate::gateway::heartbeat::Beat;
use crate::gateway::heartbeat::Heartbeat;
use crate::gateway::heartbeat::HeartbeatState;
use crate::gateway::opcode::OpCode;
use crate::gateway::ratelimit::Admission;
use crate::gateway::ratelimit::Bucket;
use crate::gateway::ratelimit::RateLimiter;
use crate::gateway::session::record_outcome;
use crate::gateway::session::recorded;
use crate::gateway::session::Session;
use crate::gateway::session::SessionState;
use crate::gateway::shard_id::ShardId;
use crate::gateway::theorems::lemma_well_formed_after;
use crate::gateway::theorems::lemma_well_formed_after_send;
use crate::gateway::theorems::Input;
use crate::gateway::theorems::Occurrence;

verus! {

/// Where a shard is in the life of its connection.
#[derive(Clone, Copy, Debug, PartialEq, Eq, Structural, Hash)]
pub enum ConnectionPhase {
    /// No connection, and none asked for.
    Disconnected,
    /// A transport is being opened.
    Connecting,
    /// The transport stands; the service has yet to say hello.
    WaitingHello,
    /// A new session is being asked for.
    Identifying,
    /// The session held is being taken up again.
    Resuming,
    /// The session runs.
    Connected,
    /// The connection is gone; the next attempt waits for its time.
    Reconnecting,
    /// The shard has been shut down, for good.
    Shutdown,
}

impl ConnectionPhase {
    /// Whether a handshake is under way. A handshake has a time limit.
    pub open spec fn spec_is_handshake(self) -> bool {
        self == ConnectionPhase::WaitingHello || self == ConnectionPhase::Identifying || self
            == ConnectionPhase::Resuming
    }

    /// Whether a transport is held or being opened.
    pub open spec fn spec_has_transport(self) -> bool {
        self == ConnectionPhase::Connecting || self.spec_is_handshake() || self
            == ConnectionPhase::Connected
    }

    /// Whether a handshake is under way.
    pub fn is_handshake(self) -> (handshake: bool)
        ensures
            handshake == self.spec_is_handshake(),
    {
        matches!(
            self,
            ConnectionPhase::WaitingHello | ConnectionPhase::Identifying
                | ConnectionPhase::Resuming
        )
    }

    /// Whether a transport is held or being opened.
    pub fn has_transport(self) -> (held: bool)
        ensures
            held == self.spec_has_transport(),
    {
        matches!(
            self,
            ConnectionPhase::Connecting | ConnectionPhase::WaitingHello
                | ConnectionPhase::Identifying | ConnectionPhase::Resuming
                | ConnectionPhase::Connected
        )
    }
}

/// Why a connection was given up.
#[derive(Clone, Copy, Debug, PartialEq, Eq, Structural, Hash)]
pub enum Fault {
    /// The transport failed: it was cut, it timed out, or it went silent. The
    /// shard reconnects, and resumes if it can.
    Transport,
    /// The service sent what the protocol does not allow. The shard
    /// reconnects and identifies anew, for the stream can not be trusted.
    Protocol,
    /// The service refused the session or its resume. The shard identifies
    /// anew.
    SessionRejected,
    /// The service refused the shard for good. The shard does not try again.
    Fatal,
}

/// What a handshake is waiting for before its command can go out.
#[derive(Clone, Copy, Debug, PartialEq, Eq, Structural, Hash)]
pub enum Pending {
    /// Nothing: the command is out, or there is none to send.
    Nothing,
    /// The fleet's leave to identify.
    Slot,
    /// The end of a wait, after which the fleet is asked again.
    Backoff,
    /// A token of the command quota.
    Token,
}

/// Something that happened, other than a frame.
#[derive(Clone, Copy, Debug, PartialEq, Eq, Structural, Hash)]
pub enum Signal {
    /// The caller wants the shard connected.
    Connect,
    /// The transport that was asked for stands.
    TransportEstablished,
    /// The transport is gone, or could not be opened. `code` is the close
    /// code, where the service gave one.
    TransportClosed { code: Option<u16> },
    /// A message arrived that could not be decoded.
    Undecodable,
    /// The heartbeat timer fired.
    HeartbeatDue,
    /// The wait before the next attempt to connect is over.
    BackoffElapsed,
    /// The handshake has taken longer than it may.
    HandshakeTimeout,
    /// The fleet lets this shard identify.
    IdentifySlotGranted,
    /// A wait that the shard asked for with [`Action::Retry`] is over.
    RetryElapsed,
    /// The caller wants the shard shut down.
    Shutdown,
}

/// What the driver is to do.
#[derive(Clone, Copy, Debug, PartialEq, Eq, Structural, Hash)]
pub enum Action {
    /// Nothing.
    Idle,
    /// Release the transport and the timers if any are held, then open a
    /// new transport: to the session's resume address if `resume`, and else
    /// to the service's entrance, with a decompressor that has seen nothing.
    Open { resume: bool },
    /// Wait for the service's hello, and signal a handshake timeout if the
    /// handshake is not through after `timeout_ms`.
    AwaitHello { timeout_ms: u64 },
    /// Ask the fleet for leave to identify, and signal when it is given.
    AwaitIdentifySlot,
    /// Send an identify.
    Identify,
    /// Send a resume for the session held, with this sequence number.
    Resume { sequence: u64 },
    /// Wait this long, then signal that the wait is over.
    Retry { after_ms: u64 },
    /// Send a heartbeat with this sequence number.
    Heartbeat { sequence: Option<u64> },
    /// Hand the frame on to the consumer, as an event.
    Forward,
    /// Release the transport and the timers, wait this long, then signal
    /// that the wait is over.
    Reconnect { delay_ms: u64 },
    /// Release the transport and the timers: the shard is shut down.
    Close,
    /// Release the transport and the timers and end the stream of events
    /// with an error: the service closed the connection with `code` and
    /// will not have the shard back.
    Fail { code: u16 },
}

/// The state of a shard, as mathematical values.
pub struct ShardState {
    pub id: ShardId,
    pub phase: ConnectionPhase,
    pub session: Option<Session>,
    /// The heartbeat manager of the connection. There is one while the
    /// session runs.
    pub heartbeat: Option<HeartbeatState>,
    pub bucket: Bucket,
    pub backoff: BackoffState,
    pub policy: PolicyTable,
    /// The heartbeat interval that the service announced on this connection.
    pub interval: u64,
    /// The resume address that the service announced on this connection. It
    /// becomes that of the session that begins on it.
    pub announced_url: Option<Seq<u8>>,
    pub pending: Pending,
    /// How long a handshake may take, in milliseconds.
    pub handshake_timeout: u64,
    /// Why the last connection was given up, until a session runs again.
    pub fault: Option<Fault>,
}

impl ShardState {
    /// Whether the state is one a shard can be in.
    pub open spec fn wf(self) -> bool {
        &&& self.bucket.wf()
        &&& self.backoff.wf()
        &&& self.heartbeat is Some <==> self.phase == ConnectionPhase::Connected
        &&& self.heartbeat matches Some(h) ==> !h.zombied
        &&& self.phase == ConnectionPhase::Connected || self.phase == ConnectionPhase::Resuming
            ==> self.session is Some
        &&& self.phase == ConnectionPhase::Identifying ==> self.session is None
        &&& self.pending != Pending::Nothing ==> self.phase == ConnectionPhase::Identifying
            || self.phase == ConnectionPhase::Resuming
    }

    /// The state of a shard that has yet to connect.
    pub open spec fn initial(
        id: ShardId,
        bucket: Bucket,
        backoff: BackoffState,
        policy: PolicyTable,
        handshake_timeout: u64,
        session: Option<Session>,
    ) -> ShardState {
        ShardState {
            id,
            phase: ConnectionPhase::Disconnected,
            session,
            heartbeat: None,
            bucket,
            backoff,
            policy,
            interval: 0,
            announced_url: None,
            pending: Pending::Nothing,
            handshake_timeout,
            fault: None,
        }
    }

    /// The sequence number of the last dispatch frame.
    pub open spec fn sequence(self) -> Option<u64> {
        match self.session {
            Some(session) => Some(session.sequence),
            None => None,
        }
    }

    /// A new attempt to connect begins: a resume if a session is held, and
    /// else a fresh start, with a full command quota.
    pub open spec fn opened(self, now: u64) -> (ShardState, Action) {
        let resume = self.session is Some;
        (
            ShardState {
                phase: ConnectionPhase::Connecting,
                heartbeat: None,
                pending: Pending::Nothing,
                interval: 0,
                announced_url: None,
                bucket: if resume {
                    self.bucket
                } else {
                    self.bucket.reset(now)
                },
                ..self
            },
            Action::Open { resume },
        )
    }

    /// The connection is given up because of `cause`, and the next attempt
    /// is put off. The session is kept if `keep`.
    pub open spec fn lost(self, now: u64, entropy: u64, keep: bool, cause: Fault) -> (
        ShardState,
        Action,
    ) {
        (
            ShardState {
                phase: ConnectionPhase::Reconnecting,
                session: if keep {
                    self.session
                } else {
                    None
                },
                heartbeat: None,
                pending: Pending::Nothing,
                backoff: self.backoff.failed(now),
                fault: Some(cause),
                ..self
            },
            Action::Reconnect { delay_ms: self.backoff.delay(now, entropy) },
        )
    }

    /// The transport is gone. What follows hangs on what the close code
    /// means.
    pub open spec fn closed(self, code: Option<u16>, now: u64, entropy: u64) -> (
        ShardState,
        Action,
    ) {
        match self.policy.classify_close(code) {
            CloseClass::Resumable => self.lost(now, entropy, true, Fault::Transport),
            CloseClass::NonResumable => self.lost(now, entropy, false, Fault::SessionRejected),
            CloseClass::Fatal => (
                ShardState {
                    phase: ConnectionPhase::Shutdown,
                    session: None,
                    heartbeat: None,
                    pending: Pending::Nothing,
                    fault: Some(Fault::Fatal),
                    ..self
                },
                Action::Fail {
                    code: match code {
                        Some(code) => code,
                        None => 0,
                    },
                },
            ),
        }
    }

    /// The service broke the protocol: what it sent can not be trusted, and
    /// neither can the session. Before a session runs the shard connects
    /// anew at once; later it goes the way of a lost connection.
    pub open spec fn violated(self, now: u64, entropy: u64) -> (ShardState, Action) {
        if self.phase == ConnectionPhase::WaitingHello || self.phase
            == ConnectionPhase::Identifying {
            (ShardState { session: None, fault: Some(Fault::Protocol), ..self }).opened(now)
        } else {
            self.lost(now, entropy, false, Fault::Protocol)
        }
    }

    /// The handshake's command is put to the command quota: it goes out if
    /// there is a token for it, and waits for one if not.
    pub open spec fn handshake_sent(self, now: u64) -> (ShardState, Action) {
        let op = if self.phase == ConnectionPhase::Identifying {
            OpCode::Identify
        } else {
            OpCode::Resume
        };
        let command = if self.phase == ConnectionPhase::Identifying {
            Some(Action::Identify)
        } else if self.phase == ConnectionPhase::Resuming {
            match self.session {
                Some(session) => Some(Action::Resume { sequence: session.sequence }),
                None => None,
            }
        } else {
            None
        };
        match command {
            None => (self, Action::Idle),
            Some(command) => match self.bucket.permitted(op, now).1 {
                Admission::Granted => (
                    ShardState {
                        bucket: self.bucket.permitted(op, now).0,
                        pending: Pending::Nothing,
                        ..self
                    },
                    command,
                ),
                Admission::Wait(ms) => (
                    ShardState {
                        bucket: self.bucket.permitted(op, now).0,
                        pending: Pending::Token,
                        ..self
                    },
                    Action::Retry { after_ms: ms },
                ),
            },
        }
    }

    /// The handshake is through: the session runs, the heartbeat starts and
    /// the backoff is back at its floor.
    pub open spec fn connected(self, now: u64, entropy: u64) -> ShardState {
        ShardState {
            phase: ConnectionPhase::Connected,
            heartbeat: Some(HeartbeatState::started(self.interval, entropy, now)),
            backoff: self.backoff.reset(),
            pending: Pending::Nothing,
            fault: None,
            ..self
        }
    }

    /// The service said hello: a resume follows if a session is held, and
    /// else an identify, for which the fleet is asked first.
    pub open spec fn greeted(self, interval: u64, url: Option<Seq<u8>>, now: u64) -> (
        ShardState,
        Action,
    ) {
        let heard = ShardState { interval, announced_url: url, ..self };
        if self.session is Some {
            (ShardState { phase: ConnectionPhase::Resuming, ..heard }).handshake_sent(now)
        } else {
            (
                ShardState {
                    phase: ConnectionPhase::Identifying,
                    pending: Pending::Slot,
                    ..heard
                },
                Action::AwaitIdentifySlot,
            )
        }
    }

    /// A dispatch frame arrived on a session: its sequence number is
    /// recorded, then it is handed on. One without a sequence number, or
    /// with one that is out of order, breaks the protocol.
    pub open spec fn dispatched(self, frame: Frame, now: u64, entropy: u64) -> (
        ShardState,
        Action,
    ) {
        match frame.sequence {
            Some(sequence) => if record_outcome(self.session, sequence) is Ok {
                let noted = ShardState { session: recorded(self.session, sequence), ..self };
                if self.phase == ConnectionPhase::Resuming && frame.control
                    == ControlView::Resumed {
                    (noted.connected(now, entropy), Action::Forward)
                } else {
                    (noted, Action::Forward)
                }
            } else {
                self.violated(now, entropy)
            },
            None => self.violated(now, entropy),
        }
    }

    /// The state after `signal` at the time `now`, and what the driver is to
    /// do. `entropy` is a random number.
    pub open spec fn after_signal(self, signal: Signal, now: u64, entropy: u64) -> (
        ShardState,
        Action,
    ) {
        if self.phase == ConnectionPhase::Shutdown {
            (self, Action::Idle)
        } else {
            match signal {
                Signal::Shutdown => (
                    ShardState {
                        phase: ConnectionPhase::Shutdown,
                        heartbeat: None,
                        pending: Pending::Nothing,
                        ..self
                    },
                    Action::Close,
                ),
                Signal::Connect => if self.phase == ConnectionPhase::Disconnected {
                    self.opened(now)
                } else {
                    (self, Action::Idle)
                },
                Signal::TransportEstablished => if self.phase == ConnectionPhase::Connecting {
                    (
                        ShardState { phase: ConnectionPhase::WaitingHello, ..self },
                        Action::AwaitHello { timeout_ms: self.handshake_timeout },
                    )
                } else {
                    (self, Action::Idle)
                },
                Signal::TransportClosed { code } => if self.phase.spec_has_transport() {
                    self.closed(code, now, entropy)
                } else {
                    (self, Action::Idle)
                },
                Signal::Undecodable => if self.phase.spec_is_handshake() || self.phase
                    == ConnectionPhase::Connected {
                    self.violated(now, entropy)
                } else {
                    (self, Action::Idle)
                },
                Signal::HeartbeatDue => match self.heartbeat {
                    Some(heartbeat) => if heartbeat.fired(now).1 == Beat::Send {
                        (
                            ShardState { heartbeat: Some(heartbeat.fired(now).0), ..self },
                            Action::Heartbeat { sequence: self.sequence() },
                        )
                    } else {
                        self.lost(now, entropy, true, Fault::Transport)
                    },
                    None => (self, Action::Idle),
                },
                Signal::BackoffElapsed => if self.phase == ConnectionPhase::Reconnecting {
                    self.opened(now)
                } else {
                    (self, Action::Idle)
                },
                Signal::HandshakeTimeout => if self.phase.spec_is_handshake() {
                    self.lost(now, entropy, true, Fault::Transport)
                } else {
                    (self, Action::Idle)
                },
                Signal::IdentifySlotGranted => if self.phase == ConnectionPhase::Identifying
                    && self.pending == Pending::Slot {
                    self.handshake_sent(now)
                } else {
                    (self, Action::Idle)
                },
                Signal::RetryElapsed => if self.pending == Pending::Token {
                    self.handshake_sent(now)
                } else if self.pending == Pending::Backoff {
                    (ShardState { pending: Pending::Slot, ..self }, Action::AwaitIdentifySlot)
                } else {
                    (self, Action::Idle)
                },
            }
        }
    }

    /// The state after a frame arrived while a new session was asked for.
    pub open spec fn identifying(self, frame: Frame, now: u64, entropy: u64) -> (
        ShardState,
        Action,
    ) {
        match frame.op {
            OpCode::Dispatch => match (frame.control, frame.sequence) {
                (ControlView::Ready { session_id }, Some(sequence)) => (
                    (ShardState {
                        session: Some(
                            Session { id: session_id, sequence, resume_url: self.announced_url },
                        ),
                        ..self
                    }).connected(now, entropy),
                    Action::Forward,
                ),
                _ => self.violated(now, entropy),
            },
            OpCode::InvalidSession => (
                ShardState {
                    session: None,
                    pending: Pending::Backoff,
                    backoff: self.backoff.failed(now),
                    fault: Some(Fault::SessionRejected),
                    ..self
                },
                Action::Retry { after_ms: self.backoff.delay(now, entropy) },
            ),
            OpCode::Heartbeat => (self, Action::Heartbeat { sequence: self.sequence() }),
            OpCode::HeartbeatAck => (self, Action::Idle),
            OpCode::Reconnect => self.lost(now, entropy, true, Fault::Transport),
            _ => self.violated(now, entropy),
        }
    }

    /// The state after a frame arrived while the session was being taken up
    /// again.
    pub open spec fn resuming(self, frame: Frame, now: u64, entropy: u64) -> (
        ShardState,
        Action,
    ) {
        match frame.op {
            OpCode::Dispatch => self.dispatched(frame, now, entropy),
            OpCode::InvalidSession => (
                ShardState {
                    session: None,
                    phase: ConnectionPhase::Identifying,
                    pending: Pending::Slot,
                    fault: Some(Fault::SessionRejected),
                    ..self
                },
                Action::AwaitIdentifySlot,
            ),
            OpCode::Heartbeat => (self, Action::Heartbeat { sequence: self.sequence() }),
            OpCode::HeartbeatAck => (self, Action::Idle),
            OpCode::Reconnect => self.lost(now, entropy, true, Fault::Transport),
            _ => self.violated(now, entropy),
        }
    }

    /// The state after a frame arrived on a running session.
    pub open spec fn running(self, frame: Frame, now: u64, entropy: u64) -> (ShardState, Action) {
        match frame.op {
            OpCode::Dispatch => self.dispatched(frame, now, entropy),
            OpCode::HeartbeatAck => (
                ShardState {
                    heartbeat: match self.heartbeat {
                        Some(heartbeat) => Some(heartbeat.acked()),
                        None => None,
                    },
                    ..self
                },
                Action::Idle,
            ),
            OpCode::Heartbeat => (
                ShardState {
                    heartbeat: match self.heartbeat {
                        Some(heartbeat) => Some(heartbeat.asked(now)),
                        None => None,
                    },
                    ..self
                },
                Action::Heartbeat { sequence: self.sequence() },
            ),
            OpCode::Reconnect => self.lost(now, entropy, true, Fault::Transport),
            OpCode::InvalidSession => if frame.control == (ControlView::InvalidSession {
                resumable: true,
            }) {
                self.lost(now, entropy, true, Fault::Transport)
            } else {
                self.lost(now, entropy, false, Fault::SessionRejected)
            },
            _ => self.violated(now, entropy),
        }
    }

    /// The state after `frame` arrived at the time `now`, and what the
    /// driver is to do. `entropy` is a random number.
    pub open spec fn after_frame(self, frame: Frame, now: u64, entropy: u64) -> (
        ShardState,
        Action,
    ) {
        match self.phase {
            ConnectionPhase::WaitingHello => match frame.control {
                ControlView::Hello { heartbeat_interval, resume_url } => if frame.op
                    == OpCode::Hello && heartbeat_interval > 0 {
                    self.greeted(heartbeat_interval, resume_url, now)
                } else {
                    self.violated(now, entropy)
                },
                _ => self.violated(now, entropy),
            },
            ConnectionPhase::Identifying => self.identifying(frame, now, entropy),
            ConnectionPhase::Resuming => self.resuming(frame, now, entropy),
            ConnectionPhase::Connected => self.running(frame, now, entropy),
            _ => (self, Action::Idle),
        }
    }

    /// When the heartbeat timer is to fire next. It is not to fire unless a
    /// heartbeat manager runs.
    pub open spec fn next_beat(self) -> Option<u64> {
        match self.heartbeat {
            Some(heartbeat) => Some(heartbeat.next_due),
            None => None,
        }
    }

    /// The address to open a transport to when the driver is told `action`:
    /// the resume address of the session held where the action is to open a
    /// transport for a resume, and none otherwise, which stands for the
    /// service's entrance.
    pub open spec fn address_for(self, action: Action) -> Option<Seq<u8>> {
        match (action, self.session) {
            (Action::Open { resume: true }, Some(session)) => session.resume_url,
            _ => None,
        }
    }

    /// The text that the driver puts on the transport when it is told
    /// `action`, for a client that `token` authenticates and that asks for
    /// the events that `intents` names. An action that sends nothing has
    /// none, and neither has a command that has none.
    pub open spec fn text_for(self, action: Action, token: Seq<u8>, intents: u64) -> Option<
        Seq<u8>,
    > {
        let text = match action {
            Action::Identify => if is_plain(token) {
                Some(
                    encoded(
                        OpCode::Identify,
                        identify_payload(
                            token,
                            intents,
                            self.id.spec_index(),
                            self.id.spec_total(),
                        ),
                    ),
                )
            } else {
                None
            },
            Action::Resume { sequence } => match self.session {
                Some(session) => if is_plain(token) && is_plain(session.id) {
                    Some(encoded(OpCode::Resume, resume_payload(token, session.id, sequence)))
                } else {
                    None
                },
                None => None,
            },
            Action::Heartbeat { sequence } => Some(
                encoded(OpCode::Heartbeat, heartbeat_payload(sequence)),
            ),
            _ => None,
        };
        match text {
            Some(Ok(text)) => Some(text),
            _ => None,
        }
    }

    /// The state after the caller asked to send a command with the code
    /// `op` and the payload `payload` at the time `now`, and the text to
    /// put on the transport, or why there is none.
    pub open spec fn after_send(self, op: OpCode, payload: Seq<u8>, now: u64) -> (
        ShardState,
        Result<Seq<u8>, SendError>,
    ) {
        if self.phase != ConnectionPhase::Connected {
            (self, Err(SendError::NotConnected))
        } else {
            match encoded(op, payload) {
                Err(e) => (self, Err(SendError::Encode(e))),
                Ok(text) => match self.bucket.permitted(op, now).1 {
                    Admission::Granted => (
                        ShardState { bucket: self.bucket.permitted(op, now).0, ..self },
                        Ok(text),
                    ),
                    Admission::Wait(ms) => (
                        ShardState { bucket: self.bucket.permitted(op, now).0, ..self },
                        Err(SendError::RateLimited(ms)),
                    ),
                },
            }
        }
    }
}

/// One shard.
///
/// A shard that is used as it is meant to be is always in exactly one phase,
/// and its parts fit that phase, as [`ShardState::wf`] says: a new shard is
/// so, and whatever happens to it leaves it so.
pub struct Shard {
    id: ShardId,
    phase: ConnectionPhase,
    session: SessionState,
    heartbeat: Option<Heartbeat>,
    limiter: RateLimiter,
    backoff: Backoff,
    policy: ClosePolicy,
    interval: u64,
    announced_url: Option<Vec<u8>>,
    pending: Pending,
    handshake_timeout: u64,
    fault: Option<Fault>,
}

impl View for Shard {
    type V = ShardState;

    closed spec fn view(&self) -> ShardState {
        ShardState {
            id: self.id,
            phase: self.phase,
            session: self.session@,
            heartbeat: match self.heartbeat {
                Some(heartbeat) => Some(heartbeat@),
                None => None,
            },
            bucket: self.limiter@,
            backoff: self.backoff@,
            policy: self.policy@,
            interval: self.interval,
            announced_url: match self.announced_url {
                Some(url) => Some(url@),
                None => None,
            },
            pending: self.pending,
            handshake_timeout: self.handshake_timeout,
            fault: self.fault,
        }
    }
}

impl Shard {
    /// A shard that has yet to connect. `session` is what the shard
    /// remembers of a session, if it was kept from an earlier run.
    pub fn new(
        id: ShardId,
        limiter: RateLimiter,
        backoff: Backoff,
        policy: ClosePolicy,
        handshake_timeout_ms: u64,
        session: SessionState,
    ) -> (shard: Self)
        ensures
            shard@ == ShardState::initial(
                id,
                limiter@,
                backoff@,
                policy@,
                handshake_timeout_ms,
                session@,
            ),
            shard@.wf(),
    {
        proof {
            use_type_invariant(&limiter);
            use_type_invariant(&backoff);
        }
        Shard {
            id,
            phase: ConnectionPhase::Disconnected,
            session,
            heartbeat: None,
            limiter,
            backoff,
            policy,
            interval: 0,
            announced_url: None,
            pending: Pending::Nothing,
            handshake_timeout: handshake_timeout_ms,
            fault: None,
        }
    }

    fn open(&mut self, now: u64) -> (action: Action)
        ensures
            final(self)@ == old(self)@.opened(now).0,
            action == old(self)@.opened(now).1,
    {
        let resume: bool = self.session.is_active();
        self.phase = ConnectionPhase::Connecting;
        self.heartbeat = None;
        self.pending = Pending::Nothing;
        self.interval = 0;
        self.announced_url = None;
        if !resume {
            self.limiter.reset(now);
        }
        Action::Open { resume }
    }

    fn lose(&mut self, now: u64, entropy: u64, keep: bool, cause: Fault) -> (action: Action)
        ensures
            final(self)@ == old(self)@.lost(now, entropy, keep, cause).0,
            action == old(self)@.lost(now, entropy, keep, cause).1,
    {
        if !keep {
            self.session.invalidate();
        }
        self.fault = Some(cause);
        self.phase = ConnectionPhase::Reconnecting;
        self.heartbeat = None;
        self.pending = Pending::Nothing;
        let delay_ms: u64 = self.backoff.next_delay(now, entropy);
        Action::Reconnect { delay_ms }
    }

    fn close(&mut self, code: Option<u16>, now: u64, entropy: u64) -> (action: Action)
        ensures
            final(self)@ == old(self)@.closed(code, now, entropy).0,
            action == old(self)@.closed(code, now, entropy).1,
    {
        match self.policy.classify_close(code) {
            CloseClass::Resumable => self.lose(now, entropy, true, Fault::Transport),
            CloseClass::NonResumable => self.lose(now, entropy, false, Fault::SessionRejected),
            CloseClass::Fatal => {
                self.phase = ConnectionPhase::Shutdown;
                self.fault = Some(Fault::Fatal);
                self.session.invalidate();
                self.heartbeat = None;
                self.pending = Pending::Nothing;
                Action::Fail {
                    code: match code {
                        Some(code) => code,
                        None => 0,
                    },
                }
            },
        }
    }

    fn violate(&mut self, now: u64, entropy: u64) -> (action: Action)
        ensures
            final(self)@ == old(self)@.violated(now, entropy).0,
            action == old(self)@.violated(now, entropy).1,
    {
        if matches!(self.phase, ConnectionPhase::WaitingHello | ConnectionPhase::Identifying) {
            self.session.invalidate();
            self.fault = Some(Fault::Protocol);
            self.open(now)
        } else {
            self.lose(now, entropy, false, Fault::Protocol)
        }
    }

    fn send_handshake(&mut self, now: u64) -> (action: Action)
        ensures
            final(self)@ == old(self)@.handshake_sent(now).0,
            action == old(self)@.handshake_sent(now).1,
    {
        let identifying: bool = matches!(self.phase, ConnectionPhase::Identifying);
        let op: OpCode = if identifying {
            OpCode::Identify
        } else {
            OpCode::Resume
        };
        let command: Option<Action> = if identifying {
            Some(Action::Identify)
        } else if matches!(self.phase, ConnectionPhase::Resuming) {
            match self.session.sequence() {
                Some(sequence) => Some(Action::Resume { sequence }),
                None => None,
            }
        } else {
            None
        };
        match command {
            None => Action::Idle,
            Some(command) => match self.limiter.permit(op, now) {
                Admission::Granted => {
                    self.pending = Pending::Nothing;
                    command
                },
                Admission::Wait(ms) => {
                    self.pending = Pending::Token;
                    Action::Retry { after_ms: ms }
                },
            },
        }
    }

    fn connect(&mut self, now: u64, entropy: u64)
        ensures
            final(self)@ == old(self)@.connected(now, entropy),
    {
        self.phase = ConnectionPhase::Connected;
        self.heartbeat = Some(Heartbeat::start(self.interval, entropy, now));
        self.backoff.reset();
        self.pending = Pending::Nothing;
        self.fault = None;
    }

    fn greet(&mut self, interval: u64, url: &Option<Vec<u8>>, now: u64) -> (action: Action)
        ensures
            final(self)@ == old(self)@.greeted(
                interval,
                match url {
                    Some(url) => Some(url@),
                    None => None,
                },
                now,
            ).0,
            action == old(self)@.greeted(
                interval,
                match url {
                    Some(url) => Some(url@),
                    None => None,
                },
                now,
            ).1,
    {
        self.interval = interval;
        self.announced_url = match url {
            Some(url) => Some(url.clone()),
            None => None,
        };
        if self.session.is_active() {
            self.phase = ConnectionPhase::Resuming;
            self.send_handshake(now)
        } else {
            self.phase = ConnectionPhase::Identifying;
            self.pending = Pending::Slot;
            Action::AwaitIdentifySlot
        }
    }

    fn dispatch(&mut self, frame: &DecodedFrame, now: u64, entropy: u64) -> (action: Action)
        ensures
            final(self)@ == old(self)@.dispatched(frame@, now, entropy).0,
            action == old(self)@.dispatched(frame@, now, entropy).1,
    {
        match frame.sequence {
            Some(sequence) => match self.session.record_dispatch(sequence) {
                Ok(()) => {
                    if matches!(self.phase, ConnectionPhase::Resuming) && matches!(
                        frame.control,
                        Control::Resumed
                    ) {
                        self.connect(now, entropy);
                    }
                    Action::Forward
                },
                Err(_) => self.violate(now, entropy),
            },
            None => self.violate(now, entropy),
        }
    }

    fn sequence_seen(&self) -> (sequence: Option<u64>)
        ensures
            sequence == self@.sequence(),
    {
        self.session.sequence()
    }

    /// Takes note of `signal`, which happened at the time `now`, and says
    /// what the driver is to do. `entropy` is a random number: it spreads
    /// the waits that the shard asks for.
    pub fn handle(&mut self, signal: Signal, now: u64, entropy: u64) -> (action: Action)
        ensures
            final(self)@ == old(self)@.after_signal(signal, now, entropy).0,
            action == old(self)@.after_signal(signal, now, entropy).1,
            old(self)@.wf() ==> final(self)@.wf(),
    {
        proof {
            if self@.wf() {
                lemma_well_formed_after(
                    self@,
                    Occurrence { input: Input::Signal(signal), now, entropy },
                );
            }
        }
        if matches!(self.phase, ConnectionPhase::Shutdown) {
            return Action::Idle;
        }
        match signal {
            Signal::Shutdown => {
                self.phase = ConnectionPhase::Shutdown;
                self.heartbeat = None;
                self.pending = Pending::Nothing;
                Action::Close
            },
            Signal::Connect => {
                if matches!(self.phase, ConnectionPhase::Disconnected) {
                    self.open(now)
                } else {
                    Action::Idle
                }
            },
            Signal::TransportEstablished => {
                if matches!(self.phase, ConnectionPhase::Connecting) {
                    self.phase = ConnectionPhase::WaitingHello;
                    Action::AwaitHello { timeout_ms: self.handshake_timeout }
                } else {
                    Action::Idle
                }
            },
            Signal::TransportClosed { code } => {
                if self.phase.has_transport() {
                    self.close(code, now, entropy)
                } else {
                    Action::Idle
                }
            },
            Signal::Undecodable => {
                if self.phase.is_handshake() || matches!(self.phase, ConnectionPhase::Connected) {
                    self.violate(now, entropy)
                } else {
                    Action::Idle
                }
            },
            Signal::HeartbeatDue => {
                let beat: Option<Beat> = match &mut self.heartbeat {
                    Some(heartbeat) => Some(heartbeat.on_due(now)),
                    None => None,
                };
                match beat {
                    Some(Beat::Send) => Action::Heartbeat { sequence: self.sequence_seen() },
                    Some(_) => self.lose(now, entropy, true, Fault::Transport),
                    None => Action::Idle,
                }
            },
            Signal::BackoffElapsed => {
                if matches!(self.phase, ConnectionPhase::Reconnecting) {
                    self.open(now)
                } else {
                    Action::Idle
                }
            },
            Signal::HandshakeTimeout => {
                if self.phase.is_handshake() {
                    self.lose(now, entropy, true, Fault::Transport)
                } else {
                    Action::Idle
                }
            },
            Signal::IdentifySlotGranted => {
                if matches!(self.phase, ConnectionPhase::Identifying) && matches!(
                    self.pending,
                    Pending::Slot
                ) {
                    self.send_handshake(now)
                } else {
                    Action::Idle
                }
            },
            Signal::RetryElapsed => {
                if matches!(self.pending, Pending::Token) {
                    self.send_handshake(now)
                } else if matches!(self.pending, Pending::Backoff) {
                    self.pending = Pending::Slot;
                    Action::AwaitIdentifySlot
                } else {
                    Action::Idle
                }
            },
        }
    }

    fn on_identifying(&mut self, frame: &DecodedFrame, now: u64, entropy: u64) -> (action: Action)
        ensures
            final(self)@ == old(self)@.identifying(frame@, now, entropy).0,
            action == old(self)@.identifying(frame@, now, entropy).1,
    {
        match frame.op {
            OpCode::Dispatch => match (&frame.control, frame.sequence) {
                (Control::Ready { session_id }, Some(sequence)) => {
                    let url: Option<Vec<u8>> = match &self.announced_url {
                        Some(url) => Some(url.clone()),
                        None => None,
                    };
                    self.session.establish(session_id.clone(), sequence, url);
                    self.connect(now, entropy);
                    Action::Forward
                },
                _ => self.violate(now, entropy),
            },
            OpCode::InvalidSession => {
                self.session.invalidate();
                self.fault = Some(Fault::SessionRejected);
                self.pending = Pending::Backoff;
                let after_ms: u64 = self.backoff.next_delay(now, entropy);
                Action::Retry { after_ms }
            },
            OpCode::Heartbeat => Action::Heartbeat { sequence: self.sequence_seen() },
            OpCode::HeartbeatAck => Action::Idle,
            OpCode::Reconnect => self.lose(now, entropy, true, Fault::Transport),
            _ => self.violate(now, entropy),
        }
    }

    fn on_resuming(&mut self, frame: &DecodedFrame, now: u64, entropy: u64) -> (action: Action)
        ensures
            final(self)@ == old(self)@.resuming(frame@, now, entropy).0,
            action == old(self)@.resuming(frame@, now, entropy).1,
    {
        match frame.op {
            OpCode::Dispatch => self.dispatch(frame, now, entropy),
            OpCode::InvalidSession => {
                self.session.invalidate();
                self.fault = Some(Fault::SessionRejected);
                self.phase = ConnectionPhase::Identifying;
                self.pending = Pending::Slot;
                Action::AwaitIdentifySlot
            },
            OpCode::Heartbeat => Action::Heartbeat { sequence: self.sequence_seen() },
            OpCode::HeartbeatAck => Action::Idle,
            OpCode::Reconnect => self.lose(now, entropy, true, Fault::Transport),
            _ => self.violate(now, entropy),
        }
    }

    fn on_running(&mut self, frame: &DecodedFrame, now: u64, entropy: u64) -> (action: Action)
        ensures
            final(self)@ == old(self)@.running(frame@, now, entropy).0,
            action == old(self)@.running(frame@, now, entropy).1,
    {
        match frame.op {
            OpCode::Dispatch => self.dispatch(frame, now, entropy),
            OpCode::HeartbeatAck => {
                match &mut self.heartbeat {
                    Some(heartbeat) => {
                        heartbeat.on_ack();
                    },
                    None => {},
                }
                Action::Idle
            },
            OpCode::Heartbeat => {
                match &mut self.heartbeat {
                    Some(heartbeat) => {
                        heartbeat.on_request(now);
                    },
                    None => {},
                }
                Action::Heartbeat { sequence: self.sequence_seen() }
            },
            OpCode::Reconnect => self.lose(now, entropy, true, Fault::Transport),
            OpCode::InvalidSession => {
                if matches!(frame.control, Control::InvalidSession { resumable: true }) {
                    self.lose(now, entropy, true, Fault::Transport)
                } else {
                    self.lose(now, entropy, false, Fault::SessionRejected)
                }
            },
            _ => self.violate(now, entropy),
        }
    }

    /// Takes note of `frame`, which arrived at the time `now`, and says what
    /// the driver is to do. `entropy` is a random number.
    ///
    /// A dispatch frame's sequence number is recorded before the answer is
    /// [`Action::Forward`]: the session keeps count whether or not the
    /// consumer keeps up.
    pub fn handle_frame(&mut self, frame: &DecodedFrame, now: u64, entropy: u64) -> (action:
        Action)
        ensures
            final(self)@ == old(self)@.after_frame(frame@, now, entropy).0,
            action == old(self)@.after_frame(frame@, now, entropy).1,
            old(self)@.wf() ==> final(self)@.wf(),
    {
        proof {
            if self@.wf() {
                lemma_well_formed_after(
                    self@,
                    Occurrence { input: Input::Frame(frame@), now, entropy },
                );
            }
        }
        match self.phase {
            ConnectionPhase::WaitingHello => match &frame.control {
                Control::Hello { heartbeat_interval, resume_url } => {
                    if matches!(frame.op, OpCode::Hello) && *heartbeat_interval > 0 {
                        self.greet(*heartbeat_interval, resume_url, now)
                    } else {
                        self.violate(now, entropy)
                    }
                },
                _ => self.violate(now, entropy),
            },
            ConnectionPhase::Identifying => self.on_identifying(frame, now, entropy),
            ConnectionPhase::Resuming => self.on_resuming(frame, now, entropy),
            ConnectionPhase::Connected => self.on_running(frame, now, entropy),
            _ => Action::Idle,
        }
    }

    /// Asks to send `command` at the time `now`, and gives the text to put
    /// on the transport.
    ///
    /// A shard whose session does not run sends nothing. A command that has
    /// no text is refused before it costs a token. Every command but a
    /// heartbeat then takes a token of the command quota; where there is
    /// none, the error says after how long to ask again.
    pub fn send(&mut self, command: &CommandEnvelope, now: u64) -> (text: Result<
        Vec<u8>,
        SendError,
    >)
        ensures
            final(self)@ == old(self)@.after_send(command.op, command.payload@, now).0,
            match text {
                Ok(t) => old(self)@.after_send(command.op, command.payload@, now).1 == Ok::<
                    Seq<u8>,
                    SendError,
                >(t@),
                Err(e) => old(self)@.after_send(command.op, command.payload@, now).1 == Err::<
                    Seq<u8>,
                    SendError,
                >(e),
            },
            old(self)@.wf() ==> final(self)@.wf(),
    {
        proof {
            if self@.wf() {
                lemma_well_formed_after_send(self@, command.op, command.payload@, now);
            }
        }
        if !matches!(self.phase, ConnectionPhase::Connected) {
            return Err(SendError::NotConnected);
        }
        match encode_parts(command.op, command.payload.as_slice()) {
            Err(e) => Err(SendError::Encode(e)),
            Ok(text) => match self.limiter.permit(command.op, now) {
                Admission::Granted => Ok(text),
                Admission::Wait(ms) => Err(SendError::RateLimited(ms)),
            },
        }
    }

    /// When the heartbeat timer is to fire next: when the next heartbeat of
    /// the manager is due, and never while none runs.
    pub fn heartbeat_due(&self) -> (at: Option<u64>)
        ensures
            at == self@.next_beat(),
    {
        match &self.heartbeat {
            Some(heartbeat) => Some(heartbeat.next_due()),
            None => None,
        }
    }

    /// The address to open a transport to when the shard answers with
    /// `action`: the session's resume address for a resume, and `None`, the
    /// service's entrance, for anything else.
    pub fn open_address(&self, action: Action) -> (address: Option<Vec<u8>>)
        ensures
            match address {
                Some(a) => self@.address_for(action) == Some(a@),
                None => self@.address_for(action) is None,
            },
    {
        match action {
            Action::Open { resume: true } => self.session.resume_url(),
            _ => None,
        }
    }

    /// The text to put on the transport when the shard answers with
    /// `action`: the identify, the resume or the heartbeat that the action
    /// asks for. `token` authenticates the client and `intents` names the
    /// events it asks for. An action that sends nothing has no text, and
    /// neither has a command whose token or session identifier can not
    /// stand between double quotes as it is, or whose frame would be too
    /// long.
    pub fn command_text(&self, action: Action, token: &[u8], intents: u64) -> (text: Option<
        Vec<u8>,
    >)
        ensures
            match text {
                Some(t) => self@.text_for(action, token@, intents) == Some(t@),
                None => self@.text_for(action, token@, intents) is None,
            },
    {
        let command: Option<CommandEnvelope> = match action {
            Action::Identify => CommandEnvelope::identify(token, intents, self.id),
            Action::Resume { sequence } => match self.session.session_id() {
                Some(id) => CommandEnvelope::resume(token, id.as_slice(), sequence),
                None => None,
            },
            Action::Heartbeat { sequence } => Some(CommandEnvelope::heartbeat(sequence)),
            _ => None,
        };
        match command {
            Some(command) => match encode_parts(command.op, command.payload.as_slice()) {
                Ok(text) => Some(text),
                Err(_) => None,
            },
            None => None,
        }
    }

    /// Which shard of the fleet this is.
    pub fn id(&self) -> (id: ShardId)
        ensures
            id == self@.id,
    {
        self.id
    }

    /// Where the shard is in the life of its connection.
    pub fn phase(&self) -> (phase: ConnectionPhase)
        ensures
            phase == self@.phase,
    {
        self.phase
    }

    /// What the shard remembers of its session.
    pub fn session(&self) -> (session: &SessionState)
        ensures
            session@ == self@.session,
    {
        &self.session
    }

    /// The heartbeat manager of the connection, while the session runs.
    pub fn heartbeat(&self) -> (heartbeat: &Option<Heartbeat>)
        ensures
            match heartbeat {
                Some(h) => self@.heartbeat == Some(h@),
                None => self@.heartbeat is None,
            },
    {
        &self.heartbeat
    }

    /// The limiter on the commands of the shard.
    pub fn limiter(&self) -> (limiter: &RateLimiter)
        ensures
            limiter@ == self@.bucket,
    {
        &self.limiter
    }

    /// Why the last connection was given up. `None` while none was, and
    /// again once a session runs.
    pub fn fault(&self) -> (fault: Option<Fault>)
        ensures
            fault == self@.fault,
    {
        self.fault
    }

    /// What the handshake is waiting for.
    pub fn pending(&self) -> (pending: Pending)
        ensures
            pending == self@.pending,
    {
        self.pending
    }
}

} // verus!
