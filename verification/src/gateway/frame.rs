//! What arrives from the gateway, decoded.

use vstd::prelude::*;
use crate::gateway::opcode::OpCode;

verus! {

/// What could not be decoded.
#[derive(Clone, Copy, Debug, PartialEq, Eq, Structural, Hash)]
pub enum DecodeError {
    /// The compressed stream is corrupt or incomplete.
    Compression,
    /// The text is not a frame.
    Malformed,
}

/// What a frame tells the shard itself, beyond the event it may carry.
#[derive(Clone, Debug, PartialEq, Eq)]
pub enum Control {
    /// Nothing.
    Nothing,
    /// The connection's heartbeat interval in milliseconds, and the address
    /// at which a session begun on this connection can be resumed.
    Hello { heartbeat_interval: u64, resume_url: Option<Vec<u8>> },
    /// The session is refused; `resumable` says whether it can still be
    /// taken up again.
    InvalidSession { resumable: bool },
    /// A session has begun, with this identifier.
    Ready { session_id: Vec<u8> },
    /// The session has been taken up again.
    Resumed,
}

/// [`Control`], as mathematical values.
pub enum ControlView {
    Nothing,
    Hello { heartbeat_interval: u64, resume_url: Option<Seq<u8>> },
    InvalidSession { resumable: bool },
    Ready { session_id: Seq<u8> },
    Resumed,
}

impl View for Control {
    type V = ControlView;

    open spec fn view(&self) -> ControlView {
        match self {
            Control::Nothing => ControlView::Nothing,
            Control::Hello { heartbeat_interval, resume_url } => ControlView::Hello {
                heartbeat_interval: *heartbeat_interval,
                resume_url: match resume_url {
                    Some(url) => Some(url@),
                    None => None,
                },
            },
            Control::InvalidSession { resumable } => ControlView::InvalidSession {
                resumable: *resumable,
            },
            Control::Ready { session_id } => ControlView::Ready { session_id: session_id@ },
            Control::Resumed => ControlView::Resumed,
        }
    }
}

/// A frame, as mathematical values.
pub struct Frame {
    pub op: OpCode,
    pub sequence: Option<u64>,
    pub event: Option<Seq<u8>>,
    pub control: ControlView,
    pub data: Seq<u8>,
}

impl Frame {
    /// Whether the frame has a sequence number if and only if it is a
    /// dispatch frame, and an event name only if it is one.
    pub open spec fn consistent(self) -> bool {
        &&& self.sequence is Some <==> self.op == OpCode::Dispatch
        &&& self.event is Some ==> self.op == OpCode::Dispatch
    }
}

/// One frame from the gateway.
#[derive(Clone, Debug, PartialEq, Eq)]
pub struct DecodedFrame {
    /// What the frame is for.
    pub op: OpCode,
    /// The frame's place in the session's stream of events. Dispatch frames
    /// have one, and no others.
    pub sequence: Option<u64>,
    /// The name of the event that a dispatch frame carries.
    pub event: Option<Vec<u8>>,
    /// What the frame tells the shard itself.
    pub control: Control,
    /// The frame's payload, as it came.
    pub data: Vec<u8>,
}

impl View for DecodedFrame {
    type V = Frame;

    open spec fn view(&self) -> Frame {
        Frame {
            op: self.op,
            sequence: self.sequence,
            event: match self.event {
                Some(name) => Some(name@),
                None => None,
            },
            control: self.control@,
            data: self.data@,
        }
    }
}

/// One application event, as it is handed on to the shard's consumer.
#[derive(Clone, Debug, PartialEq, Eq)]
pub struct DecodedEvent {
    /// The name of the event.
    pub name: Option<Vec<u8>>,
    /// The event's place in the session's stream of events.
    pub sequence: Option<u64>,
    /// The event's payload, as it came.
    pub data: Vec<u8>,
}

/// An event, as mathematical values.
pub struct Event {
    pub name: Option<Seq<u8>>,
    pub sequence: Option<u64>,
    pub data: Seq<u8>,
}

impl View for DecodedEvent {
    type V = Event;

    open spec fn view(&self) -> Event {
        Event {
            name: match self.name {
                Some(name) => Some(name@),
                None => None,
            },
            sequence: self.sequence,
            data: self.data@,
        }
    }
}

impl DecodedFrame {
    /// The event that the frame carries.
    pub fn into_event(self) -> (event: DecodedEvent)
        ensures
            event@ == (Event { name: self@.event, sequence: self@.sequence, data: self@.data }),
    {
        DecodedEvent { name: self.event, sequence: self.sequence, data: self.data }
    }
}

} // verus!
