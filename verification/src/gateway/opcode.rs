//! The operation codes of the gateway protocol.

use vstd::prelude::*;

verus! {

/// What a frame is for.
#[derive(Clone, Copy, Debug, PartialEq, Eq, Structural, Hash)]
pub enum OpCode {
    /// An application event, with a sequence number.
    Dispatch,
    /// A liveness ping; from the service, a request to send one at once.
    Heartbeat,
    /// Starts a new session.
    Identify,
    /// Updates the client's presence.
    StatusUpdate,
    /// Joins, moves between or leaves voice channels.
    VoiceStateUpdate,
    /// Takes up a session that a disconnect interrupted.
    Resume,
    /// The service asks the client to reconnect.
    Reconnect,
    /// Asks for the members of a guild.
    RequestGuildMembers,
    /// The service refuses the session.
    InvalidSession,
    /// The first frame of a connection; announces the heartbeat interval.
    Hello,
    /// Acknowledges a heartbeat.
    HeartbeatAck,
}

impl OpCode {
    /// The number that stands for an operation code on the wire.
    pub open spec fn spec_number(self) -> u8 {
        match self {
            OpCode::Dispatch => 0,
            OpCode::Heartbeat => 1,
            OpCode::Identify => 2,
            OpCode::StatusUpdate => 3,
            OpCode::VoiceStateUpdate => 4,
            OpCode::Resume => 6,
            OpCode::Reconnect => 7,
            OpCode::RequestGuildMembers => 8,
            OpCode::InvalidSession => 9,
            OpCode::Hello => 10,
            OpCode::HeartbeatAck => 11,
        }
    }

    /// The operation code that a number stands for, if any.
    pub open spec fn spec_from_number(n: u8) -> Option<OpCode> {
        match n {
            0 => Some(OpCode::Dispatch),
            1 => Some(OpCode::Heartbeat),
            2 => Some(OpCode::Identify),
            3 => Some(OpCode::StatusUpdate),
            4 => Some(OpCode::VoiceStateUpdate),
            6 => Some(OpCode::Resume),
            7 => Some(OpCode::Reconnect),
            8 => Some(OpCode::RequestGuildMembers),
            9 => Some(OpCode::InvalidSession),
            10 => Some(OpCode::Hello),
            11 => Some(OpCode::HeartbeatAck),
            _ => None,
        }
    }

    /// The number that stands for this operation code on the wire.
    pub fn number(self) -> (n: u8)
        ensures
            n == self.spec_number(),
    {
        match self {
            OpCode::Dispatch => 0,
            OpCode::Heartbeat => 1,
            OpCode::Identify => 2,
            OpCode::StatusUpdate => 3,
            OpCode::VoiceStateUpdate => 4,
            OpCode::Resume => 6,
            OpCode::Reconnect => 7,
            OpCode::RequestGuildMembers => 8,
            OpCode::InvalidSession => 9,
            OpCode::Hello => 10,
            OpCode::HeartbeatAck => 11,
        }
    }

    /// The operation code that `n` stands for, if any.
    pub fn from_number(n: u8) -> (op: Option<OpCode>)
        ensures
            op == OpCode::spec_from_number(n),
    {
        match n {
            0 => Some(OpCode::Dispatch),
            1 => Some(OpCode::Heartbeat),
            2 => Some(OpCode::Identify),
            3 => Some(OpCode::StatusUpdate),
            4 => Some(OpCode::VoiceStateUpdate),
            6 => Some(OpCode::Resume),
            7 => Some(OpCode::Reconnect),
            8 => Some(OpCode::RequestGuildMembers),
            9 => Some(OpCode::InvalidSession),
            10 => Some(OpCode::Hello),
            11 => Some(OpCode::HeartbeatAck),
            _ => None,
        }
    }

    /// Whether frames with this code count against the command quota.
    /// Heartbeats alone do not.
    pub open spec fn spec_is_metered(self) -> bool {
        self != OpCode::Heartbeat
    }

    /// Whether frames with this code count against the command quota.
    pub fn is_metered(self) -> (metered: bool)
        ensures
            metered == self.spec_is_metered(),
    {
        !matches!(self, OpCode::Heartbeat)
    }
}

/// A code's number stands for that code and no other, and a number that
/// stands for a code is that code's number.
pub proof fn lemma_number_round_trip(op: OpCode, n: u8)
    ensures
        OpCode::spec_from_number(op.spec_number()) == Some(op),
        OpCode::spec_from_number(n) matches Some(found) ==> found.spec_number() == n,
{
}

} // verus!
