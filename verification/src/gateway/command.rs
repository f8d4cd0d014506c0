//! What a shard sends: commands, and their text.

use vstd::prelude::*;
use vstd::string::StringSliceAdditionalSpecFns;
use crate::gateway::opcode::OpCode;
use crate::gateway::shard_id::ShardId;
use crate::text::decimal;
use crate::text::push_all;
use crate::text::push_decimal;

verus! {

/// The most bytes the service takes in one frame.
pub const MAX_FRAME_LEN: usize = 4096;

/// Why a command has no text.
#[derive(Clone, Copy, Debug, PartialEq, Eq, Structural, Hash)]
pub enum EncodeError {
    /// The command has no payload.
    EmptyPayload,
    /// The frame would be longer than the service takes.
    TooLarge,
}

/// Why a command was not sent.
#[derive(Clone, Copy, Debug, PartialEq, Eq, Structural, Hash)]
pub enum SendError {
    /// The quota is used up. The command can be sent again after this many
    /// milliseconds.
    RateLimited(u64),
    /// The shard has no session to send on.
    NotConnected,
    /// The command has no text.
    Encode(EncodeError),
}

/// One outbound instruction: a heartbeat, an identify, a resume, or a
/// command of the application. `payload` is the JSON text of the command's
/// data.
#[derive(Clone, Debug, PartialEq, Eq)]
pub struct CommandEnvelope {
    pub op: OpCode,
    pub payload: Vec<u8>,
}

/// The text of a frame with the code `op` and the payload `payload`.
pub open spec fn framed(op: OpCode, payload: Seq<u8>) -> Seq<u8> {
    "{\"op\":".spec_bytes() + decimal(op.spec_number() as nat) + ",\"d\":".spec_bytes() + payload
        + "}".spec_bytes()
}

/// The text of a command, or why it has none.
pub open spec fn encoded(op: OpCode, payload: Seq<u8>) -> Result<Seq<u8>, EncodeError> {
    if payload.len() == 0 {
        Err(EncodeError::EmptyPayload)
    } else if framed(op, payload).len() > MAX_FRAME_LEN {
        Err(EncodeError::TooLarge)
    } else {
        Ok(framed(op, payload))
    }
}

/// Whether a text can stand between double quotes as it is: it holds no
/// double quote, no backslash and no control character.
pub open spec fn is_plain(text: Seq<u8>) -> bool {
    forall|i: int|
        0 <= i < text.len() ==> #[trigger] text[i] >= 0x20 && text[i] != 0x22 && text[i] != 0x5c
}

/// The payload of a heartbeat: the last sequence number seen, or `null`.
pub open spec fn heartbeat_payload(sequence: Option<u64>) -> Seq<u8> {
    match sequence {
        Some(sequence) => decimal(sequence as nat),
        None => "null".spec_bytes(),
    }
}

/// The payload of a resume.
pub open spec fn resume_payload(token: Seq<u8>, session_id: Seq<u8>, sequence: u64) -> Seq<u8> {
    "{\"token\":\"".spec_bytes() + token + "\",\"session_id\":\"".spec_bytes() + session_id
        + "\",\"seq\":".spec_bytes() + decimal(sequence as nat) + "}".spec_bytes()
}

/// The payload of an identify.
pub open spec fn identify_payload(token: Seq<u8>, intents: u64, index: u64, total: u64) -> Seq<
    u8,
> {
    "{\"token\":\"".spec_bytes() + token + "\",\"intents\":".spec_bytes() + decimal(
        intents as nat,
    ) + ",\"shard\":[".spec_bytes() + decimal(index as nat) + ",".spec_bytes() + decimal(
        total as nat,
    ) + "]}".spec_bytes()
}

/// Whether `text` can stand between double quotes as it is.
pub fn plain(text: &[u8]) -> (ok: bool)
    ensures
        ok == is_plain(text@),
{
    let mut i: usize = 0;
    while i < text.len()
        invariant
            i <= text.len(),
            forall|j: int|
                0 <= j < i ==> #[trigger] text@[j] >= 0x20 && text@[j] != 0x22 && text@[j]
                    != 0x5c,
        decreases text.len() - i,
    {
        let b: u8 = text[i];
        if b < 0x20 || b == 0x22 || b == 0x5c {
            return false;
        }
        i += 1;
    }
    true
}

impl CommandEnvelope {
    /// A heartbeat that reports `sequence` as the last sequence number seen.
    pub fn heartbeat(sequence: Option<u64>) -> (command: Self)
        ensures
            command.op == OpCode::Heartbeat,
            command.payload@ == heartbeat_payload(sequence),
    {
        let mut payload: Vec<u8> = Vec::new();
        match sequence {
            Some(sequence) => push_decimal(&mut payload, sequence),
            None => push_all(&mut payload, "null".as_bytes()),
        }
        CommandEnvelope { op: OpCode::Heartbeat, payload }
    }

    /// A resume of the session `session_id` after the dispatch frame
    /// `sequence`, by the client that `token` authenticates. There is none
    /// where the token or the identifier can not stand between double quotes
    /// as it is.
    pub fn resume(token: &[u8], session_id: &[u8], sequence: u64) -> (command: Option<Self>)
        ensures
            match command {
                Some(c) => is_plain(token@) && is_plain(session_id@) && c.op == OpCode::Resume
                    && c.payload@ == resume_payload(token@, session_id@, sequence),
                None => !is_plain(token@) || !is_plain(session_id@),
            },
    {
        if !plain(token) || !plain(session_id) {
            return None;
        }
        let mut payload: Vec<u8> = Vec::new();
        push_all(&mut payload, "{\"token\":\"".as_bytes());
        push_all(&mut payload, token);
        push_all(&mut payload, "\",\"session_id\":\"".as_bytes());
        push_all(&mut payload, session_id);
        push_all(&mut payload, "\",\"seq\":".as_bytes());
        push_decimal(&mut payload, sequence);
        push_all(&mut payload, "}".as_bytes());
        Some(CommandEnvelope { op: OpCode::Resume, payload })
    }

    /// An identify of the shard `shard` by the client that `token`
    /// authenticates, which asks for the events that `intents` names. There
    /// is none where the token can not stand between double quotes as it is.
    pub fn identify(token: &[u8], intents: u64, shard: ShardId) -> (command: Option<Self>)
        ensures
            match command {
                Some(c) => is_plain(token@) && c.op == OpCode::Identify && c.payload@
                    == identify_payload(token@, intents, shard.spec_index(), shard.spec_total()),
                None => !is_plain(token@),
            },
    {
        if !plain(token) {
            return None;
        }
        let mut payload: Vec<u8> = Vec::new();
        push_all(&mut payload, "{\"token\":\"".as_bytes());
        push_all(&mut payload, token);
        push_all(&mut payload, "\",\"intents\":".as_bytes());
        push_decimal(&mut payload, intents);
        push_all(&mut payload, ",\"shard\":[".as_bytes());
        push_decimal(&mut payload, shard.index());
        push_all(&mut payload, ",".as_bytes());
        push_decimal(&mut payload, shard.total());
        push_all(&mut payload, "]}".as_bytes());
        Some(CommandEnvelope { op: OpCode::Identify, payload })
    }
}

/// The text of a frame with the code `op` and the payload `payload`: what
/// [`encode`] gives for a command.
pub fn encode_parts(op: OpCode, payload: &[u8]) -> (text: Result<Vec<u8>, EncodeError>)
    ensures
        match text {
            Ok(t) => encoded(op, payload@) == Ok::<Seq<u8>, EncodeError>(t@),
            Err(e) => encoded(op, payload@) == Err::<Seq<u8>, EncodeError>(e),
        },
{
    if payload.len() == 0 {
        return Err(EncodeError::EmptyPayload);
    }
    let mut text: Vec<u8> = Vec::new();
    push_all(&mut text, "{\"op\":".as_bytes());
    push_decimal(&mut text, op.number() as u64);
    push_all(&mut text, ",\"d\":".as_bytes());
    let ghost head = text@;
    if payload.len() > MAX_FRAME_LEN || text.len() > MAX_FRAME_LEN || payload.len() + 1
        > MAX_FRAME_LEN - text.len() {
        assert(framed(op, payload@).len() == head.len() + payload@.len() + "}".spec_bytes().len());
        proof {
            reveal_strlit("}");
            vstd::string::is_ascii_spec_bytes("}");
        }
        return Err(EncodeError::TooLarge);
    }
    push_all(&mut text, payload);
    push_all(&mut text, "}".as_bytes());
    proof {
        reveal_strlit("}");
        vstd::string::is_ascii_spec_bytes("}");
        assert(text@ =~= framed(op, payload@));
    }
    Ok(text)
}

/// The text of a command. A command without a payload has none, and neither
/// has one whose frame would be longer than [`MAX_FRAME_LEN`].
pub fn encode(command: &CommandEnvelope) -> (text: Result<Vec<u8>, EncodeError>)
    ensures
        match text {
            Ok(t) => encoded(command.op, command.payload@) == Ok::<Seq<u8>, EncodeError>(t@),
            Err(e) => encoded(command.op, command.payload@) == Err::<Seq<u8>, EncodeError>(e),
        },
{
    encode_parts(command.op, command.payload.as_slice())
}

} // verus!
