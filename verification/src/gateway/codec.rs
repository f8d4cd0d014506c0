//! Frames to and from text.
//!
//! A frame is one JSON object. Its keys `t` (the event's name), `s` (the
//! sequence number) and `op` (the operation code) come before its key `d`
//! (the payload), which comes last. The codec takes the three from the text
//! before the payload's key and hands the payload on as it came, but for the
//! few values that the shard itself needs: those it reads out.

use vstd::prelude::*;
use vstd::string::StringSliceAdditionalSpecFns;
use crate::gateway::frame::Control;
use crate::gateway::frame::ControlView;
use crate::gateway::frame::DecodeError;
use crate::gateway::frame::DecodedFrame;
use crate::gateway::frame::Frame;
use crate::gateway::opcode::OpCode;
use crate::gateway::scan::find;
use crate::gateway::command::framed;
use crate::gateway::opcode::lemma_number_round_trip;
use crate::gateway::scan::first_match;
use crate::gateway::scan::lemma_decimal_reads_back;
use crate::gateway::scan::lemma_first_match_is;
use crate::gateway::scan::lemma_number_at_decimal;
use crate::text::decimal;
use crate::gateway::scan::lemma_first_match;
use crate::gateway::scan::matches_at;
use crate::gateway::scan::number;
use crate::gateway::scan::number_at;
use crate::gateway::scan::quoted;
use crate::gateway::scan::quoted_at;
use crate::gateway::scan::stands_at;

verus! {

/// The key of the operation code.
pub open spec fn key_op() -> Seq<u8> {
    "\"op\":".spec_bytes()
}

/// The key of the sequence number.
pub open spec fn key_s() -> Seq<u8> {
    "\"s\":".spec_bytes()
}

/// The key of the event's name.
pub open spec fn key_t() -> Seq<u8> {
    "\"t\":".spec_bytes()
}

/// The key of the payload.
pub open spec fn key_d() -> Seq<u8> {
    "\"d\":".spec_bytes()
}

/// The key of the heartbeat interval in the payload of a hello.
pub open spec fn key_interval() -> Seq<u8> {
    "\"heartbeat_interval\":".spec_bytes()
}

/// The key of the resume address in the payload of a hello, with the quote
/// that opens the address.
pub open spec fn key_resume_url() -> Seq<u8> {
    "\"resume_gateway_url\":\"".spec_bytes()
}

/// The key of the session's identifier in the payload of a ready event, with
/// the quote that opens the identifier.
pub open spec fn key_session_id() -> Seq<u8> {
    "\"session_id\":\"".spec_bytes()
}

/// The name of the event that opens a session.
pub open spec fn name_ready() -> Seq<u8> {
    "READY".spec_bytes()
}

/// The name of the event that confirms that a session has been resumed.
pub open spec fn name_resumed() -> Seq<u8> {
    "RESUMED".spec_bytes()
}

/// Whether a text has the outline of a frame: it begins with an opening and
/// ends with a closing brace.
pub open spec fn is_object(raw: Seq<u8>) -> bool {
    raw.len() >= 2 && raw[0] == 0x7b && raw[raw.len() - 1] == 0x7d
}

/// Where the payload's key stands, or the length of the text if there is no
/// such key: the frame's own keys are looked for before this place.
pub open spec fn head_len(raw: Seq<u8>) -> int {
    match first_match(raw, key_d(), 0) {
        Some(at) => at,
        None => raw.len() as int,
    }
}

/// Where the value of a key of the frame begins.
pub open spec fn value_of(raw: Seq<u8>, key: Seq<u8>) -> Option<int> {
    match first_match(raw.take(head_len(raw)), key, 0) {
        Some(at) => Some(at + key.len()),
        None => None,
    }
}

/// The payload: what stands between the payload's key and the brace that
/// closes the frame.
pub open spec fn data_of(raw: Seq<u8>) -> Seq<u8> {
    match first_match(raw, key_d(), 0) {
        Some(at) => raw.subrange(at + key_d().len(), raw.len() - 1),
        None => Seq::empty(),
    }
}

/// The operation code of a frame. There is none where the key is missing,
/// where no number follows it, or where the number stands for no code.
pub open spec fn opcode_of(raw: Seq<u8>) -> Option<OpCode> {
    match value_of(raw, key_op()) {
        Some(at) => match number_at(raw, at) {
            Some(n) => if n <= 255 {
                OpCode::spec_from_number(n as u8)
            } else {
                None
            },
            None => None,
        },
        None => None,
    }
}

/// The number that follows a key, if the key is there: `Some(None)` where
/// the key is missing or `null` follows it, `None` where something else
/// follows it that is not a number.
pub open spec fn number_of(raw: Seq<u8>, key: Seq<u8>) -> Option<Option<u64>> {
    match value_of(raw, key) {
        None => Some(None),
        Some(at) => if matches_at(raw, "null".spec_bytes(), at) {
            Some(None)
        } else {
            match number_at(raw, at) {
                Some(n) => Some(Some(n)),
                None => None,
            }
        },
    }
}

/// The text that follows a key, if the key is there: `Some(None)` where the
/// key is missing or `null` follows it, `None` where something else follows
/// it that is not a text in double quotes without escapes.
pub open spec fn text_of(raw: Seq<u8>, key: Seq<u8>) -> Option<Option<Seq<u8>>> {
    match value_of(raw, key) {
        None => Some(None),
        Some(at) => if matches_at(raw, "null".spec_bytes(), at) {
            Some(None)
        } else if matches_at(raw, "\"".spec_bytes(), at) {
            match quoted_at(raw, at + 1) {
                Some(text) => Some(Some(text)),
                None => None,
            }
        } else {
            None
        },
    }
}

/// A text in a payload: what stands between `key`, which ends with the
/// quote that opens the text, and the next double quote. `Some(None)` where
/// the key is missing, `None` where the text does not end or holds an
/// escape.
pub open spec fn quoted_in(data: Seq<u8>, key: Seq<u8>) -> Option<Option<Seq<u8>>> {
    match first_match(data, key, 0) {
        None => Some(None),
        Some(at) => match quoted_at(data, at + key.len()) {
            Some(text) => Some(Some(text)),
            None => None,
        },
    }
}

/// What a hello's payload tells the shard. A hello has to announce a
/// heartbeat interval of more than nothing.
pub open spec fn hello_of(data: Seq<u8>) -> Option<ControlView> {
    match first_match(data, key_interval(), 0) {
        None => None,
        Some(at) => match (number_at(data, at + key_interval().len()), quoted_in(
            data,
            key_resume_url(),
        )) {
            (Some(interval), Some(resume_url)) => if interval > 0 {
                Some(ControlView::Hello { heartbeat_interval: interval, resume_url })
            } else {
                None
            },
            _ => None,
        },
    }
}

/// What a frame tells the shard itself. `None` where a frame that has to
/// tell something does not.
pub open spec fn control_of(op: OpCode, event: Option<Seq<u8>>, data: Seq<u8>) -> Option<
    ControlView,
> {
    match op {
        OpCode::Hello => hello_of(data),
        OpCode::InvalidSession => if data == "true".spec_bytes() {
            Some(ControlView::InvalidSession { resumable: true })
        } else if data == "false".spec_bytes() {
            Some(ControlView::InvalidSession { resumable: false })
        } else {
            None
        },
        OpCode::Dispatch => if event == Some(name_ready()) {
            match quoted_in(data, key_session_id()) {
                Some(Some(session_id)) => Some(ControlView::Ready { session_id }),
                _ => None,
            }
        } else if event == Some(name_resumed()) {
            Some(ControlView::Resumed)
        } else {
            Some(ControlView::Nothing)
        },
        _ => Some(ControlView::Nothing),
    }
}

/// The frame that a text is.
///
/// The keys of the sequence number and of the event's name may be missing
/// or hold `null`; what else they hold has to be a number and a text. A
/// dispatch frame has a sequence number; without one, the text is
/// malformed. Any other frame has no sequence number and no event name,
/// whichever the text holds.
pub open spec fn decoded(raw: Seq<u8>) -> Result<Frame, DecodeError> {
    if !is_object(raw) {
        Err(DecodeError::Malformed)
    } else {
        match (opcode_of(raw), number_of(raw, key_s()), text_of(raw, key_t())) {
            (Some(op), Some(sequence), Some(event)) => {
                let dispatch = op == OpCode::Dispatch;
                let event = if dispatch {
                    event
                } else {
                    None
                };
                match control_of(op, event, data_of(raw)) {
                    Some(control) => if dispatch && sequence is None {
                        Err(DecodeError::Malformed)
                    } else {
                        Ok(
                            Frame {
                                op,
                                sequence: if dispatch {
                                    sequence
                                } else {
                                    None
                                },
                                event,
                                control,
                                data: data_of(raw),
                            },
                        )
                    },
                    None => Err(DecodeError::Malformed),
                }
            },
            _ => Err(DecodeError::Malformed),
        }
    }
}

/// The frame that a message from the transport is. `inflated` is what the
/// decompressor made of the message: `None` where the compressed stream was
/// corrupt or incomplete.
pub open spec fn decoded_inflated(inflated: Option<Seq<u8>>) -> Result<Frame, DecodeError> {
    match inflated {
        Some(raw) => decoded(raw),
        None => Err(DecodeError::Compression),
    }
}

/// What is decoded is a frame as it should be: with a sequence number if
/// and only if it is a dispatch frame.
pub proof fn lemma_decoded_consistent(raw: Seq<u8>)
    ensures
        decoded(raw) matches Ok(frame) ==> frame.consistent(),
{
}

proof fn lemma_key_bytes()
    ensures
        key_op() == seq![0x22u8, 0x6f, 0x70, 0x22, 0x3a],
        key_s() == seq![0x22u8, 0x73, 0x22, 0x3a],
        key_t() == seq![0x22u8, 0x74, 0x22, 0x3a],
        key_d() == seq![0x22u8, 0x64, 0x22, 0x3a],
        "{\"op\":".spec_bytes() == seq![0x7bu8, 0x22, 0x6f, 0x70, 0x22, 0x3a],
        ",\"d\":".spec_bytes() == seq![0x2cu8, 0x22, 0x64, 0x22, 0x3a],
        "}".spec_bytes() == seq![0x7du8],
{
    reveal_strlit("\"op\":");
    reveal_strlit("\"s\":");
    reveal_strlit("\"t\":");
    reveal_strlit("\"d\":");
    reveal_strlit("{\"op\":");
    reveal_strlit(",\"d\":");
    reveal_strlit("}");
    vstd::string::is_ascii_spec_bytes("\"op\":");
    vstd::string::is_ascii_spec_bytes("\"s\":");
    vstd::string::is_ascii_spec_bytes("\"t\":");
    vstd::string::is_ascii_spec_bytes("\"d\":");
    vstd::string::is_ascii_spec_bytes("{\"op\":");
    vstd::string::is_ascii_spec_bytes(",\"d\":");
    vstd::string::is_ascii_spec_bytes("}");
    assert(key_op() =~= seq![0x22u8, 0x6f, 0x70, 0x22, 0x3a]);
    assert(key_s() =~= seq![0x22u8, 0x73, 0x22, 0x3a]);
    assert(key_t() =~= seq![0x22u8, 0x74, 0x22, 0x3a]);
    assert(key_d() =~= seq![0x22u8, 0x64, 0x22, 0x3a]);
    assert("{\"op\":".spec_bytes() =~= seq![0x7bu8, 0x22, 0x6f, 0x70, 0x22, 0x3a]);
    assert(",\"d\":".spec_bytes() =~= seq![0x2cu8, 0x22, 0x64, 0x22, 0x3a]);
    assert("}".spec_bytes() =~= seq![0x7du8]);
}

/// A key of four bytes that begins with a double quote stands nowhere in a
/// text in which every double quote is followed by a byte other than the
/// key's second.
proof fn lemma_key_absent(text: Seq<u8>, key: Seq<u8>, until: int)
    requires
        key.len() == 4,
        key[0] == 0x22,
        0 <= until <= text.len(),
        forall|k: int|
            0 <= k < until && #[trigger] text[k] == 0x22 ==> k + 1 < text.len() && text[k + 1]
                != key[1],
    ensures
        forall|k: int| 0 <= k < until ==> !matches_at(text, key, k),
{
    assert forall|k: int| 0 <= k < until implies !matches_at(text, key, k) by {
        if matches_at(text, key, k) {
            let part = text.subrange(k, k + 4);
            assert(part[0] == text[k]);
            assert(part[1] == text[k + 1]);
        }
    }
}

/// What a shard sends, the service can read, and so can the shard itself:
/// the text of a command decodes to a frame with the command's code and,
/// as its data, the command's payload.
///
/// This holds of every code but that of a dispatch, a hello and an invalid
/// session, which a client does not send and whose frames have to hold more
/// than a payload.
pub proof fn lemma_framed_decodes(op: OpCode, payload: Seq<u8>)
    requires
        op != OpCode::Dispatch,
        op != OpCode::Hello,
        op != OpCode::InvalidSession,
    ensures
        decoded(framed(op, payload)) == Ok::<Frame, DecodeError>(
            Frame { op, sequence: None, event: None, control: ControlView::Nothing, data: payload },
        ),
{
    let n = op.spec_number();
    let written = decimal(n as nat);
    let raw = framed(op, payload);
    let digits = written.len() as int;
    let at: int = 6 + digits + 1;
    lemma_key_bytes();
    lemma_decimal_reads_back(n as nat);
    lemma_number_round_trip(op, n);
    assert(raw.len() == at + 4 + payload.len() + 1);
    assert forall|i: int| 0 <= i < written.len() implies #[trigger] raw[6 + i] == written[i] by {}
    assert forall|i: int| 0 <= i < payload.len() implies #[trigger] raw[at + 4 + i]
        == payload[i] by {}
    // The payload's key stands after the code, and nowhere before.
    assert(matches_at(raw, key_d(), at)) by {
        assert(raw.subrange(at, at + 4) =~= key_d());
    }
    assert forall|k: int| 0 <= k < at && #[trigger] raw[k] == 0x22 implies k + 1 < raw.len()
        && raw[k + 1] != 0x64 && raw[k + 1] != 0x73 && raw[k + 1] != 0x74 by {
        if 6 <= k < 6 + written.len() {
            assert(raw[k] == written[k - 6]);
        }
    }
    lemma_key_absent(raw, key_d(), at);
    lemma_first_match_is(raw, key_d(), 0, at);
    let head = raw.take(at);
    assert(head_len(raw) == at);
    // The code is the first thing in the frame.
    assert(!matches_at(head, key_op(), 0)) by {
        if matches_at(head, key_op(), 0) {
            assert(head.subrange(0, 5)[0] == head[0]);
        }
    }
    assert(matches_at(head, key_op(), 1)) by {
        assert(head.subrange(1, 6) =~= key_op());
    }
    lemma_first_match_is(head, key_op(), 0, 1);
    assert(raw.subrange(6, 6 + digits) =~= written);
    lemma_number_at_decimal(raw, 6, n as u64);
    assert(opcode_of(raw) == Some(op));
    // There is no sequence number and no event name.
    lemma_key_absent(head, key_s(), at - 4);
    lemma_key_absent(head, key_t(), at - 4);
    lemma_first_match(head, key_s(), 0);
    lemma_first_match(head, key_t(), 0);
    assert(first_match(head, key_s(), 0) is None);
    assert(first_match(head, key_t(), 0) is None);
    assert(data_of(raw) =~= payload);
}

fn number_after(raw: &[u8], key: &[u8], until: usize) -> (found: Option<Option<u64>>)
    requires
        until == head_len(raw@),
        until <= raw.len(),
    ensures
        found == number_of(raw@, key@),
{
    match find(raw, key, 0, until) {
        None => Some(None),
        Some(at) => {
            let from: usize = at + key.len();
            if stands_at(raw, "null".as_bytes(), from) {
                Some(None)
            } else {
                match number(raw, from).0 {
                    Some(n) => Some(Some(n)),
                    None => None,
                }
            }
        },
    }
}

fn text_after(raw: &[u8], key: &[u8], until: usize) -> (found: Option<Option<Vec<u8>>>)
    requires
        until == head_len(raw@),
        until <= raw.len(),
    ensures
        match found {
            Some(Some(text)) => text_of(raw@, key@) == Some(Some(text@)),
            Some(None) => text_of(raw@, key@) == Some(None::<Seq<u8>>),
            None => text_of(raw@, key@) is None,
        },
{
    match find(raw, key, 0, until) {
        None => Some(None),
        Some(at) => {
            let from: usize = at + key.len();
            if stands_at(raw, "null".as_bytes(), from) {
                Some(None)
            } else if stands_at(raw, "\"".as_bytes(), from) {
                proof {
                    reveal_strlit("\"");
                    vstd::string::is_ascii_spec_bytes("\"");
                    assert("\"".spec_bytes().len() == 1);
                }
                match quoted(raw, from + 1) {
                    Some(text) => Some(Some(text)),
                    None => None,
                }
            } else {
                None
            }
        },
    }
}

fn quoted_after(data: &[u8], key: &[u8]) -> (found: Option<Option<Vec<u8>>>)
    ensures
        match found {
            Some(Some(text)) => quoted_in(data@, key@) == Some(Some(text@)),
            Some(None) => quoted_in(data@, key@) == Some(None::<Seq<u8>>),
            None => quoted_in(data@, key@) is None,
        },
{
    assert(data@.take(data.len() as int) =~= data@);
    match find(data, key, 0, data.len()) {
        None => Some(None),
        Some(at) => match quoted(data, at + key.len()) {
            Some(text) => Some(Some(text)),
            None => None,
        },
    }
}

fn same(a: &[u8], b: &[u8]) -> (equal: bool)
    ensures
        equal == (a@ == b@),
{
    if a.len() != b.len() {
        return false;
    }
    let found: bool = stands_at(a, b, 0);
    proof {
        assert(a@.subrange(0, b@.len() as int) =~= a@);
    }
    found
}

fn control(op: OpCode, event: &Option<Vec<u8>>, data: &[u8]) -> (found: Option<Control>)
    ensures
        match found {
            Some(control) => control_of(
                op,
                match event {
                    Some(name) => Some(name@),
                    None => None,
                },
                data@,
            ) == Some(control@),
            None => control_of(
                op,
                match event {
                    Some(name) => Some(name@),
                    None => None,
                },
                data@,
            ) is None,
        },
{
    match op {
        OpCode::Hello => {
            assert(data@.take(data.len() as int) =~= data@);
            let key = "\"heartbeat_interval\":".as_bytes();
            match find(data, key, 0, data.len()) {
                None => None,
                Some(at) => {
                    let interval = number(data, at + key.len()).0;
                    let resume_url = quoted_after(data, "\"resume_gateway_url\":\"".as_bytes());
                    match (interval, resume_url) {
                        (Some(heartbeat_interval), Some(resume_url)) => if heartbeat_interval
                            > 0 {
                            Some(Control::Hello { heartbeat_interval, resume_url })
                        } else {
                            None
                        },
                        _ => None,
                    }
                },
            }
        },
        OpCode::InvalidSession => {
            if same(data, "true".as_bytes()) {
                Some(Control::InvalidSession { resumable: true })
            } else if same(data, "false".as_bytes()) {
                Some(Control::InvalidSession { resumable: false })
            } else {
                None
            }
        },
        OpCode::Dispatch => {
            let ready: bool = match event {
                Some(name) => same(name.as_slice(), "READY".as_bytes()),
                None => false,
            };
            let resumed: bool = match event {
                Some(name) => same(name.as_slice(), "RESUMED".as_bytes()),
                None => false,
            };
            if ready {
                match quoted_after(data, "\"session_id\":\"".as_bytes()) {
                    Some(Some(session_id)) => Some(Control::Ready { session_id }),
                    _ => None,
                }
            } else if resumed {
                Some(Control::Resumed)
            } else {
                Some(Control::Nothing)
            }
        },
        _ => Some(Control::Nothing),
    }
}

/// Decodes the text of one frame.
pub fn decode(raw: &[u8]) -> (frame: Result<DecodedFrame, DecodeError>)
    ensures
        match frame {
            Ok(f) => decoded(raw@) == Ok::<Frame, DecodeError>(f@) && f@.consistent(),
            Err(e) => decoded(raw@) == Err::<Frame, DecodeError>(e) && e
                == DecodeError::Malformed,
        },
{
    let len: usize = raw.len();
    if len < 2 || raw[0] != 0x7b || raw[len - 1] != 0x7d {
        return Err(DecodeError::Malformed);
    }
    let key_d = "\"d\":".as_bytes();
    proof {
        assert(raw@.take(len as int) =~= raw@);
        lemma_first_match(raw@, key_d@, 0);
        reveal_strlit("\"d\":");
        vstd::string::is_ascii_spec_bytes("\"d\":");
    }
    let payload_at: Option<usize> = find(raw, key_d, 0, len);
    let until: usize = match payload_at {
        Some(at) => at,
        None => len,
    };
    let op: Option<OpCode> = match find(raw, "\"op\":".as_bytes(), 0, until) {
        Some(at) => match number(raw, at + "\"op\":".as_bytes().len()).0 {
            Some(n) => if n <= 255 {
                OpCode::from_number(n as u8)
            } else {
                None
            },
            None => None,
        },
        None => None,
    };
    let op: OpCode = match op {
        Some(op) => op,
        None => {
            return Err(DecodeError::Malformed);
        },
    };
    let sequence: Option<u64> = match number_after(raw, "\"s\":".as_bytes(), until) {
        Some(sequence) => sequence,
        None => {
            return Err(DecodeError::Malformed);
        },
    };
    let event: Option<Vec<u8>> = match text_after(raw, "\"t\":".as_bytes(), until) {
        Some(event) => event,
        None => {
            return Err(DecodeError::Malformed);
        },
    };
    let dispatch: bool = matches!(op, OpCode::Dispatch);
    let event: Option<Vec<u8>> = if dispatch {
        event
    } else {
        None
    };
    let mut data: Vec<u8> = Vec::new();
    match payload_at {
        Some(at) => {
            proof {
                let part = raw@.subrange(at as int, at + 4);
                assert(part[3] == raw@[at + 3]);
            }
            let mut i: usize = at + 4;
            while i < len - 1
                invariant
                    at + 4 <= i <= len - 1,
                    len == raw.len(),
                    data@ == raw@.subrange(at + 4, i as int),
                decreases len - i,
            {
                data.push(raw[i]);
                assert(data@ =~= raw@.subrange(at + 4, i + 1));
                i += 1;
            }
        },
        None => {},
    }
    assert(data@ =~= data_of(raw@));
    let control: Control = match control(op, &event, data.as_slice()) {
        Some(control) => control,
        None => {
            return Err(DecodeError::Malformed);
        },
    };
    if dispatch && sequence.is_none() {
        return Err(DecodeError::Malformed);
    }
    let sequence: Option<u64> = if dispatch {
        sequence
    } else {
        None
    };
    Ok(DecodedFrame { op, sequence, event, control, data })
}

/// Decodes one message from the transport. `inflated` is what the
/// decompressor made of the message: `None` where the compressed stream was
/// corrupt or incomplete, which is an error of its own kind.
pub fn decode_inflated(inflated: Option<&[u8]>) -> (frame: Result<DecodedFrame, DecodeError>)
    ensures
        match frame {
            Ok(f) => decoded_inflated(
                match inflated {
                    Some(raw) => Some(raw@),
                    None => None,
                },
            ) == Ok::<Frame, DecodeError>(f@),
            Err(e) => decoded_inflated(
                match inflated {
                    Some(raw) => Some(raw@),
                    None => None,
                },
            ) == Err::<Frame, DecodeError>(e),
        },
{
    match inflated {
        Some(raw) => decode(raw),
        None => Err(DecodeError::Compression),
    }
}

} // verus!
