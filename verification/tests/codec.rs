use twilight::gateway::codec::decode;
use twilight::gateway::codec::decode_inflated;
use twilight::gateway::command::encode;
use twilight::gateway::command::plain;
use twilight::gateway::command::CommandEnvelope;
use twilight::gateway::command::EncodeError;
use twilight::gateway::command::MAX_FRAME_LEN;
use twilight::gateway::frame::Control;
use twilight::gateway::frame::DecodeError;
use twilight::gateway::frame::DecodedEvent;
use twilight::gateway::frame::DecodedFrame;
use twilight::gateway::opcode::OpCode;
use twilight::gateway::shard_id::ShardId;

#[test]
fn decode_hello() {
    let frame =
        decode(b"{\"t\":null,\"s\":null,\"op\":10,\"d\":{\"heartbeat_interval\":41250}}").unwrap();
    assert_eq!(
        frame,
        DecodedFrame {
            op: OpCode::Hello,
            sequence: None,
            event: None,
            control: Control::Hello { heartbeat_interval: 41250, resume_url: None },
            data: b"{\"heartbeat_interval\":41250}".to_vec(),
        }
    );
}

#[test]
fn decode_hello_with_resume_address() {
    let frame = decode(
        b"{\"op\":10,\"d\":{\"heartbeat_interval\":5,\"resume_gateway_url\":\"wss://gw.example\"}}",
    )
    .unwrap();
    assert_eq!(
        frame.control,
        Control::Hello { heartbeat_interval: 5, resume_url: Some(b"wss://gw.example".to_vec()) }
    );
}

#[test]
fn decode_hello_needs_an_interval() {
    assert_eq!(decode(b"{\"op\":10,\"d\":{}}"), Err(DecodeError::Malformed));
    assert_eq!(
        decode(b"{\"op\":10,\"d\":{\"heartbeat_interval\":0}}"),
        Err(DecodeError::Malformed)
    );
    assert_eq!(
        decode(b"{\"op\":10,\"d\":{\"heartbeat_interval\":\"soon\"}}"),
        Err(DecodeError::Malformed)
    );
    assert_eq!(
        decode(b"{\"op\":10,\"d\":{\"heartbeat_interval\":99999999999999999999}}"),
        Err(DecodeError::Malformed)
    );
}

#[test]
fn decode_ready() {
    let frame = decode(
        b"{\"t\":\"READY\",\"s\":1,\"op\":0,\"d\":{\"v\":6,\"session_id\":\"abc\",\"guilds\":[]}}",
    )
    .unwrap();
    assert_eq!(frame.op, OpCode::Dispatch);
    assert_eq!(frame.sequence, Some(1));
    assert_eq!(frame.event, Some(b"READY".to_vec()));
    assert_eq!(frame.control, Control::Ready { session_id: b"abc".to_vec() });
    assert_eq!(frame.data, b"{\"v\":6,\"session_id\":\"abc\",\"guilds\":[]}".to_vec());
}

#[test]
fn decode_ready_needs_a_session_id() {
    assert_eq!(
        decode(b"{\"t\":\"READY\",\"s\":1,\"op\":0,\"d\":{\"v\":6}}"),
        Err(DecodeError::Malformed)
    );
    assert_eq!(
        decode(b"{\"t\":\"READY\",\"s\":1,\"op\":0,\"d\":{\"session_id\":\"a\\\"b\"}}"),
        Err(DecodeError::Malformed)
    );
}

#[test]
fn decode_resumed() {
    let frame = decode(b"{\"t\":\"RESUMED\",\"s\":9,\"op\":0,\"d\":{}}").unwrap();
    assert_eq!(frame.control, Control::Resumed);
    assert_eq!(frame.sequence, Some(9));
}

#[test]
fn decode_dispatch() {
    let frame = decode(
        b"{\"t\":\"MESSAGE_CREATE\",\"s\":42,\"op\":0,\"d\":{\"content\":\"hi\",\"op\":3,\"s\":7}}",
    )
    .unwrap();
    assert_eq!(frame.op, OpCode::Dispatch);
    assert_eq!(frame.sequence, Some(42));
    assert_eq!(frame.event, Some(b"MESSAGE_CREATE".to_vec()));
    assert_eq!(frame.control, Control::Nothing);
    assert_eq!(frame.data, b"{\"content\":\"hi\",\"op\":3,\"s\":7}".to_vec());
    assert_eq!(
        frame.into_event(),
        DecodedEvent {
            name: Some(b"MESSAGE_CREATE".to_vec()),
            sequence: Some(42),
            data: b"{\"content\":\"hi\",\"op\":3,\"s\":7}".to_vec(),
        }
    );
}

#[test]
fn decode_dispatch_needs_a_sequence_number() {
    assert_eq!(
        decode(b"{\"t\":\"MESSAGE_CREATE\",\"s\":null,\"op\":0,\"d\":{}}"),
        Err(DecodeError::Malformed)
    );
    assert_eq!(decode(b"{\"t\":\"MESSAGE_CREATE\",\"op\":0,\"d\":{}}"), Err(DecodeError::Malformed));
}

#[test]
fn decode_only_dispatch_has_a_sequence_number() {
    let frame = decode(b"{\"t\":\"X\",\"s\":5,\"op\":11,\"d\":null}").unwrap();
    assert_eq!(frame.op, OpCode::HeartbeatAck);
    assert_eq!(frame.sequence, None);
    assert_eq!(frame.event, None);
    assert_eq!(frame.data, b"null".to_vec());
}

#[test]
fn decode_invalid_session() {
    let frame = decode(b"{\"t\":null,\"s\":null,\"op\":9,\"d\":true}").unwrap();
    assert_eq!(frame.control, Control::InvalidSession { resumable: true });
    let frame = decode(b"{\"t\":null,\"s\":null,\"op\":9,\"d\":false}").unwrap();
    assert_eq!(frame.control, Control::InvalidSession { resumable: false });
    assert_eq!(decode(b"{\"op\":9,\"d\":maybe}"), Err(DecodeError::Malformed));
    assert_eq!(decode(b"{\"op\":9}"), Err(DecodeError::Malformed));
}

#[test]
fn decode_control_frames() {
    assert_eq!(decode(b"{\"op\":7,\"d\":null}").unwrap().op, OpCode::Reconnect);
    assert_eq!(decode(b"{\"op\":1,\"d\":null}").unwrap().op, OpCode::Heartbeat);
    assert_eq!(decode(b"{\"op\":11}").unwrap().op, OpCode::HeartbeatAck);
    assert_eq!(decode(b"{\"op\":11}").unwrap().data, Vec::<u8>::new());
}

#[test]
fn decode_refuses_what_is_no_frame() {
    assert_eq!(decode(b""), Err(DecodeError::Malformed));
    assert_eq!(decode(b"{"), Err(DecodeError::Malformed));
    assert_eq!(decode(b"{}"), Err(DecodeError::Malformed));
    assert_eq!(decode(b"[\"op\":1]"), Err(DecodeError::Malformed));
    assert_eq!(decode(b"{\"op\":1,\"d\":null"), Err(DecodeError::Malformed));
    assert_eq!(decode(b"{\"op\":,\"d\":null}"), Err(DecodeError::Malformed));
    assert_eq!(decode(b"{\"op\":\"1\",\"d\":null}"), Err(DecodeError::Malformed));
    assert_eq!(decode(b"{\"op\":5,\"d\":null}"), Err(DecodeError::Malformed));
    assert_eq!(decode(b"{\"op\":12,\"d\":null}"), Err(DecodeError::Malformed));
    assert_eq!(decode(b"{\"op\":256,\"d\":null}"), Err(DecodeError::Malformed));
    assert_eq!(decode(b"{\"op\": 1,\"d\":null}"), Err(DecodeError::Malformed));
    assert_eq!(decode(b"{\"s\":x,\"op\":0,\"d\":null}"), Err(DecodeError::Malformed));
    assert_eq!(decode(b"{\"t\":5,\"s\":1,\"op\":0,\"d\":null}"), Err(DecodeError::Malformed));
    assert_eq!(decode(b"{\"t\":\"A,\\\"s\":1,\"op\":0}"), Err(DecodeError::Malformed));
}

#[test]
fn decode_looks_for_the_code_before_the_payload() {
    // The code is missing; the one inside the payload does not count.
    assert_eq!(decode(b"{\"d\":{\"op\":1}}"), Err(DecodeError::Malformed));
}

#[test]
fn decode_inflated_tells_compression_failures_apart() {
    assert_eq!(decode_inflated(None), Err(DecodeError::Compression));
    assert_eq!(decode_inflated(Some(b"garbage")), Err(DecodeError::Malformed));
    assert_eq!(decode_inflated(Some(b"{\"op\":11}")).unwrap().op, OpCode::HeartbeatAck);
}

#[test]
fn encode_heartbeat() {
    assert_eq!(encode(&CommandEnvelope::heartbeat(Some(42))), Ok(b"{\"op\":1,\"d\":42}".to_vec()));
    assert_eq!(encode(&CommandEnvelope::heartbeat(None)), Ok(b"{\"op\":1,\"d\":null}".to_vec()));
    assert_eq!(
        encode(&CommandEnvelope::heartbeat(Some(u64::MAX))),
        Ok(b"{\"op\":1,\"d\":18446744073709551615}".to_vec())
    );
}

#[test]
fn encode_resume() {
    let command = CommandEnvelope::resume(b"tok", b"abc", 9).unwrap();
    assert_eq!(command.op, OpCode::Resume);
    assert_eq!(
        encode(&command),
        Ok(b"{\"op\":6,\"d\":{\"token\":\"tok\",\"session_id\":\"abc\",\"seq\":9}}".to_vec())
    );
}

#[test]
fn encode_identify() {
    let command = CommandEnvelope::identify(b"tok", 513, ShardId::new(2, 8).unwrap()).unwrap();
    assert_eq!(command.op, OpCode::Identify);
    assert_eq!(
        encode(&command),
        Ok(b"{\"op\":2,\"d\":{\"token\":\"tok\",\"intents\":513,\"shard\":[2,8]}}".to_vec())
    );
}

#[test]
fn commands_refuse_text_that_needs_escapes() {
    assert!(CommandEnvelope::resume(b"to\"k", b"abc", 9).is_none());
    assert!(CommandEnvelope::resume(b"tok", b"a\\bc", 9).is_none());
    assert!(CommandEnvelope::resume(b"tok", b"a\nbc", 9).is_none());
    assert!(CommandEnvelope::identify(b"\"", 0, ShardId::single()).is_none());
    assert!(plain(b"Bot abc.def-ghi_123"));
    assert!(plain(b""));
    assert!(!plain(b"\x1f"));
    assert!(plain(b" "));
}

#[test]
fn encode_application_command() {
    let command = CommandEnvelope {
        op: OpCode::RequestGuildMembers,
        payload: b"{\"guild_id\":\"1\",\"query\":\"\",\"limit\":0}".to_vec(),
    };
    assert_eq!(
        encode(&command),
        Ok(b"{\"op\":8,\"d\":{\"guild_id\":\"1\",\"query\":\"\",\"limit\":0}}".to_vec())
    );
    let command = CommandEnvelope { op: OpCode::HeartbeatAck, payload: b"null".to_vec() };
    assert_eq!(encode(&command), Ok(b"{\"op\":11,\"d\":null}".to_vec()));
}

#[test]
fn encode_refuses_an_empty_payload() {
    let command = CommandEnvelope { op: OpCode::StatusUpdate, payload: Vec::new() };
    assert_eq!(encode(&command), Err(EncodeError::EmptyPayload));
}

#[test]
fn encode_refuses_a_frame_that_is_too_long() {
    // `{"op":3,"d":` and `}` take 13 bytes.
    let fits = CommandEnvelope { op: OpCode::StatusUpdate, payload: vec![b'1'; MAX_FRAME_LEN - 13] };
    assert_eq!(encode(&fits).map(|text| text.len()), Ok(MAX_FRAME_LEN));
    let too_long =
        CommandEnvelope { op: OpCode::StatusUpdate, payload: vec![b'1'; MAX_FRAME_LEN - 12] };
    assert_eq!(encode(&too_long), Err(EncodeError::TooLarge));
    // A code of two digits takes one byte more.
    let two_digits =
        CommandEnvelope { op: OpCode::HeartbeatAck, payload: vec![b'1'; MAX_FRAME_LEN - 13] };
    assert_eq!(encode(&two_digits), Err(EncodeError::TooLarge));
}

#[test]
fn what_is_encoded_can_be_decoded() {
    let command = CommandEnvelope::resume(b"tok", b"abc", 9).unwrap();
    let frame = decode(&encode(&command).unwrap()).unwrap();
    assert_eq!(frame.op, OpCode::Resume);
    assert_eq!(frame.sequence, None);
    assert_eq!(frame.event, None);
    assert_eq!(frame.control, Control::Nothing);
    assert_eq!(frame.data, command.payload);
    let command = CommandEnvelope::heartbeat(Some(7));
    let frame = decode(&encode(&command).unwrap()).unwrap();
    assert_eq!(frame.op, OpCode::Heartbeat);
    assert_eq!(frame.data, b"7".to_vec());
}
