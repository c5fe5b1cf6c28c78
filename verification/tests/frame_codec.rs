use discord_ipc::frame::{
    decode, decode_header, encode, Frame, FrameError, FrameHeader, Opcode, DEFAULT_MAX_PAYLOAD,
    HEADER_LEN,
};

#[test]
fn encode_writes_opcode_length_and_payload() {
    let bytes = encode(1, b"{}").unwrap();
    assert_eq!(bytes, vec![1, 0, 0, 0, 2, 0, 0, 0, b'{', b'}']);
}

#[test]
fn encode_of_an_empty_payload_is_the_bare_header() {
    let bytes = encode(3, b"").unwrap();
    assert_eq!(bytes, vec![3, 0, 0, 0, 0, 0, 0, 0]);
    assert_eq!(bytes.len(), HEADER_LEN);
}

#[test]
fn encode_puts_the_least_significant_byte_first() {
    let bytes = encode(0x0A0B_0C0D, b"").unwrap();
    assert_eq!(bytes, vec![0x0D, 0x0C, 0x0B, 0x0A, 0, 0, 0, 0]);
    let all_ones = encode(u32::MAX, b"").unwrap();
    assert_eq!(all_ones, vec![0xFF, 0xFF, 0xFF, 0xFF, 0, 0, 0, 0]);
}

#[test]
fn encode_length_spans_more_than_one_byte() {
    let payload = vec![7u8; 258];
    let bytes = encode(1, &payload).unwrap();
    assert_eq!(&bytes[..8], &[1, 0, 0, 0, 0x02, 0x01, 0, 0]);
    assert_eq!(&bytes[8..], &payload[..]);
    let larger = vec![9u8; 0x01_0203];
    let bytes = encode(4, &larger).unwrap();
    assert_eq!(&bytes[..8], &[4, 0, 0, 0, 0x03, 0x02, 0x01, 0]);
    assert_eq!(bytes.len(), 8 + 0x01_0203);
}

#[test]
fn decode_reads_back_what_encode_wrote() {
    let payloads: Vec<Vec<u8>> = vec![
        Vec::new(),
        b"{}".to_vec(),
        b"{\"cmd\":\"SET_ACTIVITY\"}".to_vec(),
        vec![0u8, 255, 1, 254, 0x7b],
        vec![0x41u8; 1000],
    ];
    let opcodes: Vec<u32> = vec![0, 1, 2, 3, 4, 5, 0x0100, u32::MAX];
    for opcode in opcodes.iter() {
        for payload in payloads.iter() {
            let bytes = encode(*opcode, payload).unwrap();
            let frame = decode(&bytes, DEFAULT_MAX_PAYLOAD).unwrap();
            assert_eq!(frame, Frame { opcode: *opcode, payload: payload.clone() });
        }
    }
}

#[test]
fn decode_accepts_a_payload_of_exactly_the_limit() {
    let payload = vec![1u8; 16];
    let bytes = encode(1, &payload).unwrap();
    assert_eq!(decode(&bytes, 16), Ok(Frame { opcode: 1, payload }));
}

#[test]
fn decode_refuses_a_length_above_the_limit() {
    let payload = vec![1u8; 17];
    let bytes = encode(1, &payload).unwrap();
    assert_eq!(decode(&bytes, 16), Err(FrameError::LengthOverLimit));
    assert_eq!(decode_header(&bytes, 16), Err(FrameError::LengthOverLimit));
}

#[test]
fn length_guard_comes_before_any_payload_is_needed() {
    let header_only: Vec<u8> = vec![1, 0, 0, 0, 0xFF, 0xFF, 0xFF, 0xFF];
    assert_eq!(
        decode_header(&header_only, DEFAULT_MAX_PAYLOAD),
        Err(FrameError::LengthOverLimit)
    );
    assert_eq!(decode(&header_only, DEFAULT_MAX_PAYLOAD), Err(FrameError::LengthOverLimit));
    let just_over: Vec<u8> = vec![1, 0, 0, 0, 0x01, 0x00, 0x40, 0x00];
    assert_eq!(decode_header(&just_over, DEFAULT_MAX_PAYLOAD), Err(FrameError::LengthOverLimit));
    let at_limit: Vec<u8> = vec![1, 0, 0, 0, 0x00, 0x00, 0x40, 0x00];
    assert_eq!(
        decode_header(&at_limit, DEFAULT_MAX_PAYLOAD),
        Ok(FrameHeader { opcode: 1, length: 0x40_0000 })
    );
    assert_eq!(decode(&at_limit, DEFAULT_MAX_PAYLOAD), Err(FrameError::TruncatedPayload));
}

#[test]
fn default_limit_is_four_mebibytes() {
    assert_eq!(DEFAULT_MAX_PAYLOAD, 4 * 1024 * 1024);
}

#[test]
fn decode_header_reads_both_fields() {
    let bytes: Vec<u8> = vec![0x04, 0x03, 0x02, 0x01, 0x10, 0x20, 0x00, 0x00];
    assert_eq!(
        decode_header(&bytes, u32::MAX),
        Ok(FrameHeader { opcode: 0x0102_0304, length: 0x2010 })
    );
}

#[test]
fn decode_header_with_no_limit_accepts_every_length() {
    let bytes: Vec<u8> = vec![2, 0, 0, 0, 0xFF, 0xFF, 0xFF, 0xFF];
    assert_eq!(
        decode_header(&bytes, u32::MAX),
        Ok(FrameHeader { opcode: 2, length: u32::MAX })
    );
}

#[test]
fn decode_refuses_a_short_header() {
    assert_eq!(decode(&[], 100), Err(FrameError::TruncatedHeader));
    assert_eq!(decode(&[1, 0, 0, 0, 2, 0, 0], 100), Err(FrameError::TruncatedHeader));
    assert_eq!(decode_header(&[1, 0, 0, 0, 2, 0, 0], 100), Err(FrameError::TruncatedHeader));
}

#[test]
fn decode_refuses_a_short_payload() {
    assert_eq!(decode(&[1, 0, 0, 0, 2, 0, 0, 0, b'{'], 100), Err(FrameError::TruncatedPayload));
    assert_eq!(decode(&[1, 0, 0, 0, 1, 0, 0, 0], 100), Err(FrameError::TruncatedPayload));
}

#[test]
fn decode_leaves_the_bytes_after_the_frame_alone() {
    let mut bytes = encode(1, b"ab").unwrap();
    bytes.extend_from_slice(&encode(2, b"{}").unwrap());
    let first = decode(&bytes, 100).unwrap();
    assert_eq!(first, Frame { opcode: 1, payload: b"ab".to_vec() });
    let second = decode(&bytes[HEADER_LEN + first.payload.len()..], 100).unwrap();
    assert_eq!(second, Frame { opcode: 2, payload: b"{}".to_vec() });
}

#[test]
fn decode_does_not_judge_the_opcode() {
    let frame = decode(&[9, 0, 0, 0, 0, 0, 0, 0], 100).unwrap();
    assert_eq!(frame.opcode, 9);
    assert_eq!(Opcode::from_code(frame.opcode), None);
}

#[test]
fn from_parts_wants_the_announced_length() {
    let header = FrameHeader { opcode: 1, length: 2 };
    assert_eq!(
        Frame::from_parts(header, b"{}".to_vec()),
        Some(Frame { opcode: 1, payload: b"{}".to_vec() })
    );
    assert_eq!(Frame::from_parts(header, b"{".to_vec()), None);
    assert_eq!(Frame::from_parts(header, b"{} ".to_vec()), None);
}

#[test]
fn header_then_payload_gives_what_decode_gives() {
    let bytes = encode(1, b"{\"nonce\":\"1\"}").unwrap();
    let header = decode_header(&bytes[..HEADER_LEN], 100).unwrap();
    let payload = bytes[HEADER_LEN..HEADER_LEN + header.length as usize].to_vec();
    assert_eq!(Frame::from_parts(header, payload), decode(&bytes, 100).ok());
}

#[test]
fn opcodes_have_their_wire_numbers() {
    assert_eq!(Opcode::Handshake.code(), 0);
    assert_eq!(Opcode::Frame.code(), 1);
    assert_eq!(Opcode::Close.code(), 2);
    assert_eq!(Opcode::Ping.code(), 3);
    assert_eq!(Opcode::Pong.code(), 4);
}

#[test]
fn opcode_numbers_read_back() {
    let all = [Opcode::Handshake, Opcode::Frame, Opcode::Close, Opcode::Ping, Opcode::Pong];
    for op in all.iter() {
        assert_eq!(Opcode::from_code(op.code()), Some(*op));
    }
    assert_eq!(Opcode::from_code(5), None);
    assert_eq!(Opcode::from_code(u32::MAX), None);
}

#[test]
fn frame_errors_say_what_went_wrong() {
    assert_eq!(
        FrameError::PayloadTooLarge.message(),
        "payload does not fit the frame's length field"
    );
    assert_eq!(FrameError::TruncatedHeader.message(), "frame header is incomplete");
    assert_eq!(
        FrameError::LengthOverLimit.message(),
        "frame announces a payload above the limit"
    );
    assert_eq!(FrameError::TruncatedPayload.message(), "frame payload is incomplete");
}
