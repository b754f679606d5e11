use pixelblaze_stream::{
    decode_frame, encode_frame, FrameDecodeErr, WsFrameHeader, WsFrameType,
};

fn round_trip(frame_type: WsFrameType, mask_key: Option<u32>, payload: &[u8]) {
    let header = WsFrameHeader { frame_type, payload_len: payload.len() as u64, mask_key };
    let bytes = encode_frame(&header, payload);
    let (parsed, body, consumed) = decode_frame(&bytes).unwrap();
    assert_eq!(parsed, header);
    assert_eq!(body, payload);
    assert_eq!(consumed, bytes.len());
}

#[test]
fn round_trips_command_texts() {
    // the texts of the control commands, through the masked client direction
    for text in [
        "{\"sendUpdates\":true}",
        "{\"getConfig\":true}",
        "{\"setActivePattern\":\"kuJfFyCSkCKNasyNE\"}",
        "{\"setControls\":{}}",
        "{\"pause\":false}",
    ] {
        round_trip(WsFrameType::Text(false), Some(0xdeadbeef), text.as_bytes());
        round_trip(WsFrameType::Text(false), None, text.as_bytes());
    }
}

#[test]
fn round_trips_control_frames() {
    round_trip(WsFrameType::Ping, Some(7), &[]);
    round_trip(WsFrameType::Pong, Some(0x01020304), &[]);
    round_trip(WsFrameType::Close, Some(u32::MAX), &[]);
    round_trip(WsFrameType::Continue(true), Some(3), &[1, 2, 3]);
    round_trip(WsFrameType::Continue(false), None, &[9]);
    round_trip(WsFrameType::Text(true), Some(11), b"half");
    round_trip(WsFrameType::Binary(true), None, &[0, 255]);
}

#[test]
fn round_trips_extended_length() {
    // 300 bytes forces the two-byte length form
    let payload: Vec<u8> = (0..300u16).map(|i| (i % 251) as u8).collect();
    round_trip(WsFrameType::Binary(false), Some(0xcafef00d), &payload);
    round_trip(WsFrameType::Binary(false), None, &payload);
}

#[test]
fn encodes_known_pong_bytes() {
    let header = WsFrameHeader {
        frame_type: WsFrameType::Pong,
        payload_len: 0,
        mask_key: Some(0x01020304),
    };
    assert_eq!(encode_frame(&header, &[]), vec![0x8a, 0x80, 1, 2, 3, 4]);
}

#[test]
fn encodes_known_text_bytes() {
    // a zero mask key leaves the payload visible on the wire
    let text = b"{\"getConfig\":true}";
    let header = WsFrameHeader {
        frame_type: WsFrameType::Text(false),
        payload_len: text.len() as u64,
        mask_key: Some(0),
    };
    let mut expected = vec![0x81, 0x80 | text.len() as u8, 0, 0, 0, 0];
    expected.extend_from_slice(text);
    assert_eq!(encode_frame(&header, text), expected);
}

#[test]
fn masking_scrambles_the_wire_payload() {
    let text = b"{\"sendUpdates\":true}";
    let header = WsFrameHeader {
        frame_type: WsFrameType::Text(false),
        payload_len: text.len() as u64,
        mask_key: Some(0xa5a5a5a5),
    };
    let bytes = encode_frame(&header, text);
    // header: 2 bytes + 4 mask-key bytes; the payload after it must differ
    assert_ne!(&bytes[6..], &text[..]);
    let (_, body, _) = decode_frame(&bytes).unwrap();
    assert_eq!(body, text);
}

#[test]
fn decodes_unmasked_server_frame() {
    // a server-to-client binary preview frame carries no mask
    let bytes = [0x82u8, 0x07, 5, 10, 0, 0, 0, 10, 0];
    let (header, body, consumed) = decode_frame(&bytes).unwrap();
    assert_eq!(header.frame_type, WsFrameType::Binary(false));
    assert_eq!(header.payload_len, 7);
    assert_eq!(header.mask_key, None);
    assert_eq!(body, vec![5, 10, 0, 0, 0, 10, 0]);
    assert_eq!(consumed, 9);
}

#[test]
fn reports_missing_bytes() {
    assert_eq!(decode_frame(&[]), Err(FrameDecodeErr::Incomplete(2)));
    assert_eq!(decode_frame(&[0x82]), Err(FrameDecodeErr::Incomplete(1)));
    // header says 7 payload bytes, only 3 are there
    let bytes = [0x82u8, 0x07, 5, 10, 0];
    assert_eq!(decode_frame(&bytes), Err(FrameDecodeErr::Incomplete(4)));
}

#[test]
fn rejects_reserved_bits() {
    let bytes = [0xf2u8, 0x00];
    assert_eq!(decode_frame(&bytes), Err(FrameDecodeErr::Malformed));
}

#[test]
fn rejects_unknown_opcode() {
    for opcode in [3u8, 4, 5, 6, 7, 11, 15] {
        let bytes = [0x80 | opcode, 0x00];
        assert_eq!(decode_frame(&bytes), Err(FrameDecodeErr::Malformed));
    }
}

#[test]
fn round_trips_largest_allowed_payload() {
    let payload: Vec<u8> = (0..2048u32).map(|i| (i % 241) as u8).collect();
    round_trip(WsFrameType::Binary(false), Some(0x13579bdf), &payload);
}

#[test]
fn rejects_payload_just_over_the_limit() {
    // announced payload of 2049 bytes: one more than the receive buffer
    let bytes = [0x82u8, 126, 0x08, 0x01];
    assert_eq!(decode_frame(&bytes), Err(FrameDecodeErr::Malformed));
}

#[test]
fn rejects_oversized_payload() {
    // announced payload of 70000 bytes: longer than the receive buffer
    let bytes = [0x82u8, 127, 0, 0, 0, 0, 0, 1, 0x11, 0x70];
    assert_eq!(decode_frame(&bytes), Err(FrameDecodeErr::Malformed));
}

#[test]
fn fragmented_frames_pass_through() {
    // a non-final text frame is decoded, not coalesced
    let bytes = [0x01u8, 0x02, 65, 66];
    let (header, body, _) = decode_frame(&bytes).unwrap();
    assert_eq!(header.frame_type, WsFrameType::Text(true));
    assert!(!header.frame_type.is_final());
    assert_eq!(body, b"AB");
}
