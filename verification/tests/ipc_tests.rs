use nano_snipper::ipc::{decode_length, encode_frame, encode_length, parse_frame, Frame, FrameError, MAX_MESSAGE_LEN};

#[test]
fn length_prefix_is_little_endian() {
    assert_eq!(encode_length(5), [5, 0, 0, 0]);
    assert_eq!(encode_length(0x0102_0304), [4, 3, 2, 1]);
}

#[test]
fn frame_is_length_then_body() {
    assert_eq!(encode_frame(b"hi"), vec![2, 0, 0, 0, b'h', b'i']);
    assert_eq!(encode_frame(b""), vec![0, 0, 0, 0]);
}

#[test]
fn decode_accepts_the_limit() {
    assert_eq!(MAX_MESSAGE_LEN, 10 * 1024 * 1024);
    assert_eq!(decode_length([0, 0, 0xA0, 0]), Ok(10 * 1024 * 1024));
    assert_eq!(decode_length([7, 0, 0, 0]), Ok(7));
}

#[test]
fn decode_refuses_over_the_limit() {
    assert_eq!(decode_length([1, 0, 0xA0, 0]), Err(FrameError::TooLarge(10 * 1024 * 1024 + 1)));
    assert_eq!(decode_length([0xFF, 0xFF, 0xFF, 0xFF]), Err(FrameError::TooLarge(0xFFFF_FFFF)));
}

#[test]
fn frame_roundtrip_with_trailing_bytes() {
    let body = b"{\"type\":\"GetConfig\"}".to_vec();
    let mut wire = encode_frame(&body);
    wire.extend_from_slice(&[9, 9, 9]);
    match parse_frame(&wire) {
        Frame::Complete { body: b, consumed } => {
            assert_eq!(b, body);
            assert_eq!(consumed, body.len() + 4);
        }
        other => panic!("unexpected {:?}", other),
    }
}

#[test]
fn partial_frames_are_incomplete() {
    assert!(matches!(parse_frame(&[3, 0]), Frame::Incomplete));
    assert!(matches!(parse_frame(&[3, 0, 0, 0, 1, 2]), Frame::Incomplete));
}

#[test]
fn oversized_frame_refused_from_its_prefix() {
    assert!(matches!(parse_frame(&[1, 0, 0xA0, 0, 1, 2, 3]), Frame::TooLarge(n) if n == 10 * 1024 * 1024 + 1));
}
