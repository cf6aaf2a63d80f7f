//! The legacy length-prefixed framing mode.

use vsock_engine::event::EngineError;
use vsock_engine::frame::{decode_frame, encode_frame};
use vsock_engine::socket::VsockSocket;

fn fresh(fd: i32) -> VsockSocket {
    match VsockSocket::new(Ok(fd)) {
        Ok(s) => s,
        Err(_) => panic!("constructing from a valid descriptor must succeed"),
    }
}

#[test]
fn encode_hi_produces_the_documented_wire_bytes() {
    let frame = encode_frame(&b"hi".to_vec());
    assert_eq!(
        frame,
        vec![0x02, 0x00, 0x00, 0x00, 0x00, 0x00, 0x00, 0x00, 0x68, 0x69]
    );
}

#[test]
fn decode_returns_exactly_the_paired_payload() {
    let frame = encode_frame(&b"hi".to_vec());
    assert_eq!(decode_frame(&frame), Some(b"hi".to_vec()));
}

#[test]
fn decode_waits_for_the_whole_prefix() {
    let stream = vec![0x02, 0x00, 0x00, 0x00, 0x00, 0x00, 0x00];
    assert_eq!(decode_frame(&stream), None);
}

#[test]
fn decode_waits_for_the_whole_payload() {
    let stream = vec![0x02, 0x00, 0x00, 0x00, 0x00, 0x00, 0x00, 0x00, 0x68];
    assert_eq!(decode_frame(&stream), None);
}

#[test]
fn decode_ignores_queued_bytes_behind_the_frame() {
    let mut stream = encode_frame(&b"first".to_vec());
    stream.extend_from_slice(&encode_frame(&b"second".to_vec()));
    assert_eq!(decode_frame(&stream), Some(b"first".to_vec()));
}

#[test]
fn empty_payload_frames_cleanly() {
    let frame = encode_frame(&Vec::new());
    assert_eq!(frame, vec![0u8; 8]);
    assert_eq!(decode_frame(&frame), Some(Vec::new()));
}

#[test]
fn multi_byte_length_prefix() {
    let payload = vec![7u8; 300];
    let frame = encode_frame(&payload);
    assert_eq!(frame[0], 0x2C);
    assert_eq!(frame[1], 0x01);
    assert_eq!(&frame[2..8], &[0u8; 6]);
    assert_eq!(decode_frame(&frame), Some(payload));
}

#[test]
fn send_with_length_writes_prefix_then_payload() {
    let s = fresh(4);
    let outcomes = vec![Ok(8usize), Ok(2usize)];
    assert_eq!(s.send_with_length(&b"hi".to_vec(), &outcomes), Ok(()));
}

#[test]
fn send_with_length_fails_outside_initialized() {
    let mut s = fresh(4);
    assert_eq!(s.shutdown(Ok(())), Ok(()));
    let outcomes = vec![Ok(10usize)];
    assert_eq!(
        s.send_with_length(&b"hi".to_vec(), &outcomes),
        Err(EngineError::InvalidState)
    );
}
