//! The write path and the receive loop, driven over concrete OS outcomes.

use vsock_engine::event::{EngineError, Notification, EAGAIN, EINTR};
use vsock_engine::recv::RecvOutcome;
use vsock_engine::socket::VsockSocket;
use vsock_engine::write::write_step;

fn fresh(fd: i32) -> VsockSocket {
    match VsockSocket::new(Ok(fd)) {
        Ok(s) => s,
        Err(_) => panic!("constructing from a valid descriptor must succeed"),
    }
}

fn received(bytes: &[u8]) -> RecvOutcome {
    RecvOutcome::Received { buf: bytes.to_vec(), size: bytes.len() }
}

fn peer_closed() -> RecvOutcome {
    RecvOutcome::Received { buf: Vec::new(), size: 0 }
}

#[test]
fn write_whole_payload_in_one_send() {
    let s = fresh(4);
    let payload = b"hello";
    let outcomes = vec![Ok(5usize)];
    assert_eq!(s.write(payload, 5, &outcomes), Ok(()));
}

#[test]
fn write_reassembles_under_fragmentation() {
    let s = fresh(4);
    let payload = b"0123456789";
    let outcomes = vec![Ok(3usize), Err(EINTR), Ok(4usize), Ok(3usize)];
    assert_eq!(s.write(payload, 10, &outcomes), Ok(()));
}

#[test]
fn write_zero_bytes_needs_no_send() {
    let s = fresh(4);
    let outcomes: Vec<Result<usize, i32>> = Vec::new();
    assert_eq!(s.write(b"", 0, &outcomes), Ok(()));
}

#[test]
fn write_sends_only_the_requested_prefix() {
    let s = fresh(4);
    let outcomes = vec![Ok(3usize)];
    assert_eq!(s.write(b"hello", 3, &outcomes), Ok(()));
}

#[test]
fn write_aborts_on_fatal_send_failure() {
    let s = fresh(4);
    let outcomes = vec![Ok(2usize), Err(32)];
    assert_eq!(
        s.write(b"hello", 5, &outcomes),
        Err(EngineError::TransportOpFailed(32))
    );
}

#[test]
fn write_after_shutdown_is_invalid_state() {
    let mut s = fresh(4);
    assert_eq!(s.shutdown(Ok(())), Ok(()));
    let outcomes = vec![Ok(5usize)];
    assert_eq!(s.write(b"hello", 5, &outcomes), Err(EngineError::InvalidState));
    assert_eq!(s.emitter.log, vec![Notification::Shutdown]);
}

#[test]
fn write_buffer_takes_the_whole_buffer() {
    let s = fresh(4);
    let outcomes = vec![Ok(2usize), Ok(3usize)];
    assert_eq!(s.write_buffer(b"hello", &outcomes), Ok(()));
}

#[test]
fn write_step_decisions() {
    assert_eq!(write_step(0, 5, Ok(3)), Ok(3));
    assert_eq!(write_step(3, 5, Err(EINTR)), Ok(3));
    assert_eq!(
        write_step(3, 5, Err(104)),
        Err(EngineError::TransportOpFailed(104))
    );
}

#[test]
fn recv_ten_bytes_then_close_emits_data_then_end() {
    let mut s = fresh(4);
    let outcomes = vec![received(b"0123456789"), peer_closed()];
    assert_eq!(s.hundle_recv(&outcomes), Ok(true));
    assert_eq!(
        s.emitter.log,
        vec![
            Notification::Data(b"0123456789".to_vec()),
            Notification::End,
        ]
    );
}

#[test]
fn recv_truncates_to_the_received_size() {
    let mut s = fresh(4);
    let outcomes = vec![
        RecvOutcome::Received { buf: b"abcdef".to_vec(), size: 2 },
        peer_closed(),
    ];
    assert_eq!(s.hundle_recv(&outcomes), Ok(true));
    assert_eq!(
        s.emitter.log,
        vec![Notification::Data(b"ab".to_vec()), Notification::End]
    );
}

#[test]
fn recv_transient_outcomes_are_silent() {
    let mut s = fresh(4);
    let outcomes = vec![
        RecvOutcome::Failed { errno: EINTR },
        RecvOutcome::Failed { errno: EAGAIN },
        peer_closed(),
    ];
    assert_eq!(s.hundle_recv(&outcomes), Ok(true));
    assert_eq!(s.emitter.log, vec![Notification::End]);
}

#[test]
fn recv_fatal_error_is_terminal() {
    let mut s = fresh(4);
    let outcomes = vec![received(b"xy"), RecvOutcome::Failed { errno: 104 }];
    assert_eq!(s.hundle_recv(&outcomes), Ok(true));
    assert_eq!(
        s.emitter.log,
        vec![Notification::Data(b"xy".to_vec()), Notification::Error(104)]
    );
}

#[test]
fn recv_preserves_arrival_order() {
    let mut s = fresh(4);
    let outcomes = vec![received(b"ab"), received(b"cd"), peer_closed()];
    assert_eq!(s.hundle_recv(&outcomes), Ok(true));
    assert_eq!(
        s.emitter.log,
        vec![
            Notification::Data(b"ab".to_vec()),
            Notification::Data(b"cd".to_vec()),
            Notification::End,
        ]
    );
}

#[test]
fn recv_stops_at_the_terminal_outcome() {
    let mut s = fresh(4);
    let outcomes = vec![peer_closed(), received(b"late")];
    assert_eq!(s.hundle_recv(&outcomes), Ok(true));
    assert_eq!(s.emitter.log, vec![Notification::End]);
}

#[test]
fn recv_without_terminal_outcome_reports_unfinished() {
    let mut s = fresh(4);
    let outcomes = vec![received(b"ab")];
    assert_eq!(s.hundle_recv(&outcomes), Ok(false));
    assert_eq!(s.emitter.log, vec![Notification::Data(b"ab".to_vec())]);
}

#[test]
fn recv_step_drives_one_iteration() {
    let mut s = fresh(4);
    assert!(!s.recv_step(&received(b"ab")));
    assert!(!s.recv_step(&RecvOutcome::Failed { errno: EINTR }));
    assert!(s.recv_step(&peer_closed()));
    assert_eq!(
        s.emitter.log,
        vec![Notification::Data(b"ab".to_vec()), Notification::End]
    );
}

#[test]
fn recv_after_release_delivers_nothing() {
    let mut s = fresh(4);
    assert_eq!(s.close(Ok(())), Ok(()));
    let outcomes = vec![received(b"ab"), peer_closed()];
    assert_eq!(s.hundle_recv(&outcomes), Err(EngineError::SinkReleased));
    assert_eq!(s.emitter.log, vec![Notification::Close]);
}

#[test]
fn writer_to_receiver_round_trip() {
    let writer = fresh(4);
    let payload = b"stream reassembly";
    let n = payload.len();
    let send_outcomes = vec![Ok(6usize), Err(EINTR), Ok(1usize), Ok(10usize)];
    assert_eq!(writer.write(payload, n, &send_outcomes), Ok(()));

    let mut reader = fresh(5);
    let outcomes = vec![
        received(b"stream"),
        received(b" "),
        received(b"reassembly"),
        peer_closed(),
    ];
    assert_eq!(reader.hundle_recv(&outcomes), Ok(true));
    let mut observed: Vec<u8> = Vec::new();
    let mut terminal = 0;
    for n in &reader.emitter.log {
        match n {
            Notification::Data(bytes) => observed.extend_from_slice(bytes),
            Notification::End => terminal += 1,
            _ => panic!("unexpected notification"),
        }
    }
    assert_eq!(observed, payload.to_vec());
    assert_eq!(terminal, 1);
}
