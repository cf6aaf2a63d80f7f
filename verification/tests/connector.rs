//! The connector's bounded retries and exponential backoff, and the
//! listener/connector rendezvous.

use vsock_engine::connect::{
    backoff_secs, connect_step, ConnectStep, MAX_CONNECTION_ATTEMPTS,
};
use vsock_engine::event::Notification;
use vsock_engine::socket::VsockSocket;

fn fresh(fd: i32) -> VsockSocket {
    match VsockSocket::new(Ok(fd)) {
        Ok(s) => s,
        Err(_) => panic!("constructing from a valid descriptor must succeed"),
    }
}

#[test]
fn backoff_is_exponential_and_uncapped_in_form() {
    assert_eq!(MAX_CONNECTION_ATTEMPTS, 5);
    assert_eq!(backoff_secs(0), 1);
    assert_eq!(backoff_secs(1), 2);
    assert_eq!(backoff_secs(2), 4);
    assert_eq!(backoff_secs(3), 8);
    assert_eq!(backoff_secs(4), 16);
}

#[test]
fn connect_step_decisions() {
    assert_eq!(connect_step(2, Ok(())), ConnectStep::Connected);
    assert_eq!(connect_step(0, Err(110)), ConnectStep::Retry(1));
    assert_eq!(connect_step(3, Err(110)), ConnectStep::Retry(8));
    assert_eq!(connect_step(4, Err(111)), ConnectStep::GiveUp(16, 111));
}

#[test]
fn connect_succeeds_immediately() {
    let mut s = fresh(4);
    assert_eq!(s.connect(), Ok(()));
    let outcomes = vec![Ok(()), Err(1), Err(1), Err(1), Err(1)];
    let slept = s.connect_run(&outcomes);
    assert_eq!(slept, 0);
    assert_eq!(s.emitter.log, vec![Notification::Connect]);
}

#[test]
fn connect_succeeds_after_retries() {
    let mut s = fresh(4);
    let outcomes = vec![Err(110), Err(110), Ok(()), Err(1), Err(1)];
    let slept = s.connect_run(&outcomes);
    assert_eq!(slept, 1 + 2);
    assert_eq!(s.emitter.log, vec![Notification::Connect]);
}

#[test]
fn unreachable_peer_sleeps_thirty_one_seconds_then_one_error() {
    let mut s = fresh(4);
    let outcomes = vec![Err(110), Err(110), Err(110), Err(110), Err(111)];
    let slept = s.connect_run(&outcomes);
    assert_eq!(slept, 31);
    assert_eq!(s.emitter.log, vec![Notification::Error(111)]);
}

#[test]
fn listener_and_connector_rendezvous() {
    let mut listener = fresh(3);
    assert_eq!(listener.listen(Ok(()), Ok(())), Ok(()));
    let mut connector = fresh(4);
    assert_eq!(connector.connect(), Ok(()));

    listener.on_accept(Ok(9));
    let outcomes = vec![Ok(()), Err(1), Err(1), Err(1), Err(1)];
    let slept = connector.connect_run(&outcomes);

    assert_eq!(listener.emitter.log, vec![Notification::Connection(9)]);
    assert_eq!(connector.emitter.log, vec![Notification::Connect]);
    assert_eq!(slept, 0);
}
