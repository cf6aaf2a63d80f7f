//! The transport handle: one socket descriptor and its lifecycle.
//!
//! The handle owns the descriptor and the notification sink. Its state only
//! ever moves forward: `Initialized`, then `ShutDown`, then `Closed`. The
//! engine decides every transition and every notification; the embedder
//! performs the OS calls (socket, bind, listen, accept, shutdown, close) and
//! feeds each outcome in as a `Result<_, i32>` carrying the `errno` on
//! failure.

use vstd::prelude::*;

use crate::emitter::Emitter;
use crate::event::{EngineError, NotifView, Notification};

verus! {

/// The wildcard context id a listener binds to.
pub const VMADDR_CID_ANY: u32 = 0xFFFF_FFFF;

/// Size of the receive loop's read buffer, in bytes.
pub const BUF_MAX_LEN: usize = 8192;

/// Maximum number of pending connections in a listening socket's queue.
pub const BACKLOG: usize = 128;

/// Lifecycle state of a transport handle, totally ordered and monotonically
/// non-decreasing over the handle's lifetime.
#[derive(Debug, PartialEq, Eq, Structural, Clone, Copy)]
pub enum State {
    /// The descriptor is usable; `write` and `start_recv` are permitted.
    Initialized,
    /// Both directions have been shut down; no new I/O may start.
    ShutDown,
    /// The descriptor has been released; nothing may use it.
    Closed,
}

/// The position of `s` in the lifecycle order
/// `Initialized < ShutDown < Closed`.
pub open spec fn state_level(s: State) -> int {
    match s {
        State::Initialized => 0,
        State::ShutDown => 1,
        State::Closed => 2,
    }
}

/// A transport handle: one OS socket descriptor, its lifecycle state, and the
/// sink that every notification flows through.
pub struct VsockSocket {
    /// The OS socket descriptor, exclusively owned by this handle.
    pub fd: i32,
    /// The notification sink; this handle holds its only strong reference.
    pub emitter: Emitter,
    /// Current lifecycle state.
    pub state: State,
    /// Whether the receive loop has been started on this handle.
    pub recv_started: bool,
}

impl VsockSocket {
    /// Builds a handle around a descriptor: either one accepted by a listener
    /// or the outcome of allocating a fresh stream socket. A failed
    /// allocation yields [`EngineError::TransportCreateFailed`] and no
    /// handle.
    pub fn new(fd_result: Result<i32, i32>) -> (r: Result<VsockSocket, EngineError>)
        ensures
            fd_result matches Ok(fd) ==> (r matches Ok(s) && s.fd == fd
                && s.state is Initialized && !s.recv_started && !s.emitter@.released
                && s.emitter@.log == Seq::<NotifView>::empty()),
            fd_result is Err ==> (r matches Err(e) && e is TransportCreateFailed),
    {
        match fd_result {
            Ok(fd) => Ok(VsockSocket {
                fd,
                emitter: Emitter::new(),
                state: State::Initialized,
                recv_started: false,
            }),
            Err(_) => Err(EngineError::TransportCreateFailed),
        }
    }

    /// Server-side setup: judges the outcomes of binding to the wildcard
    /// context id and of listening with [`BACKLOG`]. A failure of either is
    /// returned to the caller as [`EngineError::TransportOpFailed`]; only
    /// when both succeeded (and the sink is still held, so the accept loop
    /// can deliver) may the embedder start the accept loop.
    pub fn listen(&self, bind_res: Result<(), i32>, listen_res: Result<(), i32>) -> (r: Result<
        (),
        EngineError,
    >)
        ensures
            bind_res matches Err(e) ==> (r matches Err(k) && k == EngineError::TransportOpFailed(e)),
            listen_res matches Err(e) ==> (bind_res is Ok ==> (r matches Err(k)
                && k == EngineError::TransportOpFailed(e))),
            bind_res is Ok && listen_res is Ok && !self.emitter@.released ==> r is Ok,
            bind_res is Ok && listen_res is Ok && self.emitter@.released ==> (r matches Err(k)
                && k is SinkReleased),
    {
        if let Err(e) = bind_res {
            return Err(EngineError::TransportOpFailed(e));
        }
        if let Err(e) = listen_res {
            return Err(EngineError::TransportOpFailed(e));
        }
        if self.emitter.released {
            return Err(EngineError::SinkReleased);
        }
        Ok(())
    }

    /// One iteration of the accept loop: a successful accept hands the new
    /// descriptor to the consumer as a `connection` notification; a failed
    /// accept is reported as an `error` notification. Neither outcome stops
    /// the loop — accept failures are never fatal to the listener.
    pub fn on_accept(&mut self, accepted: Result<i32, i32>)
        ensures
            final(self).fd == old(self).fd,
            final(self).state == old(self).state,
            final(self).recv_started == old(self).recv_started,
            final(self).emitter@.released == old(self).emitter@.released,
            old(self).emitter@.released ==> final(self).emitter@.log == old(self).emitter@.log,
            !old(self).emitter@.released ==> match accepted {
                Ok(fd) => final(self).emitter@.log == old(self).emitter@.log.push(
                    NotifView::Connection(fd),
                ),
                Err(e) => final(self).emitter@.log == old(self).emitter@.log.push(
                    NotifView::Error(e),
                ),
            },
    {
        match accepted {
            Ok(fd) => {
                let _ = self.emitter.emit(Notification::Connection(fd));
            },
            Err(e) => {
                let _ = self.emitter.emit(Notification::Error(e));
            },
        }
    }

    /// Requests OS-level shutdown of both directions. Idempotent: at
    /// `ShutDown` or beyond this is a no-op that succeeds without touching
    /// the OS or the sink. On the first successful shutdown the state
    /// advances and exactly one `shutdown` notification is emitted; an OS
    /// failure leaves the handle as it was.
    pub fn shutdown(&mut self, os: Result<(), i32>) -> (r: Result<(), EngineError>)
        ensures
            final(self).fd == old(self).fd,
            final(self).recv_started == old(self).recv_started,
            final(self).emitter@.released == old(self).emitter@.released,
            state_level(final(self).state) >= state_level(old(self).state),
            old(self).state !is Initialized ==> r is Ok && *final(self) == *old(self),
            os matches Err(e) ==> (old(self).state is Initialized ==> (r matches Err(k)
                && k == EngineError::TransportOpFailed(e) && *final(self) == *old(self))),
            old(self).state is Initialized && os is Ok && !old(self).emitter@.released ==> r is Ok
                && final(self).state is ShutDown && final(self).emitter@.log == old(self).emitter@.log.push(NotifView::Shutdown),
            old(self).state is Initialized && os is Ok && old(self).emitter@.released ==> (r matches
                Err(k) && k is SinkReleased && final(self).state is ShutDown && final(self).emitter@.log == old(self).emitter@.log),
    {
        if !(self.state == State::Initialized) {
            return Ok(());
        }
        if let Err(e) = os {
            return Err(EngineError::TransportOpFailed(e));
        }
        self.state = State::ShutDown;
        self.emitter.emit(Notification::Shutdown)?;
        Ok(())
    }

    /// Alias for [`VsockSocket::shutdown`]: asks the handle to end its side
    /// of the conversation.
    pub fn end(&mut self, os: Result<(), i32>) -> (r: Result<(), EngineError>)
        ensures
            final(self).fd == old(self).fd,
            final(self).recv_started == old(self).recv_started,
            final(self).emitter@.released == old(self).emitter@.released,
            state_level(final(self).state) >= state_level(old(self).state),
            old(self).state !is Initialized ==> r is Ok && *final(self) == *old(self),
            os matches Err(e) ==> (old(self).state is Initialized ==> (r matches Err(k)
                && k == EngineError::TransportOpFailed(e) && *final(self) == *old(self))),
            old(self).state is Initialized && os is Ok && !old(self).emitter@.released ==> r is Ok
                && final(self).state is ShutDown && final(self).emitter@.log == old(self).emitter@.log.push(NotifView::Shutdown),
            old(self).state is Initialized && os is Ok && old(self).emitter@.released ==> (r matches
                Err(k) && k is SinkReleased && final(self).state is ShutDown && final(self).emitter@.log == old(self).emitter@.log),
    {
        self.shutdown(os)
    }

    /// Releases the descriptor. Idempotent: at `Closed` this is a no-op that
    /// succeeds. Otherwise the state advances to `Closed` unconditionally
    /// (the descriptor is spent either way); on OS success exactly one
    /// `close` notification is emitted and then the sink's strong reference
    /// is released, exactly once.
    pub fn close(&mut self, os: Result<(), i32>) -> (r: Result<(), EngineError>)
        ensures
            final(self).fd == old(self).fd,
            final(self).recv_started == old(self).recv_started,
            state_level(final(self).state) >= state_level(old(self).state),
            old(self).state is Closed ==> r is Ok && *final(self) == *old(self),
            old(self).state !is Closed ==> final(self).state is Closed,
            os matches Err(e) ==> (old(self).state !is Closed ==> (r matches Err(k)
                && k == EngineError::TransportOpFailed(e) && final(self).emitter == old(self).emitter)),
            old(self).state !is Closed && os is Ok && !old(self).emitter@.released ==> r is Ok
                && final(self).emitter@.log == old(self).emitter@.log.push(NotifView::Close)
                && final(self).emitter@.released,
            old(self).state !is Closed && os is Ok && old(self).emitter@.released ==> (r matches Err(k) && k is SinkReleased && final(self).emitter == old(self).emitter),
    {
        if self.state == State::Closed {
            return Ok(());
        }
        self.state = State::Closed;
        if let Err(e) = os {
            return Err(EngineError::TransportOpFailed(e));
        }
        self.emitter.emit(Notification::Close)?;
        self.emitter.unref();
        Ok(())
    }

    /// Gate for starting the receive loop: permitted exactly once, and only
    /// while the handle is `Initialized` with the sink still held. On `Ok`
    /// the embedder starts the loop; every later request is rejected.
    pub fn start_recv(&mut self) -> (r: Result<(), EngineError>)
        ensures
            final(self).fd == old(self).fd,
            final(self).state == old(self).state,
            final(self).emitter == old(self).emitter,
            old(self).state !is Initialized || old(self).recv_started ==> (r matches Err(k)
                && k is InvalidState && final(self).recv_started == old(self).recv_started),
            old(self).state is Initialized && !old(self).recv_started && old(self).emitter@.released ==> (r matches Err(k) && k is SinkReleased && !final(self).recv_started),
            old(self).state is Initialized && !old(self).recv_started && !old(self).emitter@.released ==> r is Ok && final(self).recv_started,
    {
        if !(self.state == State::Initialized) {
            return Err(EngineError::InvalidState);
        }
        if self.recv_started {
            return Err(EngineError::InvalidState);
        }
        if self.emitter.released {
            return Err(EngineError::SinkReleased);
        }
        self.recv_started = true;
        Ok(())
    }

    /// Teardown at the end of the handle's life: always attempts shutdown
    /// then close, ignoring their results, so the handle ends `Closed` on
    /// every path and the descriptor is never leaked.
    pub fn teardown(&mut self, shutdown_os: Result<(), i32>, close_os: Result<(), i32>)
        ensures
            final(self).fd == old(self).fd,
            final(self).state is Closed,
            old(self).state is Initialized && shutdown_os is Ok && close_os is Ok && !old(self).emitter@.released ==> final(self).emitter@.log == old(self).emitter@.log.push(NotifView::Shutdown).push(NotifView::Close) && final(self).emitter@.released,
            old(self).state is ShutDown && close_os is Ok && !old(self).emitter@.released ==> final(self).emitter@.log == old(self).emitter@.log.push(NotifView::Close) && final(self).emitter@.released,
            old(self).state is Closed ==> *final(self) == *old(self),
    {
        let _ = self.shutdown(shutdown_os);
        let _ = self.close(close_os);
    }

    /// The raw descriptor this handle owns.
    pub fn as_raw_fd(&self) -> (fd: i32)
        ensures
            fd == self.fd,
    {
        self.fd
    }
}

} // verus!
