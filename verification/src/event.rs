//! Notifications delivered through the sink, and the engine's error taxonomy.

use vstd::prelude::*;

verus! {

/// Interruption by a signal: the OS call is retried, nothing is surfaced.
pub const EINTR: i32 = 4;

/// The operation would block: treated as transient, nothing is surfaced.
pub const EAGAIN: i32 = 11;

/// Same code as `EAGAIN` on this platform.
pub const EWOULDBLOCK: i32 = 11;

/// An event the engine delivers to the consumer through the notification sink.
///
/// OS error codes travel as raw `errno` values; the embedder renders them into
/// text when it forwards the notification to the consumer.
#[derive(Debug, PartialEq, Eq)]
pub enum Notification {
    /// The accept loop took a new connection; carries the accepted descriptor,
    /// whose ownership passes to whoever builds a handle from it.
    Connection(i32),
    /// An outbound connection attempt succeeded.
    Connect,
    /// Bytes arrived on the stream, in arrival order.
    Data(Vec<u8>),
    /// The peer closed its write side; the receive loop has terminated.
    End,
    /// The handle was shut down.
    Shutdown,
    /// The handle was closed.
    Close,
    /// A background loop hit an OS failure; carries the `errno`.
    Error(i32),
}

/// The mathematical value of a [`Notification`]: payload bytes as a `Seq`.
#[verifier::ext_equal]
pub enum NotifView {
    Connection(i32),
    Connect,
    Data(Seq<u8>),
    End,
    Shutdown,
    Close,
    Error(i32),
}

impl View for Notification {
    type V = NotifView;

    open spec fn view(&self) -> NotifView {
        match self {
            Notification::Connection(fd) => NotifView::Connection(*fd),
            Notification::Connect => NotifView::Connect,
            Notification::Data(bytes) => NotifView::Data(bytes@),
            Notification::End => NotifView::End,
            Notification::Shutdown => NotifView::Shutdown,
            Notification::Close => NotifView::Close,
            Notification::Error(errno) => NotifView::Error(*errno),
        }
    }
}

/// Whether a notification ends its loop: a receive loop stops at `End` or at
/// its final `Error`, and emits neither twice.
pub open spec fn is_terminal(n: NotifView) -> bool {
    n is End || n is Error
}

/// How an engine operation fails.
#[derive(Debug, PartialEq, Eq, Structural, Clone, Copy)]
pub enum EngineError {
    /// Allocating the socket failed; no handle was constructed.
    TransportCreateFailed,
    /// An OS operation on the socket failed; carries the `errno`.
    TransportOpFailed(i32),
    /// The operation is not allowed in the handle's current lifecycle state.
    InvalidState,
    /// A dispatch was attempted after the sink's reference was released.
    SinkReleased,
}

} // verus!
