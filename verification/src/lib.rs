//! Verified core of a VSOCK transport engine.
//!
//! The engine governs a single socket's lifecycle (initialized, shut down,
//! closed), a client's retrying connector, a listener's accept loop, a
//! continuous receive loop, a blocking write path, and the notification sink
//! through which every outcome reaches the consumer.
//!
//! All operating-system work (socket creation, bind, listen, accept, connect,
//! send, recv, shutdown, close, sleeping, thread spawning) is performed by the
//! embedder, which feeds each OS outcome into the engine and carries out the
//! actions the engine decides on. The engine itself is pure, so every decision
//! it makes — which state transition happens, which notification is emitted,
//! which error is returned — is verified.

pub mod connect;
pub mod emitter;
pub mod event;
pub mod frame;
pub mod recv;
pub mod socket;
pub mod stream;
pub mod write;
