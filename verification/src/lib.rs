//! Verified core of a persistent song-request-queue connection client.
//!
//! The library holds the logic of the long-lived streaming connection: the
//! frame codec for the wire sub-protocol, the ping/pong heartbeat policy,
//! and the supervising manager state machine that reconnects on failure and
//! honours a graceful shutdown request. The I/O shell around it (the actual
//! socket, timers and channels) lives outside the library and drives these
//! functions with the events it observes.

use vstd::prelude::*;

pub mod codec;
pub mod heartbeat;
pub mod manager;
pub mod payload;
pub mod session;
pub mod song;

verus! {

/// A control signal crossing the boundary between the connection subsystem
/// and the rest of the application.
#[derive(Clone, Copy, Debug, PartialEq, Eq, Structural)]
pub enum TaskMessage {
    /// Application asks the connection manager to stop gracefully.
    Shutdown,
    /// The remote queue changed; the application should re-fetch it.
    SongQueueUpdate,
    /// The remote play history changed.
    SongHistoryUpdate,
}

} // verus!
