//! Failure kinds of the dispatcher.
//!
//! The dispatcher recovers nothing internally: every error below propagates
//! out of the dispatch loop to the top level and terminates the service.

use vstd::prelude::*;

verus! {

/// One terminal failure kind.
///
/// Variants that arise from a specific resource carry the datum a log line
/// needs: the port that could not be bound, the token that no registered
/// source owns, the byte count of a short write, the subsystem's error code.
#[derive(Clone, Copy, Debug, PartialEq, Eq, Structural)]
pub enum Error {
    /// A startup record is malformed: port outside 1..=65535 or empty command.
    ConfigError,
    /// The external configuration source is unavailable.
    EnvironmentError,
    /// A configured port could not be bound.
    BindError { port: u16 },
    /// A readiness source could not be registered with the multiplexer.
    PollRegistrationError,
    /// The multiplexer delivered a token that no registered source owns.
    UnknownEventError { token: usize },
    /// The anonymous pipe for a handoff could not be created.
    PipeCreationError,
    /// The worker process could not be spawned.
    SpawnError,
    /// The accepted connection could not be duplicated for the worker.
    DuplicationError,
    /// The dispatcher's own descriptor for the connection could not be
    /// closed. Non-fatal to an already-completed duplication: the handoff
    /// still delivers the blob, and this is reported afterwards.
    CloseError,
    /// The handoff blob could not be written in one full write; `written`
    /// is the number of bytes that were written.
    WriteError { written: usize },
    /// The underlying sockets subsystem failed to initialize at startup.
    SubsystemInitError { code: i32 },
}

} // verus!
