//! Errors of the process subsystem.
use vstd::prelude::*;

verus! {

/// Why a spawn configuration was rejected before any process was created.
#[derive(Clone, Copy, Debug, PartialEq, Eq, Structural)]
pub enum ConfigError {
    /// The program name is empty.
    EmptyProgram,
    /// The requested working directory does not exist.
    MissingCwd,
    /// A stdin payload was given while stdin is not piped.
    PayloadWithoutPipe,
}

/// A standard stream of a child process.
#[derive(Clone, Copy, Debug, PartialEq, Eq, Structural)]
pub enum Stream {
    Stdin,
    Stdout,
    Stderr,
}

/// What went wrong on a stream.
#[derive(Clone, Copy, Debug, PartialEq, Eq, Structural)]
pub enum IoFailure {
    /// The other end of the pipe was closed.
    BrokenPipe,
    /// Any other OS error.
    Other,
}

/// Errors that callers of the process subsystem see.
#[derive(Clone, Copy, Debug, PartialEq, Eq, Structural)]
pub enum ProcessError {
    /// The spawn options were malformed.
    InvalidSpawnConfig(ConfigError),
    /// The OS refused to create the process.
    SpawnFailed,
    /// A write to stdin came after the stream was closed.
    StdinClosed,
    /// A write to stdin came after the process exited.
    ProcessAlreadyExited,
    /// The OS refused to deliver a kill request to a running process.
    KillFailed,
    /// Waiting for the process to exit failed.
    WaitFailed,
    /// An OS error on one stream, with the stream it happened on.
    Io(Stream, IoFailure),
}

} // verus!
