//! Error taxonomy of the library: server lifecycle, stream read, stream
//! write, and composed client errors. Each variant names one failure kind;
//! a host application that owns the underlying transport attaches the
//! collaborator's own error value on its side of the boundary.

use vstd::prelude::*;

verus! {

/// A failure while binding the endpoint or running the server thread.
#[derive(Clone, Copy, Debug, PartialEq, Eq, Structural)]
pub enum IpcServerError {
    /// A bind attempt failed (first attempt for a reason other than the
    /// endpoint being in use, or the single retry for any reason).
    BindError,
    /// Deleting a stale leftover endpoint file failed.
    FileError,
    /// The endpoint is held by a live sibling instance of this executable.
    AlreadyInUseError,
    /// The dedicated server thread could not be spawned.
    ThreadSpawnError,
    /// The server thread ended with a panic.
    ThreadJoinError,
}

/// A failure while reading one frame from a stream.
#[derive(Clone, Copy, Debug, PartialEq, Eq, Structural)]
pub enum IpcStreamReadError {
    /// The stream ended before the length prefix or before the declared
    /// number of payload bytes was available.
    ReadError,
    /// The payload bytes did not decode to the expected message type.
    DeserializeError,
}

/// A failure while writing one frame to a stream.
#[derive(Clone, Copy, Debug, PartialEq, Eq, Structural)]
pub enum IpcStreamWriteError {
    /// An underlying stream write failed.
    WriteError,
    /// Encoding the message value failed.
    SerializeError,
}

/// A failure on either direction of a stream exchange.
#[derive(Clone, Copy, Debug, PartialEq, Eq, Structural)]
pub enum IpcStreamError {
    ReadError(IpcStreamReadError),
    WriteError(IpcStreamWriteError),
}

/// A failure of a client call: connecting, or a stream failure during the
/// exchange.
#[derive(Clone, Copy, Debug, PartialEq, Eq, Structural)]
pub enum IpcClientError {
    /// Connecting to the endpoint failed.
    ConnectError,
    ReadError(IpcStreamReadError),
    WriteError(IpcStreamWriteError),
}

} // verus!
