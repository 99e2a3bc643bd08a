//! Failure conditions of task construction, polling and output collection.

use vstd::prelude::*;

verus! {

/// Why a task run or a task construction failed.
///
/// Transport messages are carried as plain strings so that the caller can
/// report them; this library never inspects their contents.
#[derive(Debug, Clone, PartialEq, Eq)]
pub enum Error {
    /// A status query could not be carried out; carries the transport's
    /// own message.
    RemoteQueryFailed(String),
    /// The remote returned no status record for the task.
    EmptyStatus,
    /// The remote reported a running task without a progress value.
    MissingProgress,
    /// The remote reported the task as aborted.
    TaskAborted,
    /// The remote reported the task as timed out.
    TaskTimedOut,
    /// The local interrupt won the race and the remote task was aborted.
    UserInterrupted,
    /// The abort issued on the interrupt path itself failed; carries the
    /// transport's message, since the remote task is left in an unknown state.
    AbortFailed(String),
    /// A declared output file could not be opened after a finished run.
    OutputUnavailable,
    /// A timeout string did not match `HH:MM:SS` or a field was out of range.
    TimeoutParseError,
    /// A timeout of zero length was rejected at construction.
    ZeroTimeoutError,
}

} // verus!
