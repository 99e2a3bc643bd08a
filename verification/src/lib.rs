//! Client-side task lifecycle for a batch-parallel compute marketplace.
//!
//! A task is split into independently computable subtasks. This library
//! builds the task description and its on-disk staging plan, decides each
//! step of the cancellable polling loop that tracks the task remotely, and
//! assembles the per-subtask outputs once the remote side reports success.
//! All I/O (filesystem, network, timers, signals) is left to the caller;
//! every function here is a total, verified computation on plain values.

use vstd::prelude::*;

pub mod error;
pub mod run;
pub mod task;
pub mod text;
pub mod timeout;
pub mod wire;

verus! {

/// Progress reported by the remote side for the whole task, stored as
/// parts per million of completion: `0` is not started, `1_000_000` done.
#[derive(Clone, Copy, Debug, PartialEq, Eq, Structural)]
pub struct Progress {
    /// Completed fraction of the task, in parts per million.
    pub per_million: u32,
}

/// The interface an object tracking a run's progress implements.
///
/// The run delivers `start` once before any update, each polled progress
/// value through `update` strictly in polling order and never
/// concurrently, and `stop` exactly once after the task finishes; a run
/// that fails or is interrupted ends without `stop`.
pub trait ProgressUpdate {
    /// Called with each progress value polled from the remote.
    fn update(&self, progress: Progress);

    /// Called when progress updates start.
    fn start(&self);

    /// Called when progress updates finish.
    fn stop(&self);
}

} // verus!
