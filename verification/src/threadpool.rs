//! What travels down the queue of a pool of worker threads.

use vstd::prelude::*;

verus! {

/// A message to a worker: a task to run, or the word to stop.
///
/// A pool puts tasks on its queue as they are handed to it, and at its end one
/// `JoinThread` for each of its workers. A worker takes messages off the queue
/// one at a time, so every task that was queued before the end is taken
/// before the last worker stops.
pub enum Job<F> {
    /// Run the task.
    ExecuteJob(F),
    /// End the worker's loop, so that its thread can be joined.
    JoinThread,
}

impl<F> Job<F> {
    /// What a worker that took this message does: the task to run, or nothing,
    /// which ends its loop.
    pub fn into_task(self) -> (task: Option<F>)
        ensures
            task == (match self {
                Job::ExecuteJob(f) => Some(f),
                Job::JoinThread => None,
            }),
    {
        match self {
            Job::ExecuteJob(f) => Some(f),
            Job::JoinThread => None,
        }
    }

    /// Whether the message ends the worker's loop.
    pub fn is_stop(&self) -> (stop: bool)
        ensures
            stop == (*self is JoinThread),
    {
        match self {
            Job::ExecuteJob(_) => false,
            Job::JoinThread => true,
        }
    }
}

} // verus!
