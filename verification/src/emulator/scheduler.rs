//! What a process shows to the scheduler that runs it.
use vstd::prelude::*;

verus! {

/// Scheduling priority: selects the run queue when the process is scheduled.
#[derive(Clone, Copy, Debug, PartialEq, Eq, Structural)]
pub enum Prio {
    /// Runs when the higher queues are empty: the default.
    Normal,
    /// Runs when all other queues are empty.
    Low,
    /// Runs before the others.
    High,
}

/// The queue in which a process is registered.
#[derive(Clone, Copy, Debug, PartialEq, Eq, Structural)]
pub enum Queue {
    /// The process is in no queue.
    NoQueue,
    PendingTimers,
    High,
    Normal,
    Low,
    TimedWait,
    InfiniteWait,
}

/// How the last timeslice of a process ended.
#[derive(Clone, Copy, Debug, PartialEq, Eq, Structural)]
pub enum SliceResult {
    /// The process has not run yet.
    NoResult,
    /// The process gave way: of its own will, or with its reductions spent.
    Yield,
    /// The process waits for a message.
    Wait,
    /// The process ended normally.
    Finished,
    /// The process ended with an error that nothing caught.
    Exception,
}

} // verus!
