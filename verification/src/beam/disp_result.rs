//! What one operation tells the dispatch loop to do next.
use vstd::prelude::*;

verus! {

#[derive(Clone, Copy, Debug, PartialEq, Eq, Structural)]
pub enum DispatchResult {
    /// Go on with the next operation.
    Normal,
    /// Hand the worker back to the scheduler.
    Yield,
    /// The process has ended.
    Finished,
}

} // verus!
