//! What an actor reports to its driving task.

use vstd::prelude::*;

verus! {

/// The verdict an actor gives once its run loop has been left.
#[derive(Clone, Copy, Debug, PartialEq, Eq, Structural)]
pub enum StoppingResult {
    /// Clear the stop request and go back to running.
    Recover,
    /// Leave the run loop for good.
    Stop,
}

} // verus!
