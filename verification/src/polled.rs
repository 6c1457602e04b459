//! The outcome of one poll, as every poll-based operation of this crate
//! reports it.

use vstd::prelude::*;

verus! {

/// What one poll of a stream gave.
#[derive(Debug, PartialEq, Eq)]
pub enum Polled<T> {
    /// The next item.
    Ready(T),
    /// The stream has ended: no item is left and none will come.
    Ended,
    /// Nothing yet; the waker of the polling task has been registered.
    Pending,
}

} // verus!
