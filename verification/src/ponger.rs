//! The answering half of a pair of sample actors that play ping-pong.

use vstd::prelude::*;

verus! {

/// An actor that answers every ping with a pong. It keeps no state.
#[derive(Clone, Copy, Debug, PartialEq, Eq, Structural)]
pub struct Ponger {}

impl Ponger {
    /// A ponger, ready to be hired.
    pub fn new() -> (ponger: Self)
        ensures
            ponger == (Ponger {  }),
    {
        Ponger {  }
    }
}

} // verus!
