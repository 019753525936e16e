//! What a node tells its owner.
use vstd::prelude::*;

verus! {

/// How a node came to be connected.
#[derive(Clone, Copy, Debug, PartialEq, Eq, Structural)]
pub enum Connected {
    /// It joined the network for the first time.
    First,
    /// It was relocated.
    Relocate,
}

/// What a node tells its owner.
#[derive(Clone, Copy, Debug, PartialEq, Eq, Structural)]
pub enum Event {
    /// The node has stopped.
    Terminated,
}

} // verus!
