//! Where messages come from and go to.
use crate::error::RoutingError;
use crate::xor_space::{Prefix, XorName};
use vstd::prelude::*;

verus! {

/// Source of a message that is to be sent.
#[derive(Clone, Copy, Debug, PartialEq, Eq)]
pub enum SrcLocation {
    /// A single node.
    Node(XorName),
    /// A section.
    Section(Prefix),
}

/// Destination of a message.
#[derive(Clone, Copy, Debug, PartialEq, Eq)]
pub enum DstLocation {
    /// The node with the given name.
    Node(XorName),
    /// The section that the given name lies in.
    Section(XorName),
    /// All the sections that have names in common with the given prefix.
    Prefix(Prefix),
    /// Whoever is at the other end of the connection.
    Direct,
}

impl DstLocation {
    /// Name of the node, if the destination is a node.
    pub fn as_node(&self) -> (res: Result<&XorName, RoutingError>)
        ensures
            res == (match *self {
                DstLocation::Node(name) => Ok::<&XorName, RoutingError>(&name),
                _ => Err(RoutingError::BadLocation),
            }),
    {
        match self {
            DstLocation::Node(name) => Ok(name),
            _ => Err(RoutingError::BadLocation),
        }
    }
}

} // verus!
