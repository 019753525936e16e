//! The state of a node of a sectioned peer-to-peer network from its start until a section has
//! approved it as a member.
pub mod addr;
pub mod bootstrapping;
pub mod chain;
pub mod common;
pub mod error;
pub mod event;
pub mod events;
pub mod id;
pub mod joining;
pub mod joining_peer;
pub mod laws;
pub mod location;
pub mod messages;
mod octets;
pub mod operations;
pub mod pending;
pub mod relocation;
pub mod state_machine;
pub mod xor_space;
