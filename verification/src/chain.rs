//! What is known of sections and their elders.
use crate::id::P2pNode;
use crate::xor_space::Prefix;
use bytes::Bytes;
use vstd::prelude::*;

verus! {

/// Network parameters.
#[derive(Clone, Copy, Debug, PartialEq, Eq, Structural)]
pub struct NetworkParams {
    /// Number of elders in a section.
    pub elder_size: usize,
    /// Number of nodes that each half of a section must have before the section splits.
    pub safe_section_size: usize,
}

/// Elders of a section at one point of its history.
#[derive(Clone, Debug, PartialEq, Eq)]
pub struct EldersInfo {
    /// Elders, in the order in which they are contacted.
    pub members: Vec<P2pNode>,
    /// Number of changes of the elders before this one.
    pub version: u64,
    /// Prefix of the section.
    pub prefix: Prefix,
}

impl EldersInfo {
    /// Prefix of the section.
    pub fn prefix(&self) -> (prefix: &Prefix)
        ensures
            *prefix == self.prefix,
    {
        &self.prefix
    }

    /// Version of the elders.
    pub fn version(&self) -> (version: u64)
        ensures
            version == self.version,
    {
        self.version
    }

    /// Elders, in the order in which they are contacted.
    pub fn member_nodes(&self) -> (members: &Vec<P2pNode>)
        ensures
            *members == self.members,
    {
        &self.members
    }
}

/// Public key of a section at one point of its history.
#[derive(Clone, Copy, Debug, PartialEq, Eq)]
pub struct SectionKeyInfo {
    pub prefix: Prefix,
    pub version: u64,
    pub key: [u8; 48],
}

impl SectionKeyInfo {
    /// Prefix of the section.
    pub fn prefix(&self) -> (prefix: &Prefix)
        ensures
            *prefix == self.prefix,
    {
        &self.prefix
    }
}

/// State of a section that a newly approved node starts from.
#[derive(Clone, Debug, PartialEq, Eq)]
pub struct GenesisPfxInfo {
    /// Elders of the section.
    pub elders_info: EldersInfo,
    /// Everything else, encoded.
    pub rest: Bytes,
}

} // verus!
