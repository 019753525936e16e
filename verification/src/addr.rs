//! Endpoints of peers.
use vstd::prelude::*;

verus! {

/// Endpoint of a peer.
#[derive(Clone, Copy, Debug, PartialEq, Eq, Structural)]
pub struct SocketAddr {
    pub is_v6: bool,
    pub ip: u128,
    pub port: u16,
    pub flowinfo: u32,
    pub scope_id: u32,
}

impl SocketAddr {
    /// An IPv4 address stands in the low 32 bits of `ip`, and has neither flow information nor a
    /// scope.
    pub open spec fn well_formed(self) -> bool {
        !self.is_v6 ==> self.ip <= u32::MAX && self.flowinfo == 0 && self.scope_id == 0
    }

    /// Endpoint with an IPv4 address.
    pub fn new_v4(ip: u32, port: u16) -> (addr: SocketAddr)
        ensures
            addr.well_formed(),
            !addr.is_v6,
            addr.ip == ip,
            addr.port == port,
            addr.flowinfo == 0,
            addr.scope_id == 0,
    {
        SocketAddr { is_v6: false, ip: ip as u128, port, flowinfo: 0, scope_id: 0 }
    }

    /// Endpoint with an IPv6 address.
    pub fn new_v6(ip: u128, port: u16, flowinfo: u32, scope_id: u32) -> (addr: SocketAddr)
        ensures
            addr.well_formed(),
            addr == (SocketAddr { is_v6: true, ip, port, flowinfo, scope_id }),
    {
        SocketAddr { is_v6: true, ip, port, flowinfo, scope_id }
    }

    /// The IPv4 address of the endpoint, if it has one.
    pub fn as_v4(&self) -> (ip: Option<u32>)
        ensures
            ip == (if !self.is_v6 && self.ip <= u32::MAX {
                Some(self.ip as u32)
            } else {
                None
            }),
    {
        if !self.is_v6 && self.ip <= u32::MAX as u128 {
            Some(self.ip as u32)
        } else {
            None
        }
    }
}

} // verus!
