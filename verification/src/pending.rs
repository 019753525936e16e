//! The set of peers whose answer is awaited.
use crate::addr::SocketAddr;
use fxhash::{FxHashSet, FxHasher};
use std::hash::BuildHasherDefault;
use vstd::prelude::*;

verus! {

/// `fxhash::FxHasher`: the hasher of the set, which has no random state.
#[verifier::external_type_specification]
#[verifier::external_body]
pub struct ExFxHasher(FxHasher);

/// `std::hash::BuildHasherDefault`, through which `fxhash::FxHashSet` makes its hashers.
#[verifier::external_type_specification]
#[verifier::external_body]
#[verifier::reject_recursive_types(H)]
pub struct ExBuildHasherDefault<H>(BuildHasherDefault<H>);

/// An address as a tuple of its fields, which is what the set holds.
pub type AddrKey = (bool, u128, u16, u32, u32);

/// The fields of an address.
pub open spec fn addr_key(addr: SocketAddr) -> AddrKey {
    (addr.is_v6, addr.ip, addr.port, addr.flowinfo, addr.scope_id)
}

/// `FxHashSet::contains`: whether the key is in the set.
#[verifier::external_body]
fn fx_contains(keys: &FxHashSet<AddrKey>, key: &AddrKey) -> (found: bool)
    ensures
        found == keys@.contains(*key),
{
    keys.contains(key)
}

/// `FxHashSet::insert`: puts the key into the set and tells whether it was absent before.
#[verifier::external_body]
fn fx_insert(keys: &mut FxHashSet<AddrKey>, key: AddrKey) -> (added: bool)
    ensures
        final(keys)@ == old(keys)@.insert(key),
        added == !old(keys)@.contains(key),
{
    keys.insert(key)
}

/// `FxHashSet::remove`: takes the key out of the set and tells whether it was there before.
#[verifier::external_body]
fn fx_remove(keys: &mut FxHashSet<AddrKey>, key: &AddrKey) -> (removed: bool)
    ensures
        final(keys)@ == old(keys)@.remove(*key),
        removed == old(keys)@.contains(*key),
{
    keys.remove(key)
}

/// `FxHashSet::drain`: empties the set and hands out every key that was in it, each once. The
/// order in which they come depends on how the set grew and is left open.
#[verifier::external_body]
fn fx_drain(keys: &mut FxHashSet<AddrKey>) -> (drained: Vec<AddrKey>)
    ensures
        final(keys)@ == Set::<AddrKey>::empty(),
        drained@.no_duplicates(),
        drained@.to_set() == old(keys)@,
{
    keys.drain().collect()
}

/// Peers whose answer is awaited, each at most once.
#[derive(Debug)]
pub struct PendingRequests {
    keys: FxHashSet<AddrKey>,
}

impl View for PendingRequests {
    type V = Set<SocketAddr>;

    closed spec fn view(&self) -> Set<SocketAddr> {
        Set::new(|addr: SocketAddr| self.keys@.contains(addr_key(addr)))
    }
}

impl PendingRequests {
    /// No peers at all.
    pub fn new() -> (pending: PendingRequests)
        ensures
            pending@ == Set::<SocketAddr>::empty(),
    {
        let pending = PendingRequests { keys: FxHashSet::default() };
        assert(pending@ =~= Set::<SocketAddr>::empty());
        pending
    }

    /// Whether the answer of `addr` is awaited.
    pub fn contains(&self, addr: &SocketAddr) -> (found: bool)
        ensures
            found == self@.contains(*addr),
    {
        fx_contains(&self.keys, &key_of(addr))
    }

    /// Whether no answer is awaited.
    pub fn is_empty(&self) -> (empty: bool)
        ensures
            empty == (self@ == Set::<SocketAddr>::empty()),
    {
        let empty = self.keys.is_empty();
        proof {
            if empty {
                assert(self@ =~= Set::<SocketAddr>::empty());
            } else {
                let key = choose|key: AddrKey| self.keys@.contains(key);
                assert(self.keys@.contains(key)) by {
                    if forall|key: AddrKey| !self.keys@.contains(key) {
                        assert(self.keys@ =~= Set::<AddrKey>::empty());
                    }
                }
                let addr = SocketAddr {
                    is_v6: key.0,
                    ip: key.1,
                    port: key.2,
                    flowinfo: key.3,
                    scope_id: key.4,
                };
                assert(addr_key(addr) == key);
                assert(self@.contains(addr));
            }
        }
        empty
    }

    /// Adds `addr`, and tells whether it was absent before.
    pub fn insert(&mut self, addr: SocketAddr) -> (added: bool)
        ensures
            final(self)@ == old(self)@.insert(addr),
            added == !old(self)@.contains(addr),
    {
        let added = fx_insert(&mut self.keys, key_of(&addr));
        assert(self@ =~= old(self)@.insert(addr));
        added
    }

    /// Removes `addr`, and tells whether it was there before.
    pub fn remove(&mut self, addr: &SocketAddr) -> (removed: bool)
        ensures
            final(self)@ == old(self)@.remove(*addr),
            removed == old(self)@.contains(*addr),
    {
        let removed = fx_remove(&mut self.keys, &key_of(addr));
        assert(self@ =~= old(self)@.remove(*addr));
        removed
    }

    /// Removes every peer, and returns them in some order.
    pub fn drain(&mut self) -> (drained: Vec<SocketAddr>)
        ensures
            final(self)@ == Set::<SocketAddr>::empty(),
            drained@.no_duplicates(),
            drained@.to_set() == old(self)@,
    {
        let keys: Vec<AddrKey> = fx_drain(&mut self.keys);
        let mut drained: Vec<SocketAddr> = Vec::new();
        let mut i: usize = 0;
        while i < keys.len()
            invariant
                0 <= i <= keys.len(),
                drained.len() == i,
                forall|j: int| 0 <= j < i ==> addr_key(#[trigger] drained@[j]) == keys@[j],
            decreases keys.len() - i,
        {
            let key: AddrKey = keys[i];
            drained.push(
                SocketAddr {
                    is_v6: key.0,
                    ip: key.1,
                    port: key.2,
                    flowinfo: key.3,
                    scope_id: key.4,
                },
            );
            i = i + 1;
        }
        proof {
            assert(self@ =~= Set::<SocketAddr>::empty());
            assert forall|addr: SocketAddr| drained@.to_set().contains(addr) == old(
                self,
            )@.contains(addr) by {
                if drained@.contains(addr) {
                    let j = choose|j: int| 0 <= j < drained.len() && drained@[j] == addr;
                    assert(keys@[j] == addr_key(addr));
                    assert(keys@.to_set().contains(addr_key(addr)));
                }
                if old(self)@.contains(addr) {
                    assert(keys@.to_set().contains(addr_key(addr)));
                    let j = choose|j: int| 0 <= j < keys.len() && keys@[j] == addr_key(addr);
                    assert(drained@[j] == addr);
                }
            }
            assert(drained@.to_set() =~= old(self)@);
        }
        drained
    }
}

/// The fields of an address.
fn key_of(addr: &SocketAddr) -> (key: AddrKey)
    ensures
        key == addr_key(*addr),
{
    (addr.is_v6, addr.ip, addr.port, addr.flowinfo, addr.scope_id)
}

} // verus!
