//! The registry of live connections.

use std::collections::HashMap;
use vstd::prelude::*;
use vstd::std_specs::iter::IteratorSpec;
use crate::types::{Address, Role};

verus! {

broadcast use vstd::std_specs::hash::group_hash_axioms;

/// What the registry records of one live connection.
pub struct ConnectionInternal<T> {
    /// The peer at the other end.
    pub addr: Address,
    /// The role that the local device plays on the link.
    pub role: Role,
    /// Where notifications for this link are forwarded to.
    pub hci_evt_tx: T,
}

/// The live connections by handle. The coordinator enters a connection when
/// its link has come up, and the connection takes its own entry out when the
/// link has gone down; nothing else changes the registry.
pub struct Registry<T> {
    connections: HashMap<u16, ConnectionInternal<T>>,
}

impl<T> View for Registry<T> {
    type V = Map<u16, ConnectionInternal<T>>;

    closed spec fn view(&self) -> Map<u16, ConnectionInternal<T>> {
        self.connections@
    }
}

/// The addresses of the peers that a registry holds a connection to.
pub open spec fn addresses_of<T>(connections: Map<u16, ConnectionInternal<T>>) -> Set<Address> {
    Set::new(
        |addr: Address|
            exists|handle: u16| #[trigger]
                connections.contains_key(handle) && connections[handle].addr == addr,
    )
}

impl<T> Registry<T> {
    /// A registry without connections.
    pub fn new() -> (registry: Self)
        ensures
            registry@ == Map::<u16, ConnectionInternal<T>>::empty(),
    {
        Registry { connections: HashMap::new() }
    }

    /// Whether a connection to `addr` is live.
    pub fn has_address(&self, addr: Address) -> (found: bool)
        ensures
            found == addresses_of(self@).contains(addr),
    {
        let mut found = false;
        let ghost entries = self.connections.values().remaining();
        for entry in walk: self.connections.values()
            invariant
                walk.seq() == entries,
                found == exists|i: int|
                    0 <= i < walk.index() && (#[trigger] walk.seq()[i]).addr == addr,
        {
            if entry.addr == addr {
                found = true;
            }
        }
        proof {
            // The walk visits the entries of the map, each of them and no other.
            let held = self.connections@;
            if found {
                let i = choose|i: int|
                    0 <= i < entries.len() && (#[trigger] entries[i]).addr == addr;
                assert(entries.unref()[i] == *entries[i]);
                assert(entries.unref().to_set().contains(*entries[i]));
            }
            if addresses_of(held).contains(addr) {
                let handle = choose|handle: u16| #[trigger]
                    held.contains_key(handle) && held[handle].addr == addr;
                assert(entries.unref().to_set().contains(held[handle]));
            }
        }
        found
    }

    /// Whether a connection holds `handle`.
    pub fn contains(&self, handle: u16) -> (found: bool)
        ensures
            found == self@.contains_key(handle),
    {
        self.connections.contains_key(&handle)
    }

    /// The number of live connections.
    pub fn len(&self) -> (count: usize)
        ensures
            count == self@.len(),
    {
        self.connections.len()
    }

    /// What is recorded of the connection that holds `handle`.
    pub fn get(&self, handle: u16) -> (entry: Option<&ConnectionInternal<T>>)
        ensures
            entry == (if self@.contains_key(handle) {
                Some(&self@[handle])
            } else {
                None
            }),
    {
        self.connections.get(&handle)
    }

    /// Enters `entry` under `handle`, which no connection holds.
    pub(crate) fn insert(&mut self, handle: u16, entry: ConnectionInternal<T>)
        requires
            !old(self)@.contains_key(handle),
        ensures
            final(self)@ == old(self)@.insert(handle, entry),
    {
        self.connections.insert(handle, entry);
    }

    /// Takes out the entry of `handle`, if there is one.
    pub(crate) fn remove(&mut self, handle: u16)
        ensures
            final(self)@ == old(self)@.remove(handle),
    {
        self.connections.remove(&handle);
    }
}

/// Where a notification for `handle` is to be forwarded: the endpoint of the
/// connection that holds the handle, or nowhere if none does.
pub open spec fn dispatch_target<T>(
    handle: u16,
    connections: Map<u16, ConnectionInternal<T>>,
) -> Option<T> {
    if connections.contains_key(handle) {
        Some(connections[handle].hci_evt_tx)
    } else {
        None
    }
}

/// Finds where a notification for `handle` is to be forwarded. A notification
/// for a handle that no connection holds is dropped.
pub fn dispatch_to<'a, T>(handle: u16, connections: &'a Registry<T>) -> (target: Option<&'a T>)
    ensures
        match dispatch_target(handle, connections@) {
            Some(endpoint) => target == Some(&endpoint),
            None => target is None,
        },
{
    match connections.get(handle) {
        Some(entry) => Some(&entry.hci_evt_tx),
        None => None,
    }
}

} // verus!
