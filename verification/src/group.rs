//! The runtime state of the groups: the local node's address, the peers
//! that are connected, and the uptime, held per group.

use vstd::prelude::*;

use crate::address::{same_bytes, PeerAddress};
use crate::error::DeviceError;

verus! {

/// The identifier of a group: a fixed-width binary identifier.
#[derive(Clone, Copy, Debug, PartialEq, Eq)]
pub struct GroupId {
    pub bytes: [u8; 32],
}

impl GroupId {
    /// The identifier made of the given bytes.
    pub fn from_bytes(bytes: [u8; 32]) -> (id: GroupId)
        ensures
            id.bytes == bytes,
    {
        GroupId { bytes }
    }

    /// Whether two identifiers name the same group.
    pub fn same(&self, other: &GroupId) -> (equal: bool)
        ensures
            equal == (*self == *other),
    {
        same_bytes(&self.bytes, &other.bytes)
    }
}

/// What the runtime state of one group holds.
pub struct GroupStateView {
    /// The address of the local node.
    pub local: PeerAddress,
    /// The addresses of the peers that are connected to the group.
    pub connected: Set<PeerAddress>,
    /// The uptime of the group.
    pub uptime: u32,
}

impl GroupStateView {
    /// The local node is never one of the connected peers.
    pub open spec fn valid(self) -> bool {
        !self.connected.contains(self.local)
    }

    /// A device is online when its address is the local node's or that of
    /// a connected peer.
    pub open spec fn online(self, address: PeerAddress) -> bool {
        address == self.local || self.connected.contains(address)
    }
}

/// The runtime state of one group.
pub struct GroupState {
    local: PeerAddress,
    peers: Vec<PeerAddress>,
    uptime: u32,
}

impl View for GroupState {
    type V = GroupStateView;

    closed spec fn view(&self) -> GroupStateView {
        GroupStateView {
            local: self.local,
            connected: self.peers@.to_set(),
            uptime: self.uptime,
        }
    }
}

impl GroupState {
    /// No peer is listed twice, and the local node is not listed.
    #[verifier::type_invariant]
    pub closed spec fn well_formed(&self) -> bool {
        &&& self.peers@.no_duplicates()
        &&& !self.peers@.contains(self.local)
    }

    /// A well-formed state has a valid view.
    pub proof fn lemma_valid(&self)
        requires
            self.well_formed(),
        ensures
            self@.valid(),
    {
    }

    /// The state of a group to which no peer is connected yet.
    pub fn new(local: PeerAddress, uptime: u32) -> (state: GroupState)
        ensures
            state@ == (GroupStateView { local, connected: Set::empty(), uptime }),
            state.well_formed(),
    {
        let state = GroupState { local, peers: Vec::new(), uptime };
        assert(state.peers@.to_set() =~= Set::empty());
        state
    }

    /// The address of the local node.
    pub fn local_address(&self) -> (address: PeerAddress)
        ensures
            address == self@.local,
    {
        self.local
    }

    /// The uptime of the group.
    pub fn uptime(&self) -> (uptime: u32)
        ensures
            uptime == self@.uptime,
    {
        self.uptime
    }

    /// The position of an address among the connected peers.
    fn position(&self, address: &PeerAddress) -> (found: Option<usize>)
        ensures
            match found {
                Some(i) => i < self.peers@.len() && self.peers@[i as int] == *address,
                None => !self.peers@.contains(*address),
            },
    {
        let mut i: usize = 0;
        while i < self.peers.len()
            invariant
                i <= self.peers@.len(),
                forall|j: int| 0 <= j < i ==> self.peers@[j] != *address,
            decreases self.peers@.len() - i,
        {
            if self.peers[i].same(address) {
                return Some(i);
            }
            i += 1;
        }
        None
    }

    /// Whether the peer with this address is connected to the group.
    pub fn is_connected(&self, address: &PeerAddress) -> (connected: bool)
        ensures
            connected == self@.connected.contains(*address),
    {
        self.position(address).is_some()
    }

    /// Whether a device with this address is online: it is the local node
    /// or a connected peer.
    pub fn is_online(&self, address: &PeerAddress) -> (online: bool)
        ensures
            online == self@.online(*address),
    {
        self.local.same(address) || self.is_connected(address)
    }

    /// The addresses of the connected peers, each once.
    pub fn connected_peers(&self) -> (peers: Vec<PeerAddress>)
        ensures
            peers@.to_set() == self@.connected,
            peers@.no_duplicates(),
    {
        proof {
            use_type_invariant(self);
        }
        self.copy_peers()
    }

    /// A copy of the list of connected peers.
    fn copy_peers(&self) -> (peers: Vec<PeerAddress>)
        ensures
            peers@ == self.peers@,
    {
        let mut peers: Vec<PeerAddress> = Vec::new();
        let mut i: usize = 0;
        while i < self.peers.len()
            invariant
                i <= self.peers@.len(),
                peers@ == self.peers@.take(i as int),
            decreases self.peers@.len() - i,
        {
            peers.push(self.peers[i]);
            assert(self.peers@.take(i + 1) =~= self.peers@.take(i as int).push(self.peers@[i as int]));
            i += 1;
        }
        assert(self.peers@.take(i as int) =~= self.peers@);
        peers
    }

    /// Records that a peer joined the group. The local node and a peer that
    /// is connected already change nothing; the result says whether the
    /// peer was added.
    pub fn peer_joined(&mut self, address: PeerAddress) -> (added: bool)
        ensures
            added == (address != old(self)@.local && !old(self)@.connected.contains(address)),
            final(self)@ == (GroupStateView {
                connected: if added {
                    old(self)@.connected.insert(address)
                } else {
                    old(self)@.connected
                },
                ..old(self)@
            }),
    {
        proof {
            use_type_invariant(&*self);
        }
        if self.local.same(&address) || self.is_connected(&address) {
            return false;
        }
        let ghost before = self.peers@;
        let mut peers = self.copy_peers();
        peers.push(address);
        *self = GroupState { local: self.local, peers, uptime: self.uptime };
        assert(self.peers@.to_set() =~= before.to_set().insert(address)) by {
            assert forall|a: PeerAddress| self.peers@.contains(a) <==> (before.contains(a) || a
                == address) by {
                if before.contains(a) {
                    let k = choose|k: int| 0 <= k < before.len() && before[k] == a;
                    assert(self.peers@[k] == a);
                }
                if a == address {
                    assert(self.peers@[before.len() as int] == a);
                }
            }
        }
        true
    }

    /// Records that a peer left the group; the result says whether it was
    /// connected.
    pub fn peer_left(&mut self, address: PeerAddress) -> (removed: bool)
        ensures
            removed == old(self)@.connected.contains(address),
            final(self)@ == (GroupStateView {
                connected: old(self)@.connected.remove(address),
                ..old(self)@
            }),
    {
        proof {
            use_type_invariant(&*self);
        }
        let ghost before = self.peers@;
        match self.position(&address) {
            None => {
                assert(before.to_set().remove(address) =~= before.to_set());
                false
            },
            Some(i) => {
                let mut peers = self.copy_peers();
                peers.remove(i);
                *self = GroupState { local: self.local, peers, uptime: self.uptime };
                assert(self.peers@ == before.remove(i as int));
                assert forall|a: PeerAddress| self.peers@.contains(a) <==> (before.contains(a) && a
                    != address) by {
                    if self.peers@.contains(a) {
                        let k = choose|k: int| 0 <= k < self.peers@.len() && self.peers@[k] == a;
                        let m = if k < i { k } else { k + 1 };
                        assert(before[m] == a);
                    }
                    if before.contains(a) && a != address {
                        let m = choose|m: int| 0 <= m < before.len() && before[m] == a;
                        let k = if m < i { m } else { m - 1 };
                        assert(self.peers@[k] == a);
                    }
                }
                assert(self.peers@.to_set() =~= before.to_set().remove(address));
                assert(self.peers@.no_duplicates()) by {
                    assert forall|j: int, k: int|
                        0 <= j < self.peers@.len() && 0 <= k < self.peers@.len() && j != k implies self.peers@[j]
                        != self.peers@[k] by {
                        let mj = if j < i { j } else { j + 1 };
                        let mk = if k < i { k } else { k + 1 };
                        assert(before[mj] != before[mk]);
                    }
                }
                true
            },
        }
    }

    /// Sets the uptime of the group.
    pub fn set_uptime(&mut self, uptime: u32)
        ensures
            final(self)@ == (GroupStateView { uptime, ..old(self)@ }),
    {
        proof {
            use_type_invariant(&*self);
        }
        self.uptime = uptime;
    }
}

/// The runtime state of one group, under the group's identifier.
struct GroupEntry {
    id: GroupId,
    state: GroupState,
}

/// The runtime states of the groups that this node runs, by group.
pub struct GroupStore {
    entries: Vec<GroupEntry>,
}

impl View for GroupStore {
    type V = Map<GroupId, GroupState>;

    closed spec fn view(&self) -> Map<GroupId, GroupState> {
        Map::new(
            |id: GroupId| self.holds(id),
            |id: GroupId| self.entries@[self.place(id)].state,
        )
    }
}

impl GroupStore {
    /// Whether some entry is filed under the identifier.
    spec fn holds(&self, id: GroupId) -> bool {
        exists|i: int| 0 <= i < self.entries@.len() && self.entries@[i].id == id
    }

    /// Where the entry of a group stands.
    spec fn place(&self, id: GroupId) -> int {
        choose|i: int| 0 <= i < self.entries@.len() && self.entries@[i].id == id
    }

    /// No two entries are filed under the same identifier.
    #[verifier::type_invariant]
    pub closed spec fn well_formed(&self) -> bool {
        forall|i: int, j: int|
            0 <= i < self.entries@.len() && 0 <= j < self.entries@.len() && i != j
                ==> self.entries@[i].id != self.entries@[j].id
    }

    /// A store that holds the state of no group.
    pub fn new() -> (store: GroupStore)
        ensures
            store@ == Map::<GroupId, GroupState>::empty(),
            store.well_formed(),
    {
        let store = GroupStore { entries: Vec::new() };
        assert(store@ =~= Map::<GroupId, GroupState>::empty());
        store
    }

    /// The position of a group's entry.
    fn position(&self, id: &GroupId) -> (found: Option<usize>)
        ensures
            match found {
                Some(i) => i < self.entries@.len() && self.entries@[i as int].id == *id
                    && self.holds(*id) && self.place(*id) == i,
                None => !self.holds(*id),
            },
    {
        proof {
            use_type_invariant(self);
        }
        let mut i: usize = 0;
        while i < self.entries.len()
            invariant
                self.well_formed(),
                i <= self.entries@.len(),
                forall|j: int| 0 <= j < i ==> self.entries@[j].id != *id,
            decreases self.entries@.len() - i,
        {
            if self.entries[i].id.same(id) {
                return Some(i);
            }
            i += 1;
        }
        None
    }

    /// Files the state of a group under its identifier, in place of any
    /// state that was filed under it before.
    pub fn insert(&mut self, id: GroupId, state: GroupState)
        ensures
            final(self)@ == old(self)@.insert(id, state),
    {
        proof {
            use_type_invariant(&*self);
        }
        let ghost before = *self;
        let found = self.position(&id);
        let mut taken = GroupStore { entries: Vec::new() };
        core::mem::swap(self, &mut taken);
        let mut entries = taken.entries;
        match found {
            Some(i) => {
                entries.remove(i);
            },
            None => {},
        }
        let ghost middle = entries@;
        assert(forall|k: int| 0 <= k < middle.len() ==> middle[k].id != id);
        assert forall|k: int| 0 <= k < middle.len() implies exists|m: int|
            0 <= m < before.entries@.len() && before.entries@[m] == #[trigger] middle[k] by {
            if middle.len() == before.entries@.len() {
                assert(before.entries@[k] == middle[k]);
            } else {
                let i = before.place(id);
                let m = if k < i { k } else { k + 1 };
                assert(before.entries@[m] == middle[k]);
            }
        }
        entries.push(GroupEntry { id, state });
        *self = GroupStore { entries };
        proof {
            let after = *self;
            let n = middle.len() as int;
            assert(after.entries@[n].id == id);
            assert(after.holds(id));
            assert forall|other: GroupId| other != id implies (after.holds(other) <==> before.holds(
                other,
            )) && (before.holds(other) ==> after.entries@[after.place(other)].state
                == before.entries@[before.place(other)].state) by {
                if before.holds(other) {
                    let m = before.place(other);
                    let k = if middle.len() == before.entries@.len() {
                        m
                    } else if m < before.place(id) {
                        m
                    } else {
                        m - 1
                    };
                    assert(after.entries@[k] == before.entries@[m]);
                    assert(after.holds(other));
                }
                if after.holds(other) {
                    let k = after.place(other);
                    assert(k < n);
                    let m = choose|m: int|
                        0 <= m < before.entries@.len() && before.entries@[m] == middle[k];
                    assert(before.entries@[m].id == other);
                    assert(before.holds(other));
                    assert(before.place(other) == m);
                }
            }
            assert(after.place(id) == n);
            assert(after@ =~= before@.insert(id, state));
        }
    }

    /// The runtime state of a group, if the store holds one.
    pub fn get(&self, id: &GroupId) -> (found: Option<&GroupState>)
        ensures
            found == if self@.contains_key(*id) {
                Some(&self@[*id])
            } else {
                None
            },
    {
        match self.position(id) {
            Some(i) => Some(&self.entries[i].state),
            None => None,
        }
    }

    /// The local node's address in a group.
    pub fn local_address(&self, id: &GroupId) -> (result: Result<PeerAddress, DeviceError>)
        ensures
            result == if self@.contains_key(*id) {
                Ok::<PeerAddress, DeviceError>(self@[*id]@.local)
            } else {
                Err(DeviceError::UnknownGroup)
            },
    {
        match self.get(id) {
            Some(state) => Ok(state.local_address()),
            None => Err(DeviceError::UnknownGroup),
        }
    }

    /// The uptime of a group.
    pub fn uptime(&self, id: &GroupId) -> (result: Result<u32, DeviceError>)
        ensures
            result == if self@.contains_key(*id) {
                Ok::<u32, DeviceError>(self@[*id]@.uptime)
            } else {
                Err(DeviceError::UnknownGroup)
            },
    {
        match self.get(id) {
            Some(state) => Ok(state.uptime()),
            None => Err(DeviceError::UnknownGroup),
        }
    }

    /// The addresses of the peers that are connected to a group, each once.
    pub fn connected_peers(&self, id: &GroupId) -> (result: Result<Vec<PeerAddress>, DeviceError>)
        ensures
            match result {
                Ok(peers) => self@.contains_key(*id) && peers@.to_set() == self@[*id]@.connected
                    && peers@.no_duplicates(),
                Err(error) => !self@.contains_key(*id) && error == DeviceError::UnknownGroup,
            },
    {
        match self.get(id) {
            Some(state) => Ok(state.connected_peers()),
            None => Err(DeviceError::UnknownGroup),
        }
    }
}

} // verus!
