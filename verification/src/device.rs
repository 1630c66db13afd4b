//! Device records and the registry's online subset.
//!
//! A group's storage holds one record per device. The registry reads them
//! and keeps, in storage order, those whose address is the local node's or
//! that of a connected peer.

use vstd::prelude::*;

use crate::address::PeerAddress;
use crate::error::{DeviceError, StorageFault};
use crate::group::{GroupId, GroupState, GroupStateView, GroupStore};

verus! {

/// The persisted identity and metadata of one device within one group.
#[derive(Debug, PartialEq, Eq)]
pub struct DeviceRecord {
    /// The record identifier, unique within the group.
    pub id: i64,
    /// The peer address of the device, unique within the group.
    pub address: PeerAddress,
    /// The name of the device.
    pub name: String,
    /// The class of the device.
    pub class: String,
    /// When the device was registered.
    pub registered: i64,
}

impl Clone for DeviceRecord {
    fn clone(&self) -> (copy: DeviceRecord)
        ensures
            copy == *self,
    {
        DeviceRecord {
            id: self.id,
            address: self.address,
            name: self.name.clone(),
            class: self.class.clone(),
            registered: self.registered,
        }
    }
}

/// The devices among `devices` that are online in a group, in the order in
/// which `devices` holds them.
pub open spec fn online_among(state: GroupStateView, devices: Seq<DeviceRecord>) -> Seq<
    DeviceRecord,
> {
    devices.filter(|device: DeviceRecord| state.online(device.address))
}

/// The positions in `devices` of the devices that are online in a group,
/// in rising order.
pub open spec fn online_positions(state: GroupStateView, devices: Seq<DeviceRecord>) -> Seq<int>
    decreases devices.len(),
{
    if devices.len() == 0 {
        Seq::empty()
    } else {
        let before = online_positions(state, devices.drop_last());
        if state.online(devices.last().address) {
            before.push(devices.len() - 1)
        } else {
            before
        }
    }
}

/// What listing the online devices of a group gives: the storage's fault
/// where the read failed, `UnknownGroup` where the group has no runtime
/// state, else the online devices among those read.
pub open spec fn listing(
    store: Map<GroupId, GroupState>,
    group: GroupId,
    stored: Result<Seq<DeviceRecord>, StorageFault>,
) -> Result<Seq<DeviceRecord>, DeviceError> {
    match stored {
        Err(fault) => Err(fault.as_error()),
        Ok(devices) => if store.contains_key(group) {
            Ok(online_among(store[group]@, devices))
        } else {
            Err(DeviceError::UnknownGroup)
        },
    }
}

/// The online subset keeps exactly the online devices, each where it
/// stood: its items are the items of `devices` at the online positions,
/// the positions rise, and a position is among them if and only if the
/// device there is online.
pub proof fn lemma_online_subset(state: GroupStateView, devices: Seq<DeviceRecord>)
    ensures
        online_among(state, devices).len() == online_positions(state, devices).len(),
        online_among(state, devices).len() <= devices.len(),
        forall|k: int|
            0 <= k < online_positions(state, devices).len() ==> {
                let at = #[trigger] online_positions(state, devices)[k];
                &&& 0 <= at < devices.len()
                &&& online_among(state, devices)[k] == devices[at]
                &&& state.online(devices[at].address)
            },
        forall|j: int, k: int|
            0 <= j < k < online_positions(state, devices).len() ==> online_positions(
                state,
                devices,
            )[j] < online_positions(state, devices)[k],
        forall|i: int|
            0 <= i < devices.len() ==> (state.online(#[trigger] devices[i].address)
                <==> online_positions(state, devices).contains(i)),
    decreases devices.len(),
{
    let online = |device: DeviceRecord| state.online(device.address);
    let positions = online_positions(state, devices);
    reveal(Seq::filter);
    if devices.len() > 0 {
        let shorter = devices.drop_last();
        let before = online_positions(state, shorter);
        let last = devices.len() - 1;
        lemma_online_subset(state, shorter);
        assert(online_among(state, shorter) == shorter.filter(online));
        assert forall|i: int| 0 <= i < devices.len() implies (state.online(
            #[trigger] devices[i].address,
        ) <==> positions.contains(i)) by {
            if i < last {
                assert(shorter[i] == devices[i]);
                if before.contains(i) {
                    let k = choose|k: int| 0 <= k < before.len() && before[k] == i;
                    assert(positions[k] == i);
                }
                if positions.contains(i) {
                    let k = choose|k: int| 0 <= k < positions.len() && positions[k] == i;
                    assert(before[k] == i);
                }
            } else {
                if state.online(devices[i].address) {
                    assert(positions[before.len() as int] == i);
                }
                if positions.contains(i) {
                    let k = choose|k: int| 0 <= k < positions.len() && positions[k] == i;
                    if k < before.len() {
                        assert(before[k] == i);
                    }
                }
            }
        }
    }
}

/// The online subset of a list without two records of the same address
/// holds no two records of the same address.
pub proof fn lemma_online_subset_keeps_addresses_apart(
    state: GroupStateView,
    devices: Seq<DeviceRecord>,
)
    requires
        forall|i: int, j: int|
            0 <= i < j < devices.len() ==> devices[i].address != devices[j].address,
    ensures
        forall|i: int, j: int|
            0 <= i < j < online_among(state, devices).len() ==> online_among(
                state,
                devices,
            )[i].address != online_among(state, devices)[j].address,
{
    lemma_online_subset(state, devices);
    let positions = online_positions(state, devices);
    let online = online_among(state, devices);
    assert forall|i: int, j: int| 0 <= i < j < online.len() implies online[i].address
        != online[j].address by {
        assert(positions[i] < positions[j]);
        assert(online[i] == devices[positions[i]]);
        assert(online[j] == devices[positions[j]]);
    }
}

/// The online subset of a list without two records of the same identifier
/// holds no two records of the same identifier.
pub proof fn lemma_online_subset_keeps_ids_apart(state: GroupStateView, devices: Seq<DeviceRecord>)
    requires
        forall|i: int, j: int| 0 <= i < j < devices.len() ==> devices[i].id != devices[j].id,
    ensures
        forall|i: int, j: int|
            0 <= i < j < online_among(state, devices).len() ==> online_among(state, devices)[i].id
                != online_among(state, devices)[j].id,
{
    lemma_online_subset(state, devices);
    let positions = online_positions(state, devices);
    let online = online_among(state, devices);
    assert forall|i: int, j: int| 0 <= i < j < online.len() implies online[i].id
        != online[j].id by {
        assert(positions[i] < positions[j]);
        assert(online[i] == devices[positions[i]]);
        assert(online[j] == devices[positions[j]]);
    }
}

/// Keeps the devices that are online in a group, in their order.
pub fn online_devices(state: &GroupState, devices: &Vec<DeviceRecord>) -> (online: Vec<
    DeviceRecord,
>)
    ensures
        online@ == online_among(state@, devices@),
{
    let ghost keep = |device: DeviceRecord| state@.online(device.address);
    let mut online: Vec<DeviceRecord> = Vec::new();
    let mut i: usize = 0;
    proof {
        reveal(Seq::filter);
        assert(devices@.take(0).filter(keep) =~= Seq::<DeviceRecord>::empty());
    }
    while i < devices.len()
        invariant
            i <= devices@.len(),
            keep == (|device: DeviceRecord| state@.online(device.address)),
            online@ == devices@.take(i as int).filter(keep),
        decreases devices@.len() - i,
    {
        let is_online = state.is_online(&devices[i].address);
        proof {
            reveal(Seq::filter);
            let next = devices@.take(i + 1);
            assert(next.drop_last() =~= devices@.take(i as int));
            assert(next.last() == devices@[i as int]);
        }
        if is_online {
            online.push(devices[i].clone());
        }
        i += 1;
    }
    assert(devices@.take(i as int) =~= devices@);
    online
}

/// Lists the online devices of a group from what the storage read gave.
///
/// A failed read is reported as the storage's fault, before the runtime
/// state is looked at; a group without runtime state as `UnknownGroup`.
pub fn list_online(
    store: &GroupStore,
    group: &GroupId,
    stored: Result<Vec<DeviceRecord>, StorageFault>,
) -> (result: Result<Vec<DeviceRecord>, DeviceError>)
    ensures
        match listing(
            store@,
            *group,
            match stored {
                Ok(devices) => Ok(devices@),
                Err(fault) => Err(fault),
            },
        ) {
            Ok(online) => result matches Ok(devices) && devices@ == online,
            Err(error) => result matches Err(reported) && reported == error,
        },
{
    match stored {
        Err(fault) => Err(fault.to_error()),
        Ok(devices) => match store.get(group) {
            Some(state) => Ok(online_devices(state, &devices)),
            None => Err(DeviceError::UnknownGroup),
        },
    }
}

} // verus!
