use device_routing::address::PeerAddress;
use device_routing::device::{list_online, online_devices, DeviceRecord};
use device_routing::error::{DeviceError, StorageFault};
use device_routing::group::{GroupId, GroupState, GroupStore};

fn addr(tag: u8) -> PeerAddress {
    PeerAddress::from_bytes([tag; 32])
}

fn gid(tag: u8) -> GroupId {
    GroupId::from_bytes([tag; 32])
}

fn device(id: i64, tag: u8) -> DeviceRecord {
    DeviceRecord {
        id,
        address: addr(tag),
        name: format!("device-{}", id),
        class: String::from("desktop"),
        registered: 1_600_000_000 + id,
    }
}

fn store_with(local: u8, peers: &[u8]) -> GroupStore {
    let mut state = GroupState::new(addr(local), 12);
    for peer in peers {
        state.peer_joined(addr(*peer));
    }
    let mut store = GroupStore::new();
    store.insert(gid(1), state);
    store
}

#[test]
fn clone_keeps_every_field() {
    let record = device(4, 9);
    let copy = record.clone();
    assert_eq!(copy, record);
    assert_eq!(copy.name, "device-4");
    assert_eq!(copy.registered, 1_600_000_004);
}

#[test]
fn list_online_keeps_local_and_connected_devices() {
    // The local node is 1 and the one connected peer 2; device 3 is offline.
    let store = store_with(1, &[2]);
    let stored = vec![device(10, 1), device(11, 2), device(12, 3)];
    let listed = list_online(&store, &gid(1), Ok(stored)).unwrap();
    assert_eq!(listed, vec![device(10, 1), device(11, 2)]);
}

#[test]
fn list_online_preserves_storage_order() {
    let store = store_with(1, &[5, 3, 7]);
    let stored = vec![
        device(1, 7),
        device(2, 4),
        device(3, 1),
        device(4, 3),
        device(5, 8),
        device(6, 5),
    ];
    let listed = list_online(&store, &gid(1), Ok(stored)).unwrap();
    let ids: Vec<i64> = listed.iter().map(|d| d.id).collect();
    assert_eq!(ids, vec![1, 3, 4, 6]);
}

#[test]
fn list_online_of_nothing_is_nothing() {
    let store = store_with(1, &[2]);
    assert_eq!(list_online(&store, &gid(1), Ok(vec![])), Ok(vec![]));
}

#[test]
fn list_online_without_any_online_device_is_empty() {
    let store = store_with(1, &[]);
    let stored = vec![device(1, 2), device(2, 3)];
    assert_eq!(list_online(&store, &gid(1), Ok(stored)), Ok(vec![]));
}

#[test]
fn list_online_keeps_repeated_records() {
    let store = store_with(1, &[2]);
    let stored = vec![device(1, 2), device(1, 2), device(2, 3)];
    let listed = list_online(&store, &gid(1), Ok(stored)).unwrap();
    assert_eq!(listed, vec![device(1, 2), device(1, 2)]);
}

#[test]
fn list_online_reports_unavailable_storage() {
    let store = store_with(1, &[2]);
    assert_eq!(
        list_online(&store, &gid(1), Err(StorageFault::Unavailable)),
        Err(DeviceError::StorageUnavailable)
    );
}

#[test]
fn list_online_reports_corrupt_storage() {
    let store = store_with(1, &[2]);
    assert_eq!(
        list_online(&store, &gid(1), Err(StorageFault::Corrupt)),
        Err(DeviceError::StorageCorrupt)
    );
}

#[test]
fn list_online_reports_an_unknown_group() {
    let store = store_with(1, &[2]);
    assert_eq!(
        list_online(&store, &gid(2), Ok(vec![device(1, 1)])),
        Err(DeviceError::UnknownGroup)
    );
}

#[test]
fn storage_fault_comes_before_unknown_group() {
    let store = GroupStore::new();
    assert_eq!(
        list_online(&store, &gid(2), Err(StorageFault::Corrupt)),
        Err(DeviceError::StorageCorrupt)
    );
}

#[test]
fn online_devices_filters_against_one_state() {
    let mut state = GroupState::new(addr(1), 0);
    state.peer_joined(addr(2));
    let devices = vec![device(1, 3), device(2, 2), device(3, 1)];
    let online = online_devices(&state, &devices);
    assert_eq!(online, vec![device(2, 2), device(3, 1)]);
    assert_eq!(devices.len(), 3);
}

#[test]
fn storage_faults_map_to_their_errors() {
    assert_eq!(StorageFault::Unavailable.to_error(), DeviceError::StorageUnavailable);
    assert_eq!(StorageFault::Corrupt.to_error(), DeviceError::StorageCorrupt);
}
