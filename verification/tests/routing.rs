use device_routing::address::PeerAddress;
use device_routing::error::DeviceError;
use device_routing::group::{GroupId, GroupState, GroupStore};
use device_routing::routing::{decide, resolve, RoutingDecision};

fn addr(tag: u8) -> PeerAddress {
    PeerAddress::from_bytes([tag; 32])
}

fn gid(tag: u8) -> GroupId {
    GroupId::from_bytes([tag; 32])
}

fn store() -> GroupStore {
    let mut state = GroupState::new(addr(1), 12);
    state.peer_joined(addr(2));
    let mut store = GroupStore::new();
    store.insert(gid(1), state);
    store.insert(gid(2), GroupState::new(addr(9), 1));
    store
}

#[test]
fn local_address_resolves_to_local() {
    let store = store();
    assert_eq!(resolve(&store, &gid(1), addr(1)), Ok(RoutingDecision::Local));
    assert_eq!(resolve(&store, &gid(2), addr(9)), Ok(RoutingDecision::Local));
}

#[test]
fn unconnected_address_resolves_to_remote() {
    let store = store();
    assert_eq!(
        resolve(&store, &gid(1), addr(3)),
        Ok(RoutingDecision::Remote(addr(3)))
    );
}

#[test]
fn connected_address_resolves_to_remote() {
    let store = store();
    assert_eq!(
        resolve(&store, &gid(1), addr(2)),
        Ok(RoutingDecision::Remote(addr(2)))
    );
}

#[test]
fn local_of_one_group_is_remote_in_another() {
    let store = store();
    assert_eq!(
        resolve(&store, &gid(2), addr(1)),
        Ok(RoutingDecision::Remote(addr(1)))
    );
}

#[test]
fn unknown_group_is_reported() {
    let store = store();
    assert_eq!(resolve(&store, &gid(3), addr(1)), Err(DeviceError::UnknownGroup));
}

#[test]
fn resolve_twice_gives_the_same_decision() {
    let store = store();
    for tag in 0..6u8 {
        let first = resolve(&store, &gid(1), addr(tag));
        let second = resolve(&store, &gid(1), addr(tag));
        assert_eq!(first, second);
    }
}

#[test]
fn address_that_differs_in_one_byte_is_remote() {
    let store = store();
    let mut bytes = [1u8; 32];
    bytes[17] = 0;
    let near = PeerAddress::from_bytes(bytes);
    assert_eq!(resolve(&store, &gid(1), near), Ok(RoutingDecision::Remote(near)));
}

#[test]
fn decide_compares_with_the_local_address() {
    assert_eq!(decide(&addr(1), addr(1)), RoutingDecision::Local);
    assert_eq!(decide(&addr(1), addr(2)), RoutingDecision::Remote(addr(2)));
}
