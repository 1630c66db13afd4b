//! The routing resolver: is the target of a request the local node or a
//! remote peer?

use vstd::prelude::*;

use crate::address::PeerAddress;
use crate::error::DeviceError;
use crate::group::{GroupId, GroupState, GroupStore};

verus! {

/// Where a request for a target address is handled.
#[derive(Clone, Copy, Debug, PartialEq, Eq)]
pub enum RoutingDecision {
    /// The target is the local node.
    Local,
    /// The target is the remote peer with this address.
    Remote(PeerAddress),
}

/// The decision for a target, given the local node's address.
pub open spec fn classify(local: PeerAddress, target: PeerAddress) -> RoutingDecision {
    if target == local {
        RoutingDecision::Local
    } else {
        RoutingDecision::Remote(target)
    }
}

/// The decision for a target in a group: `UnknownGroup` where the group
/// has no runtime state, else the decision against the group's local
/// address.
pub open spec fn routing(store: Map<GroupId, GroupState>, group: GroupId, target: PeerAddress)
    -> Result<RoutingDecision, DeviceError> {
    if store.contains_key(group) {
        Ok(classify(store[group]@.local, target))
    } else {
        Err(DeviceError::UnknownGroup)
    }
}

/// A target equal to the group's local address is classified `Local`.
pub proof fn lemma_local_target_is_local(
    store: Map<GroupId, GroupState>,
    group: GroupId,
    target: PeerAddress,
)
    requires
        store.contains_key(group),
        target == store[group]@.local,
    ensures
        routing(store, group, target) == Ok::<RoutingDecision, DeviceError>(RoutingDecision::Local),
{
}

/// A target that is not the group's local address is classified
/// `Remote` with that same address, whether or not it is connected.
pub proof fn lemma_other_target_is_remote(
    store: Map<GroupId, GroupState>,
    group: GroupId,
    target: PeerAddress,
)
    requires
        store.contains_key(group),
        target != store[group]@.local,
    ensures
        routing(store, group, target) == Ok::<RoutingDecision, DeviceError>(
            RoutingDecision::Remote(target),
        ),
{
}

/// A connected peer is never classified `Local`.
pub proof fn lemma_connected_target_is_remote(
    store: Map<GroupId, GroupState>,
    group: GroupId,
    target: PeerAddress,
)
    requires
        store.contains_key(group),
        store[group].well_formed(),
        store[group]@.connected.contains(target),
    ensures
        routing(store, group, target) == Ok::<RoutingDecision, DeviceError>(
            RoutingDecision::Remote(target),
        ),
{
    store[group].lemma_valid();
}

/// The decision depends on the store only through the group's local
/// address: while that does not change, repeating the resolution gives
/// the same decision.
pub proof fn lemma_routing_is_stable(
    before: Map<GroupId, GroupState>,
    after: Map<GroupId, GroupState>,
    group: GroupId,
    target: PeerAddress,
)
    requires
        before.contains_key(group) == after.contains_key(group),
        before.contains_key(group) ==> before[group]@.local == after[group]@.local,
    ensures
        routing(before, group, target) == routing(after, group, target),
{
}

/// Decides for a target address, against the local node's address.
pub fn decide(local: &PeerAddress, target: PeerAddress) -> (decision: RoutingDecision)
    ensures
        decision == classify(*local, target),
{
    if target.same(local) {
        RoutingDecision::Local
    } else {
        RoutingDecision::Remote(target)
    }
}

/// Resolves a target address in a group: `Local` where it is the group's
/// local address, `Remote` with the target otherwise, `UnknownGroup`
/// where the group has no runtime state.
pub fn resolve(store: &GroupStore, group: &GroupId, target: PeerAddress) -> (result: Result<
    RoutingDecision,
    DeviceError,
>)
    ensures
        result == routing(store@, *group, target),
{
    match store.get(group) {
        Some(state) => Ok(decide(&state.local_address(), target)),
        None => Err(DeviceError::UnknownGroup),
    }
}

} // verus!
