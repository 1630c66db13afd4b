//! The dispatch surface: the five device operations that clients name.
//!
//! Each operation takes the group, the parameters of the request and what
//! it needs of the collaborators' state, and returns what is to be done:
//! an immediate answer, a message for the group's network channel, or an
//! error. Nothing is read, sampled or sent here, and no operation waits
//! for a peer.

use vstd::prelude::*;

use crate::address::{address_of_text, parse_address, PeerAddress};
use crate::device::{list_online, listing, DeviceRecord};
use crate::error::{DeviceError, StorageFault};
use crate::group::{GroupId, GroupState, GroupStore};
use crate::routing::{resolve, routing, RoutingDecision};

verus! {

/// A device operation that clients can request.
#[derive(Clone, Copy, Debug, PartialEq, Eq, Structural)]
pub enum Operation {
    /// List the online devices of the group.
    List,
    /// Query the status of a device.
    Status,
    /// Create a device.
    Create,
    /// Connect to a device.
    Connect,
    /// Delete a device.
    Delete,
}

impl Operation {
    /// The method name under which clients request the operation.
    pub open spec fn method_name(self) -> Seq<char> {
        match self {
            Operation::List => "device-list"@,
            Operation::Status => "device-status"@,
            Operation::Create => "device-create"@,
            Operation::Connect => "device-connect"@,
            Operation::Delete => "device-delete"@,
        }
    }

    /// The method name under which clients request the operation.
    pub fn method(self) -> (name: &'static str)
        ensures
            name@ == self.method_name(),
    {
        match self {
            Operation::List => "device-list",
            Operation::Status => "device-status",
            Operation::Create => "device-create",
            Operation::Connect => "device-connect",
            Operation::Delete => "device-delete",
        }
    }
}

/// One parameter of a request.
#[derive(Debug, PartialEq, Eq)]
pub enum Param {
    /// A text.
    Text(String),
    /// An integer.
    Integer(i64),
    /// A value of any other type.
    Other,
}

/// An event that travels through a group's network channel to a peer.
#[derive(Clone, Copy, Debug, PartialEq, Eq, Structural)]
pub enum DeviceEvent {
    /// Asks the peer for its status.
    StatusRequest,
    /// Announces the creation of the device.
    Create,
    /// Asks for a connection to the peer.
    Connect,
}

/// A network-bound message: an event for a peer within a group.
#[derive(Clone, Copy, Debug, PartialEq, Eq)]
pub struct GroupMessage {
    /// The group whose channel carries the message.
    pub group: GroupId,
    /// The peer that the message is addressed to.
    pub target: PeerAddress,
    /// The event that the message carries.
    pub event: DeviceEvent,
}

/// What is to be done for a request.
#[derive(Debug, PartialEq, Eq)]
pub enum Outcome {
    /// Answer at once with these devices.
    Devices(Vec<DeviceRecord>),
    /// The target is the local node: answer at once with freshly sampled
    /// local metrics and this uptime. Nothing is sent.
    LocalStatus { uptime: u32 },
    /// Hand this message to the network transport; no answer is awaited.
    Send(GroupMessage),
}

/// The peer address that a request names: the address that its first
/// parameter stands for, where that is a text that stands for one.
pub open spec fn requested_address(params: Seq<Param>) -> Option<PeerAddress> {
    if params.len() > 0 {
        match params[0] {
            Param::Text(text) => address_of_text(text@),
            _ => None,
        }
    } else {
        None
    }
}

/// The record identifier that a request names: its first parameter, where
/// that is an integer.
pub open spec fn requested_identifier(params: Seq<Param>) -> Option<i64> {
    if params.len() > 0 {
        match params[0] {
            Param::Integer(id) => Some(id),
            _ => None,
        }
    } else {
        None
    }
}

/// The outcome that sends an event to a peer of a group.
pub open spec fn sending(group: GroupId, target: PeerAddress, event: DeviceEvent) -> Outcome {
    Outcome::Send(GroupMessage { group, target, event })
}

/// What a status query for a target address comes to: for the local node
/// an immediate answer with the group's uptime, for a remote peer one
/// status request addressed to it.
pub open spec fn status_outcome(store: Map<GroupId, GroupState>, group: GroupId, target: PeerAddress)
    -> Result<Outcome, DeviceError> {
    match routing(store, group, target) {
        Err(error) => Err(error),
        Ok(RoutingDecision::Local) => Ok(Outcome::LocalStatus { uptime: store[group]@.uptime }),
        Ok(RoutingDecision::Remote(peer)) => Ok(sending(group, peer, DeviceEvent::StatusRequest)),
    }
}

/// What a status query comes to, from the parameters of the request.
pub open spec fn status_query_outcome(
    store: Map<GroupId, GroupState>,
    group: GroupId,
    params: Seq<Param>,
) -> Result<Outcome, DeviceError> {
    match requested_address(params) {
        Some(target) => status_outcome(store, group, target),
        None => Err(DeviceError::InvalidAddress),
    }
}

/// What a request that always sends an event to its target comes to.
pub open spec fn event_outcome(group: GroupId, params: Seq<Param>, event: DeviceEvent) -> Result<
    Outcome,
    DeviceError,
> {
    match requested_address(params) {
        Some(target) => Ok(sending(group, target, event)),
        None => Err(DeviceError::InvalidAddress),
    }
}

/// What a delete request comes to: never a success.
pub open spec fn delete_outcome(params: Seq<Param>) -> Result<Outcome, DeviceError> {
    match requested_identifier(params) {
        Some(_) => Err(DeviceError::UnsupportedOperation),
        None => Err(DeviceError::InvalidIdentifier),
    }
}

/// A request whose address is malformed is rejected as `InvalidAddress`
/// by the status query, by create and by connect, whatever the state of
/// the groups: no outcome comes of it, so nothing is read or sent.
pub proof fn lemma_malformed_address_is_rejected(
    store: Map<GroupId, GroupState>,
    group: GroupId,
    params: Seq<Param>,
)
    requires
        requested_address(params) is None,
    ensures
        status_query_outcome(store, group, params) == Err::<Outcome, DeviceError>(
            DeviceError::InvalidAddress,
        ),
        event_outcome(group, params, DeviceEvent::Create) == Err::<Outcome, DeviceError>(
            DeviceError::InvalidAddress,
        ),
        event_outcome(group, params, DeviceEvent::Connect) == Err::<Outcome, DeviceError>(
            DeviceError::InvalidAddress,
        ),
{
}

/// A status query for the local node of a group is answered at once with
/// the group's uptime; one for any other address sends one status request
/// to that address and answers nothing at once.
pub proof fn lemma_status_query_routes(
    store: Map<GroupId, GroupState>,
    group: GroupId,
    target: PeerAddress,
)
    requires
        store.contains_key(group),
    ensures
        target == store[group]@.local ==> status_outcome(store, group, target) == Ok::<
            Outcome,
            DeviceError,
        >(Outcome::LocalStatus { uptime: store[group]@.uptime }),
        target != store[group]@.local ==> status_outcome(store, group, target) == Ok::<
            Outcome,
            DeviceError,
        >(sending(group, target, DeviceEvent::StatusRequest)),
{
}

/// The peer address that a request names, or `InvalidAddress`.
pub fn target_of(params: &Vec<Param>) -> (result: Result<PeerAddress, DeviceError>)
    ensures
        result == match requested_address(params@) {
            Some(target) => Ok::<PeerAddress, DeviceError>(target),
            None => Err(DeviceError::InvalidAddress),
        },
{
    if params.len() == 0 {
        return Err(DeviceError::InvalidAddress);
    }
    match &params[0] {
        Param::Text(text) => parse_address(text.as_str()),
        _ => Err(DeviceError::InvalidAddress),
    }
}

/// The record identifier that a request names, or `InvalidIdentifier`.
pub fn identifier_of(params: &Vec<Param>) -> (result: Result<i64, DeviceError>)
    ensures
        result == match requested_identifier(params@) {
            Some(id) => Ok::<i64, DeviceError>(id),
            None => Err(DeviceError::InvalidIdentifier),
        },
{
    if params.len() == 0 {
        return Err(DeviceError::InvalidIdentifier);
    }
    match &params[0] {
        Param::Integer(id) => Ok(*id),
        _ => Err(DeviceError::InvalidIdentifier),
    }
}

/// Shapes the devices of a list request into its outcome.
pub fn device_list(devices: Vec<DeviceRecord>) -> (outcome: Outcome)
    ensures
        outcome == Outcome::Devices(devices),
{
    Outcome::Devices(devices)
}

/// The list operation: the online devices of the group, from what the
/// storage read gave.
pub fn list(
    store: &GroupStore,
    group: &GroupId,
    stored: Result<Vec<DeviceRecord>, StorageFault>,
) -> (result: Result<Outcome, DeviceError>)
    ensures
        match listing(
            store@,
            *group,
            match stored {
                Ok(devices) => Ok(devices@),
                Err(fault) => Err(fault),
            },
        ) {
            Ok(online) => result matches Ok(Outcome::Devices(devices)) && devices@ == online,
            Err(error) => result matches Err(reported) && reported == error,
        },
{
    match list_online(store, group, stored) {
        Ok(devices) => Ok(device_list(devices)),
        Err(error) => Err(error),
    }
}

/// The status query for an address that is already parsed.
pub fn status_query_at(store: &GroupStore, group: &GroupId, target: PeerAddress) -> (result: Result<
    Outcome,
    DeviceError,
>)
    ensures
        result == status_outcome(store@, *group, target),
{
    match resolve(store, group, target) {
        Err(error) => Err(error),
        Ok(RoutingDecision::Local) => match store.uptime(group) {
            Ok(uptime) => Ok(Outcome::LocalStatus { uptime }),
            Err(error) => Err(error),
        },
        Ok(RoutingDecision::Remote(peer)) => Ok(event_for(group, peer, DeviceEvent::StatusRequest)),
    }
}

/// The status query: a malformed address is rejected before the state of
/// the groups is looked at; the local node is answered at once; for a
/// remote peer one status request is sent.
pub fn status_query(store: &GroupStore, group: &GroupId, params: &Vec<Param>) -> (result: Result<
    Outcome,
    DeviceError,
>)
    ensures
        result == status_query_outcome(store@, *group, params@),
{
    match target_of(params) {
        Ok(target) => status_query_at(store, group, target),
        Err(error) => Err(error),
    }
}

/// The message that carries an event to a peer of a group.
pub fn event_for(group: &GroupId, target: PeerAddress, event: DeviceEvent) -> (outcome: Outcome)
    ensures
        outcome == sending(*group, target, event),
{
    Outcome::Send(GroupMessage { group: *group, target, event })
}

/// The create operation: always one create event addressed to the target,
/// whether it is local or remote.
pub fn create(group: &GroupId, params: &Vec<Param>) -> (result: Result<Outcome, DeviceError>)
    ensures
        result == event_outcome(*group, params@, DeviceEvent::Create),
{
    match target_of(params) {
        Ok(target) => Ok(event_for(group, target, DeviceEvent::Create)),
        Err(error) => Err(error),
    }
}

/// The connect operation: always one connect event addressed to the
/// target, whether it is local or remote.
pub fn connect(group: &GroupId, params: &Vec<Param>) -> (result: Result<Outcome, DeviceError>)
    ensures
        result == event_outcome(*group, params@, DeviceEvent::Connect),
{
    match target_of(params) {
        Ok(target) => Ok(event_for(group, target, DeviceEvent::Connect)),
        Err(error) => Err(error),
    }
}

/// The delete operation: not implemented. A request that names a record
/// identifier is reported as `UnsupportedOperation`, any other as
/// `InvalidIdentifier`; none succeeds.
pub fn delete(group: &GroupId, params: &Vec<Param>) -> (result: Result<Outcome, DeviceError>)
    ensures
        result == delete_outcome(params@),
        result is Err,
{
    match identifier_of(params) {
        Ok(_) => Err(DeviceError::UnsupportedOperation),
        Err(error) => Err(error),
    }
}

} // verus!
