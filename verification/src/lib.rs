//! Device routing and online-state resolution for groups of peers.
//!
//! Each group keeps a registry of device records and a live view of the
//! peers that are connected to it. A request names a group and, for most
//! operations, a target peer address; this crate decides whether the
//! target is the local node or a remote peer, and what follows from that:
//! an immediate answer, a message for the group's network channel, or an
//! error. Every decision is a pure function with a verified contract; the
//! caller performs the reading, the sampling and the sending.

pub mod address;
pub mod device;
pub mod dispatch;
pub mod error;
pub mod group;
pub mod notice;
pub mod routing;
