//! The errors that the device operations report.

use vstd::prelude::*;

verus! {

/// Why a device operation did not produce an outcome.
#[derive(Clone, Copy, Debug, PartialEq, Eq, Structural)]
pub enum DeviceError {
    /// The request carries no well-formed peer address.
    InvalidAddress,
    /// The request carries no well-formed record identifier.
    InvalidIdentifier,
    /// The group has no runtime state.
    UnknownGroup,
    /// The device storage could not be reached.
    StorageUnavailable,
    /// A stored device record failed to decode.
    StorageCorrupt,
    /// The operation is declared but not implemented.
    UnsupportedOperation,
}

impl DeviceError {
    /// The text that tells a client what went wrong.
    pub open spec fn text(self) -> Seq<char> {
        match self {
            DeviceError::InvalidAddress => "PeerAddr invalid!"@,
            DeviceError::InvalidIdentifier => "device id invalid!"@,
            DeviceError::UnknownGroup => "group is not running!"@,
            DeviceError::StorageUnavailable => "storage unavailable!"@,
            DeviceError::StorageCorrupt => "storage corrupt!"@,
            DeviceError::UnsupportedOperation => "not implemented!"@,
        }
    }

    /// The text that tells a client what went wrong.
    pub fn message(self) -> (message: &'static str)
        ensures
            message@ == self.text(),
    {
        match self {
            DeviceError::InvalidAddress => "PeerAddr invalid!",
            DeviceError::InvalidIdentifier => "device id invalid!",
            DeviceError::UnknownGroup => "group is not running!",
            DeviceError::StorageUnavailable => "storage unavailable!",
            DeviceError::StorageCorrupt => "storage corrupt!",
            DeviceError::UnsupportedOperation => "not implemented!",
        }
    }
}

/// Why the device storage could not hand out the records of a group.
#[derive(Clone, Copy, Debug, PartialEq, Eq, Structural)]
pub enum StorageFault {
    /// The storage could not be reached.
    Unavailable,
    /// A record failed to decode.
    Corrupt,
}

impl StorageFault {
    /// The device error that reports this fault to the caller.
    pub open spec fn as_error(self) -> DeviceError {
        match self {
            StorageFault::Unavailable => DeviceError::StorageUnavailable,
            StorageFault::Corrupt => DeviceError::StorageCorrupt,
        }
    }

    /// Maps the fault to the error that the operations report.
    pub fn to_error(self) -> (error: DeviceError)
        ensures
            error == self.as_error(),
    {
        match self {
            StorageFault::Unavailable => DeviceError::StorageUnavailable,
            StorageFault::Corrupt => DeviceError::StorageCorrupt,
        }
    }
}

} // verus!
