//! Peer addresses: 32-byte identifiers of the nodes of the network.

use tdn::types::primitive::PeerAddr;
use vstd::prelude::*;
use vstd::utf8::is_ascii_chars;

use crate::error::DeviceError;

verus! {

/// The address of a peer: a fixed-width binary identifier.
#[derive(Clone, Copy, Debug, PartialEq, Eq)]
pub struct PeerAddress {
    pub bytes: [u8; 32],
}

/// What `PeerAddr::from_hex` of tdn makes of an ASCII text: the 32 bytes of
/// the address, or `None` where it rejects the text.
pub uninterp spec fn peer_addr_from_hex(text: Seq<char>) -> Option<Seq<u8>>;

/// The address whose bytes are the given 32 bytes.
pub open spec fn address_with(bytes: Seq<u8>) -> PeerAddress {
    choose|address: PeerAddress| address.bytes@ == bytes
}

/// The address that a text stands for, if it stands for one. A text with a
/// character outside ASCII stands for none.
pub open spec fn address_of_text(text: Seq<char>) -> Option<PeerAddress> {
    if is_ascii_chars(text) {
        match peer_addr_from_hex(text) {
            Some(bytes) => if bytes.len() == 32 {
                Some(address_with(bytes))
            } else {
                None
            },
            None => None,
        }
    } else {
        None
    }
}

/// The address with given bytes is the one that `address_with` picks.
pub proof fn lemma_address_with(address: PeerAddress)
    ensures
        address_with(address.bytes@) == address,
{
    let picked = address_with(address.bytes@);
    assert(picked.bytes@ == address.bytes@);
    assert(picked.bytes =~= address.bytes);
}

/// Whether two 32-byte identifiers hold the same bytes.
pub fn same_bytes(left: &[u8; 32], right: &[u8; 32]) -> (equal: bool)
    ensures
        equal == (*left == *right),
{
    let mut i: usize = 0;
    while i < 32
        invariant
            i <= 32,
            forall|j: int| 0 <= j < i ==> left[j] == right[j],
        decreases 32 - i,
    {
        if left[i] != right[i] {
            return false;
        }
        i += 1;
    }
    assert(*left =~= *right);
    true
}

/// Calls `PeerAddr::from_hex` of tdn and hands out the bytes of the address
/// it returns. Trusted: the result is what that function makes of the text,
/// and it rejects every text that is not 64 bytes long. The text must be
/// ASCII, since the outside function slices it at byte offsets.
#[verifier::external_body]
fn decode_peer_addr(text: &str) -> (decoded: Option<[u8; 32]>)
    requires
        is_ascii_chars(text@),
    ensures
        decoded matches Some(bytes) ==> peer_addr_from_hex(text@) == Some(bytes@),
        decoded is None ==> peer_addr_from_hex(text@) is None,
        text@.len() != 64 ==> decoded is None,
{
    match PeerAddr::from_hex(text) {
        Ok(addr) => Some(addr.0),
        Err(_) => None,
    }
}

impl PeerAddress {
    /// The address made of the given bytes.
    pub fn from_bytes(bytes: [u8; 32]) -> (address: PeerAddress)
        ensures
            address.bytes == bytes,
    {
        PeerAddress { bytes }
    }

    /// Whether two addresses are the same address.
    pub fn same(&self, other: &PeerAddress) -> (equal: bool)
        ensures
            equal == (*self == *other),
    {
        same_bytes(&self.bytes, &other.bytes)
    }
}

/// The address that an already decoded text gave, or the error that
/// reports a malformed address.
pub fn address_from_decoded(decoded: Option<[u8; 32]>) -> (result: Result<PeerAddress, DeviceError>)
    ensures
        result == match decoded {
            Some(bytes) => Ok::<PeerAddress, DeviceError>(PeerAddress { bytes }),
            None => Err(DeviceError::InvalidAddress),
        },
{
    match decoded {
        Some(bytes) => Ok(PeerAddress { bytes }),
        None => Err(DeviceError::InvalidAddress),
    }
}

/// Reads a peer address from its text form.
///
/// The result is the address that the text stands for; a text that stands
/// for none is reported as `InvalidAddress`.
pub fn parse_address(text: &str) -> (result: Result<PeerAddress, DeviceError>)
    ensures
        result == match address_of_text(text@) {
            Some(address) => Ok::<PeerAddress, DeviceError>(address),
            None => Err(DeviceError::InvalidAddress),
        },
        text@.len() != 64 ==> result == Err::<PeerAddress, DeviceError>(
            DeviceError::InvalidAddress,
        ),
{
    if !text.is_ascii() {
        return Err(DeviceError::InvalidAddress);
    }
    let decoded = decode_peer_addr(text);
    proof {
        if let Some(bytes) = decoded {
            lemma_address_with(PeerAddress { bytes });
        }
    }
    address_from_decoded(decoded)
}

} // verus!
