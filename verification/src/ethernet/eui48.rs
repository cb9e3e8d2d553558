//! EUI-48 (MAC) addresses.
use vstd::prelude::*;

verus! {

/// An EUI-48 identifier (Ethernet MAC address).
#[derive(Clone, Copy, Debug)]
pub struct Identifier(pub [u8; 6]);

impl Identifier {
    /// The identifier with the given bytes.
    pub fn new(identifier: [u8; 6]) -> (r: Self)
        ensures r.0 == identifier,
    {
        Identifier(identifier)
    }

    /// The bytes of the identifier.
    pub fn as_bytes(&self) -> (r: [u8; 6])
        ensures r == self.0,
    {
        self.0
    }

    /// Whether the locally-administered bit (bit 1 of the first octet) is set.
    pub fn is_locally_administered(&self) -> (r: bool)
        ensures r == (self.0[0] & 0x2 != 0),
    {
        self.0[0] & 0x2 != 0
    }

    /// Whether the identifier is not locally administered.
    pub fn is_universally_administered(&self) -> (r: bool)
        ensures r == !(self.0[0] & 0x2 != 0),
    {
        !self.is_locally_administered()
    }
}

impl Default for Identifier {
    /// A default identifier is marked as locally administered (in byte 0).
    fn default() -> (r: Self)
        ensures r.0@ == seq![0x02u8, 0x00u8, 0x00u8, 0x00u8, 0x00u8, 0x00u8],
    {
        Identifier([0x02, 0x00, 0x00, 0x00, 0x00, 0x00])
    }
}

} // verus!
