//! The 32-byte identifier of an account or an object.

use vstd::prelude::*;

verus! {

/// A 32-byte on-chain identifier, of an account or of an object.
#[derive(Clone, Copy, Debug, PartialEq, Eq, Hash)]
pub struct SuiAddress {
    pub bytes: [u8; 32],
}

impl SuiAddress {
    /// Wraps 32 bytes as an address.
    pub fn from_array(bytes: [u8; 32]) -> (a: SuiAddress)
        ensures
            a.bytes == bytes,
    {
        SuiAddress { bytes }
    }

    /// The 32 bytes of the address.
    pub fn into_array(self) -> (bytes: [u8; 32])
        ensures
            bytes == self.bytes,
    {
        self.bytes
    }

    /// The bytes of the address as a slice of length 32.
    pub fn as_slice(&self) -> (s: &[u8])
        ensures
            s@ == self.bytes@,
            s@.len() == 32,
    {
        self.bytes.as_slice()
    }
}

/// An address as the schema presents it: a node that wraps the identifier.
#[derive(Clone, Copy, Debug, PartialEq, Eq)]
pub struct Address {
    pub address: SuiAddress,
}

impl From<Address> for SuiAddress {
    fn from(a: Address) -> (s: SuiAddress) {
        a.address
    }
}

impl vstd::std_specs::convert::FromSpecImpl<Address> for SuiAddress {
    open spec fn obeys_from_spec() -> bool {
        true
    }

    open spec fn from_spec(a: Address) -> SuiAddress {
        a.address
    }
}

impl From<SuiAddress> for Address {
    fn from(a: SuiAddress) -> (s: Address) {
        Address { address: a }
    }
}

impl vstd::std_specs::convert::FromSpecImpl<SuiAddress> for Address {
    open spec fn obeys_from_spec() -> bool {
        true
    }

    open spec fn from_spec(a: SuiAddress) -> Address {
        Address { address: a }
    }
}

} // verus!
