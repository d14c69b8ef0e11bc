//! Classification of the one-byte M-Bus address field.

use vstd::prelude::*;

verus! {

/// An M-Bus address field.
///
/// Every byte value classifies to exactly one variant; the mapping is total.
#[derive(Debug, Clone, PartialEq)]
#[non_exhaustive]
pub enum Address {
    Unconfigured,
    Configured(u8),
    AddressingPerformedInNetworkLayer,
    Broadcast,
    Reserved,
}

/// The address classification: byte 0 is unconfigured, 1 through 250 are
/// assigned slave addresses, 251 and 252 are reserved, 253 delegates
/// addressing to the network layer, and 254 and 255 are broadcast.
pub open spec fn spec_address(address: u8) -> Address {
    if address == 0 {
        Address::Unconfigured
    } else if address <= 250 {
        Address::Configured(address)
    } else if address == 251 || address == 252 {
        Address::Reserved
    } else if address == 253 {
        Address::AddressingPerformedInNetworkLayer
    } else {
        Address::Broadcast
    }
}

impl From<u8> for Address {
    /// Classifies an address byte; total, never fails.
    fn from(address: u8) -> (classified: Self)
        ensures
            classified == spec_address(address),
    {
        if address == 0 {
            Self::Unconfigured
        } else if address <= 250 {
            Self::Configured(address)
        } else if address == 251 || address == 252 {
            Self::Reserved
        } else if address == 253 {
            Self::AddressingPerformedInNetworkLayer
        } else {
            Self::Broadcast
        }
    }
}

impl vstd::std_specs::convert::FromSpecImpl<u8> for Address {
    open spec fn obeys_from_spec() -> bool {
        true
    }

    open spec fn from_spec(address: u8) -> Address {
        spec_address(address)
    }
}

} // verus!
