use vstd::prelude::*;

use crate::address::Address;

verus! {

/// An opaque byte payload plus a remote endpoint address, immutable once
/// constructed.  For a client socket the address is always the single
/// configured server address; it is carried for symmetry with the server
/// side and for validation.
#[derive(Clone, PartialEq, Debug)]
pub struct Packet {
    pub address: Address,
    pub payload: Vec<u8>,
}

impl Packet {
    pub fn new(address: Address, payload: Vec<u8>) -> (p: Packet)
        ensures
            p.address == address,
            p.payload@ == payload@,
    {
        Packet { address, payload }
    }

    /// The payload bytes.
    pub fn payload(&self) -> (r: &Vec<u8>)
        ensures
            r@ == self.payload@,
    {
        &self.payload
    }

    /// The remote endpoint this packet was received from or is sent to.
    pub fn address(&self) -> (a: Address)
        ensures
            a == self.address,
    {
        self.address
    }
}

} // verus!
