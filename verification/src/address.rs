use vstd::prelude::*;

verus! {

/// A remote endpoint: an IPv4 address held as plain octets plus a port, so
/// that contracts can speak of it directly.  The client socket is strictly
/// single-peer: the only valid remote sender is the address given to
/// `connect`.
#[derive(Clone, Copy, PartialEq, Eq, Structural, Hash, Debug)]
pub struct Address {
    pub ip0: u8,
    pub ip1: u8,
    pub ip2: u8,
    pub ip3: u8,
    pub port: u16,
}

impl Address {
    pub fn new(ip0: u8, ip1: u8, ip2: u8, ip3: u8, port: u16) -> (a: Address)
        ensures
            a == (Address { ip0, ip1, ip2, ip3, port }),
    {
        Address { ip0, ip1, ip2, ip3, port }
    }
}

} // verus!
