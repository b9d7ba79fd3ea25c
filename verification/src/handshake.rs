use vstd::prelude::*;

use crate::address::Address;
use crate::packet::Packet;

verus! {

/// The fixed client-hello payload: the client sends it once, immediately
/// after connecting.  It is an ordinary application-level payload, a
/// rendezvous convention layered on top of the transport, substitutable
/// without protocol redesign.
pub open spec fn client_hello() -> Seq<u8> {
    seq![99u8, 108u8, 105u8, 101u8, 110u8, 116u8, 45u8, 104u8, 101u8, 108u8, 108u8, 111u8]
}

/// The fixed server-hello payload: when it arrives from the configured server
/// address, `receive` surfaces `Connection` instead of a `Packet`.
pub open spec fn server_hello() -> Seq<u8> {
    seq![115u8, 101u8, 114u8, 118u8, 101u8, 114u8, 45u8, 104u8, 101u8, 108u8, 108u8, 111u8]
}

/// The client-hello literal as owned bytes.
pub fn client_hello_bytes() -> (v: Vec<u8>)
    ensures
        v@ == client_hello(),
{
    let mut v: Vec<u8> = Vec::new();
    v.push(99u8);
    v.push(108u8);
    v.push(105u8);
    v.push(101u8);
    v.push(110u8);
    v.push(116u8);
    v.push(45u8);
    v.push(104u8);
    v.push(101u8);
    v.push(108u8);
    v.push(108u8);
    v.push(111u8);
    proof {
        assert(v@ =~= client_hello());
    }
    v
}

/// The server-hello literal as owned bytes.
pub fn server_hello_bytes() -> (v: Vec<u8>)
    ensures
        v@ == server_hello(),
{
    let mut v: Vec<u8> = Vec::new();
    v.push(115u8);
    v.push(101u8);
    v.push(114u8);
    v.push(118u8);
    v.push(101u8);
    v.push(114u8);
    v.push(45u8);
    v.push(104u8);
    v.push(101u8);
    v.push(108u8);
    v.push(108u8);
    v.push(111u8);
    proof {
        assert(v@ =~= server_hello());
    }
    v
}

/// Byte-for-byte comparison of two payloads.
pub fn bytes_eq(a: &Vec<u8>, b: &Vec<u8>) -> (r: bool)
    ensures
        r == (a@ == b@),
{
    if a.len() != b.len() {
        return false;
    }
    let mut i: usize = 0;
    while i < a.len()
        invariant
            i <= a.len(),
            a@.len() == b@.len(),
            forall|k: int| 0 <= k < i ==> a@[k] == b@[k],
        decreases a.len() - i,
    {
        if a[i] != b[i] {
            return false;
        }
        i = i + 1;
    }
    proof {
        assert(a@ =~= b@);
    }
    true
}

/// The packet `connect` queues for the server right away: the client-hello
/// literal addressed to the configured server.
pub fn initial_handshake_packet(server: Address) -> (p: Packet)
    ensures
        p.address == server,
        p.payload@ == client_hello(),
{
    Packet::new(server, client_hello_bytes())
}

} // verus!
