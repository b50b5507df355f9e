//! Internet addresses as the codecs see them: the octets of an address in
//! network order, and a port.

use vstd::prelude::*;

verus! {

/// An IP address, by its octets in network order.
#[derive(Debug, Clone, Copy, PartialEq, Eq, Hash)]
pub enum IpAddr {
    /// An IPv4 address.
    V4([u8; 4]),
    /// An IPv6 address.
    V6([u8; 16]),
}

/// An IP address together with a port.
#[derive(Debug, Clone, Copy, PartialEq, Eq, Hash)]
pub struct SocketAddr {
    pub ip: IpAddr,
    pub port: u16,
}

impl SocketAddr {
    /// The address with the given IP address and port.
    pub fn new(ip: IpAddr, port: u16) -> (addr: SocketAddr)
        ensures
            addr == (SocketAddr { ip, port }),
    {
        SocketAddr { ip, port }
    }
}

/// The four octets that are the four bytes of `bytes` from `at` on.
pub open spec fn octets4(bytes: Seq<u8>, at: int) -> [u8; 4]
    recommends
        0 <= at,
        at + 4 <= bytes.len(),
{
    [bytes[at], bytes[at + 1], bytes[at + 2], bytes[at + 3]]
}

/// The sixteen octets that are the sixteen bytes of `bytes` from `at` on.
pub open spec fn octets16(bytes: Seq<u8>, at: int) -> [u8; 16]
    recommends
        0 <= at,
        at + 16 <= bytes.len(),
{
    [
        bytes[at],
        bytes[at + 1],
        bytes[at + 2],
        bytes[at + 3],
        bytes[at + 4],
        bytes[at + 5],
        bytes[at + 6],
        bytes[at + 7],
        bytes[at + 8],
        bytes[at + 9],
        bytes[at + 10],
        bytes[at + 11],
        bytes[at + 12],
        bytes[at + 13],
        bytes[at + 14],
        bytes[at + 15],
    ]
}

/// Copies four octets from `bytes`, starting at `at`.
pub fn read_octets4(bytes: &[u8], at: usize) -> (octets: [u8; 4])
    requires
        at + 4 <= bytes@.len(),
    ensures
        octets == octets4(bytes@, at as int),
        octets@ == bytes@.subrange(at as int, at + 4),
{
    let octets: [u8; 4] = [bytes[at], bytes[at + 1], bytes[at + 2], bytes[at + 3]];
    assert(octets =~= octets4(bytes@, at as int));
    assert(octets@ =~= bytes@.subrange(at as int, at + 4));
    octets
}

/// Copies sixteen octets from `bytes`, starting at `at`.
pub fn read_octets16(bytes: &[u8], at: usize) -> (octets: [u8; 16])
    requires
        at + 16 <= bytes@.len(),
    ensures
        octets == octets16(bytes@, at as int),
        octets@ == bytes@.subrange(at as int, at + 16),
{
    let octets: [u8; 16] = [
        bytes[at],
        bytes[at + 1],
        bytes[at + 2],
        bytes[at + 3],
        bytes[at + 4],
        bytes[at + 5],
        bytes[at + 6],
        bytes[at + 7],
        bytes[at + 8],
        bytes[at + 9],
        bytes[at + 10],
        bytes[at + 11],
        bytes[at + 12],
        bytes[at + 13],
        bytes[at + 14],
        bytes[at + 15],
    ];
    assert(octets =~= octets16(bytes@, at as int));
    assert(octets@ =~= bytes@.subrange(at as int, at + 16));
    octets
}

/// Octets that are read from their own bytes are the same octets.
pub proof fn lemma_octets4_of_view(octets: [u8; 4], before: Seq<u8>)
    ensures
        octets4(before + octets@, before.len() as int) == octets,
{
    assert(octets4(before + octets@, before.len() as int) =~= octets);
}

/// Octets that are read from their own bytes are the same octets.
pub proof fn lemma_octets16_of_view(octets: [u8; 16], before: Seq<u8>)
    ensures
        octets16(before + octets@, before.len() as int) == octets,
{
    assert(octets16(before + octets@, before.len() as int) =~= octets);
}

} // verus!
