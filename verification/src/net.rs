//! Network addresses as plain values: an IP address (IPv4 as its 32-bit
//! number, IPv6 as its 128-bit number) and a socket address.

use vstd::prelude::*;

verus! {

#[derive(Debug, Clone, Copy, PartialEq, Eq, Structural)]
pub enum IpAddress {
    V4(u32),
    V6(u128),
}

#[derive(Debug, Clone, Copy, PartialEq, Eq, Structural)]
pub struct SocketAddress {
    pub ip: IpAddress,
    pub port: u16,
}

/// The IPv4 limited-broadcast address 255.255.255.255.
pub const BROADCAST_V4: u32 = 0xffff_ffff;

impl SocketAddress {
    pub fn new(ip: IpAddress, port: u16) -> (a: SocketAddress)
        ensures
            a.ip == ip,
            a.port == port,
    {
        SocketAddress { ip, port }
    }

    /// The IPv4 broadcast address 255.255.255.255 at `port`.
    pub fn broadcast(port: u16) -> (a: SocketAddress)
        ensures
            a.ip == IpAddress::V4(BROADCAST_V4),
            a.port == port,
    {
        SocketAddress { ip: IpAddress::V4(BROADCAST_V4), port }
    }
}

/// Whether `ip` occurs in `addresses`.
pub fn contains_address(addresses: &Vec<IpAddress>, ip: IpAddress) -> (found: bool)
    ensures
        found == addresses@.contains(ip),
{
    let mut i: usize = 0;
    while i < addresses.len()
        invariant
            i <= addresses@.len(),
            forall|j: int| 0 <= j < i ==> addresses@[j] != ip,
        decreases addresses@.len() - i,
    {
        if addresses[i] == ip {
            assert(addresses@[i as int] == ip);
            return true;
        }
        i = i + 1;
    }
    false
}

} // verus!
