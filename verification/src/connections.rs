//! The first discovery protocol: a device announces its name and TCP port on
//! UDP port 4000, and every announcement heard becomes a peer.

use crate::net::{IpAddress, SocketAddress, BROADCAST_V4};
use vstd::prelude::*;

verus! {

/// The UDP port on which announcements are sent and heard.
pub const ANNOUNCE_PORT: u16 = 4000;

/// A device heard on the network, at the address the announcement came from.
#[derive(Debug)]
pub struct Peer {
    pub device_id: String,
    pub addr: SocketAddress,
}

/// What a device broadcasts about itself: its name and TCP port.
#[derive(Debug)]
pub struct Announce {
    pub device_id: String,
    pub port: u16,
}

impl Announce {
    pub fn new(device_id: String, port: u16) -> (a: Announce)
        ensures
            a.device_id@ == device_id@,
            a.port == port,
    {
        Announce { device_id, port }
    }

    /// Where announcements are broadcast: 255.255.255.255 at the announce port.
    pub fn target() -> (a: SocketAddress)
        ensures
            a == (SocketAddress { ip: IpAddress::V4(BROADCAST_V4), port: ANNOUNCE_PORT }),
    {
        SocketAddress::broadcast(ANNOUNCE_PORT)
    }
}

impl Peer {
    /// The peer an announcement stands for: the announced name, at the
    /// address the announcement was sent from.
    pub fn from_announce(announce: Announce, sender: SocketAddress) -> (p: Peer)
        ensures
            p.device_id@ == announce.device_id@,
            p.addr == sender,
    {
        Peer { device_id: announce.device_id, addr: sender }
    }
}

} // verus!
