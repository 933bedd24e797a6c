//! Peer discovery: every device broadcasts its handshake on the LAN, and a
//! device that hears an announcement decides whether to open a connection.

use crate::frame::HandShake;
use crate::net::{contains_address, IpAddress, SocketAddress, BROADCAST_V4};
use crate::transport::{Details, PeerTable};
use vstd::prelude::*;

verus! {

/// Announcing this device and reacting to the announcements of others.
pub struct Discovery;

/// Seconds between two broadcasts of this device's announcement.
pub const BROADCAST_INTERVAL_SECS: u64 = 300;

/// Where to connect after hearing `announce` from `sender`: nowhere when the
/// announcement came from one of this device's own addresses or from a device
/// already connected; otherwise the sender's IP at the TCP port it announced.
pub open spec fn dial_target<S>(
    my_addresses: Seq<IpAddress>,
    sender: SocketAddress,
    announce: HandShake,
    peers: Map<u128, Details<S>>,
) -> Option<SocketAddress> {
    if my_addresses.contains(sender.ip) || peers.contains_key(announce.device_id) {
        None
    } else {
        Some(SocketAddress { ip: sender.ip, port: announce.tcp_port })
    }
}

impl Discovery {
    /// The address announcements are sent to: 255.255.255.255 at the broadcast port.
    pub fn broadcast_target(broadcast_port: u16) -> (target: SocketAddress)
        ensures
            target == (SocketAddress { ip: IpAddress::V4(BROADCAST_V4), port: broadcast_port }),
    {
        SocketAddress::broadcast(broadcast_port)
    }

    /// What follows a broadcast: wait `BROADCAST_INTERVAL_SECS` seconds and
    /// broadcast again when the send went out; stop broadcasting once a send failed.
    pub fn next_broadcast_delay(sent: bool) -> (delay: Option<u64>)
        ensures
            sent ==> delay == Some(BROADCAST_INTERVAL_SECS),
            !sent ==> delay is None,
    {
        if sent {
            Some(BROADCAST_INTERVAL_SECS)
        } else {
            None
        }
    }

    /// The announcement this device broadcasts.
    pub fn announcement(device_id: u128, tcp_port: u16) -> (announce: HandShake)
        ensures
            announce == (HandShake { device_id, tcp_port }),
    {
        HandShake::new(device_id, tcp_port)
    }

    /// Decides what to do with the announcement `announce` heard from `sender`,
    /// given this device's own addresses and the peers already connected.
    pub fn connect_target<S>(
        my_addresses: &Vec<IpAddress>,
        sender: SocketAddress,
        announce: HandShake,
        peers: &PeerTable<S>,
    ) -> (target: Option<SocketAddress>)
        ensures
            target == dial_target(my_addresses@, sender, announce, peers@),
    {
        if contains_address(my_addresses, sender.ip) || peers.has_peer(announce.device_id) {
            None
        } else {
            Some(SocketAddress::new(sender.ip, announce.tcp_port))
        }
    }
}

/// A device never dials itself: an announcement heard from one of its own
/// addresses leads nowhere, whatever it announces.
pub proof fn lemma_never_dials_own_address<S>(
    my_addresses: Seq<IpAddress>,
    sender: SocketAddress,
    announce: HandShake,
    peers: Map<u128, Details<S>>,
)
    requires
        my_addresses.contains(sender.ip),
    ensures
        dial_target(my_addresses, sender, announce, peers) is None,
{
}

/// Once a device is registered in the peer table, its further announcements
/// do not lead to a second connection.
pub proof fn lemma_registered_peer_not_redialed<S>(
    my_addresses: Seq<IpAddress>,
    sender: SocketAddress,
    announce: HandShake,
    peers: Map<u128, Details<S>>,
    details: Details<S>,
)
    ensures
        dial_target(my_addresses, sender, announce, peers.insert(announce.device_id, details))
            is None,
{
}

/// A device that is neither this one nor connected is dialled at the TCP
/// port it announced, on the IP the announcement came from.
pub proof fn lemma_unknown_peer_dialed_at_announced_port<S>(
    my_addresses: Seq<IpAddress>,
    sender: SocketAddress,
    announce: HandShake,
    peers: Map<u128, Details<S>>,
)
    requires
        !my_addresses.contains(sender.ip),
        !peers.contains_key(announce.device_id),
    ensures
        dial_target(my_addresses, sender, announce, peers) == Some(
            SocketAddress { ip: sender.ip, port: announce.tcp_port },
        ),
{
}

} // verus!
