//! The table of connected peers: for each peer's device id, the address it
//! connected from and the sending end of the channel that feeds its writer.

use crate::errors::AppErr;
use crate::frame::HandShake;
use crate::net::SocketAddress;
use std::collections::HashMap;
use vstd::std_specs::iter::IteratorSpec;
use vstd::prelude::*;

verus! {

broadcast use vstd::std_specs::hash::group_hash_axioms;

/// What is kept of one connected peer: its address and the sending end `S`
/// of the channel through which frames reach its connection.
#[derive(Debug)]
pub struct Details<S> {
    pub address: SocketAddress,
    pub out_tx: S,
}

impl<S> Details<S> {
    pub fn new(address: SocketAddress, out_tx: S) -> (d: Details<S>)
        ensures
            d.address == address,
            d.out_tx == out_tx,
    {
        Details { address, out_tx }
    }
}

/// The outcome of offering a frame to a peer's channel without waiting.
#[derive(Debug, Clone, Copy, PartialEq, Eq, Structural)]
pub enum SendOutcome {
    /// The frame was queued.
    Sent,
    /// The channel is full; this frame is dropped for that peer.
    Full,
    /// The receiving side is gone: the peer's connection has ended.
    Closed,
}

/// Whether a peer stays in the table after a send with this outcome: only a
/// closed channel removes it.
pub fn keeps_peer(outcome: SendOutcome) -> (keep: bool)
    ensures
        keep == !(outcome is Closed),
{
    match outcome {
        SendOutcome::Closed => false,
        _ => true,
    }
}

/// Connected peers keyed by device id; at most one entry per device.
#[derive(Debug)]
pub struct PeerTable<S> {
    peers: HashMap<u128, Details<S>>,
}

impl<S> View for PeerTable<S> {
    type V = Map<u128, Details<S>>;

    closed spec fn view(&self) -> Map<u128, Details<S>> {
        self.peers@
    }
}

impl<S> PeerTable<S> {
    pub fn new() -> (t: PeerTable<S>)
        ensures
            t@ == Map::<u128, Details<S>>::empty(),
    {
        PeerTable { peers: HashMap::new() }
    }

    /// The number of connected peers.
    pub fn len(&self) -> (n: usize)
        ensures
            n == self@.len(),
    {
        self.peers.len()
    }

    /// Whether a peer with this device id is connected.
    pub fn has_peer(&self, device_id: u128) -> (known: bool)
        ensures
            known == self@.contains_key(device_id),
    {
        self.peers.contains_key(&device_id)
    }

    /// The entry of a connected peer.
    pub fn get(&self, device_id: u128) -> (d: Option<&Details<S>>)
        ensures
            d is Some == self@.contains_key(device_id),
            d is Some ==> *d.unwrap() == self@[device_id],
    {
        self.peers.get(&device_id)
    }

    /// Adds a peer unless one with the same device id is already connected,
    /// in which case the table is left as it was. Tells whether it was added.
    pub fn register(&mut self, device_id: u128, details: Details<S>) -> (added: bool)
        ensures
            added == !old(self)@.contains_key(device_id),
            added ==> final(self)@ == old(self)@.insert(device_id, details),
            !added ==> final(self)@ == old(self)@,
    {
        if self.peers.contains_key(&device_id) {
            false
        } else {
            self.peers.insert(device_id, details);
            true
        }
    }

    /// Removes the peer with this device id, if any; tells whether there was one.
    pub fn unregister(&mut self, device_id: u128) -> (removed: bool)
        ensures
            removed == old(self)@.contains_key(device_id),
            final(self)@ == old(self)@.remove(device_id),
    {
        match self.peers.remove(&device_id) {
            Some(_) => true,
            None => false,
        }
    }

    /// The device ids of all connected peers, each once, in no particular order.
    pub fn ids(&self) -> (ids: Vec<u128>)
        ensures
            ids@.to_set() == self@.dom(),
            ids@.no_duplicates(),
    {
        let mut ids: Vec<u128> = Vec::new();
        let ghost all = vstd::std_specs::hash::spec_keys_iter(&self.peers).remaining().unref();
        for id in it: self.peers.keys()
            invariant
                it.seq().unref() == all,
                ids@.len() == it.index(),
                forall|j: int| 0 <= j < ids@.len() ==> ids@[j] == all[j],
        {
            ids.push(*id);
        }
        assert(ids@ =~= all);
        ids
    }
    /// Offers a frame to every connected peer through `send`, which reports
    /// for a peer's channel whether the frame was queued, dropped because the
    /// channel is full, or refused because the channel is closed. Peers whose
    /// channel is closed are removed; every other entry stays as it was.
    pub fn retain_reachable<F: Fn(&S) -> SendOutcome>(&mut self, send: F)
        requires
            forall|s: &S| send.requires((s,)),
        ensures
            forall|k: u128| #[trigger]
                final(self)@.contains_key(k) ==> old(self)@.contains_key(k) && final(self)@[k]
                    == old(self)@[k],
            forall|k: u128| #[trigger]
                old(self)@.contains_key(k) && !final(self)@.contains_key(k) ==> exists|
                    o: SendOutcome,
                | send.ensures((&old(self)@[k].out_tx,), o) && o is Closed,
            forall|k: u128| #[trigger]
                final(self)@.contains_key(k) ==> exists|o: SendOutcome|
                    send.ensures((&old(self)@[k].out_tx,), o) && !(o is Closed),
    {
        let ids = self.ids();
        let ghost start = self@;
        let mut i: usize = 0;
        while i < ids.len()
            invariant
                forall|s: &S| send.requires((s,)),
                ids@.to_set() == start.dom(),
                ids@.no_duplicates(),
                i <= ids@.len(),
                forall|k: u128| #[trigger]
                    self@.contains_key(k) ==> start.contains_key(k) && self@[k] == start[k],
                forall|j: int| i <= j < ids@.len() ==> self@.contains_key(#[trigger] ids@[j]),
                forall|j: int|
                    0 <= j < i && self@.contains_key(#[trigger] ids@[j]) ==> exists|o: SendOutcome|
                        send.ensures((&start[ids@[j]].out_tx,), o) && !(o is Closed),
                forall|j: int|
                    0 <= j < i && !self@.contains_key(#[trigger] ids@[j]) ==> exists|
                        o: SendOutcome,
                    | send.ensures((&start[ids@[j]].out_tx,), o) && o is Closed,
            decreases ids@.len() - i,
        {
            let id = ids[i];
            assert(self@.contains_key(ids@[i as int]));
            let outcome = match self.peers.get(&id) {
                Some(d) => send(&d.out_tx),
                None => SendOutcome::Sent,
            };
            let ghost before = self@;
            if !keeps_peer(outcome) {
                self.peers.remove(&id);
            }
            assert forall|j: int| i < j < ids@.len() implies self@.contains_key(
                #[trigger] ids@[j],
            ) by {
                assert(ids@[j] != ids@[i as int]);
                assert(before.contains_key(ids@[j]));
            }
            assert forall|j: int|
                0 <= j <= i && self@.contains_key(#[trigger] ids@[j]) implies exists|
                    o: SendOutcome,
                | send.ensures((&start[ids@[j]].out_tx,), o) && !(o is Closed) by {
                if j < i {
                    assert(ids@[j] != ids@[i as int]);
                    assert(before.contains_key(ids@[j]));
                } else {
                    assert(send.ensures((&start[ids@[j]].out_tx,), outcome));
                }
            }
            assert forall|j: int|
                0 <= j <= i && !self@.contains_key(#[trigger] ids@[j]) implies exists|
                    o: SendOutcome,
                | send.ensures((&start[ids@[j]].out_tx,), o) && o is Closed by {
                if j < i {
                    assert(ids@[j] != ids@[i as int]);
                    assert(!before.contains_key(ids@[j]));
                } else {
                    assert(send.ensures((&start[ids@[j]].out_tx,), outcome));
                }
            }
            i = i + 1;
        }
        assert forall|k: u128| #[trigger]
            start.contains_key(k) implies exists|j: int| 0 <= j < ids@.len() && ids@[j] == k by {
            assert(ids@.to_set().contains(k));
        }
    }
}

/// A connection that registers a device not yet connected and later ends
/// (removing that device) leaves the table as it found it. When the device was
/// already connected, registration keeps the first entry and the ending
/// connection removes that entry all the same.
pub proof fn lemma_connection_lifecycle<S>(
    peers: Map<u128, Details<S>>,
    device_id: u128,
    details: Details<S>,
)
    ensures
        !peers.contains_key(device_id) ==> peers.insert(device_id, details).remove(device_id)
            == peers,
        peers.contains_key(device_id) ==> !peers.remove(device_id).contains_key(device_id),
{
    if !peers.contains_key(device_id) {
        assert(peers.insert(device_id, details).remove(device_id) =~= peers);
    }
}

/// Where one peer connection stands: this side's handshake is being sent,
/// the peer's handshake is awaited, frames are being exchanged with the peer
/// of the given device id, or the connection is over.
#[derive(Debug, Clone, Copy, PartialEq, Eq, Structural)]
pub enum ConnectionPhase {
    Greeting,
    AwaitingPeer,
    Serving(u128),
    Closed,
}

/// What happened since the connection's last step.
#[derive(Debug)]
pub enum ConnectionEvent {
    /// This side's handshake was written, or writing it failed.
    HelloWritten(Result<(), AppErr>),
    /// The peer's handshake was read, or reading it failed.
    PeerHello(Result<HandShake, AppErr>),
    /// Exchanging frames with the peer stopped, on either side.
    PumpEnded,
}

/// What the caller does next for the connection.
#[derive(Debug)]
pub enum ConnectionAction {
    /// Read the peer's handshake.
    ReadHello,
    /// Register the peer (unless its device is connected already) and
    /// exchange frames with it until either direction stops.
    Register(HandShake),
    /// Remove this device id from the peer table; the connection ends well.
    Release(u128),
    /// The connection ends with this result.
    Stop(Result<(), AppErr>),
}

/// One connection with a peer, from the exchange of handshakes to its end.
#[derive(Debug)]
pub struct Connection {
    pub phase: ConnectionPhase,
}

impl Connection {
    /// A connection of the device `device_id` listening on `tcp_port`: it
    /// starts by sending its own handshake, returned here.
    pub fn new(device_id: u128, tcp_port: u16) -> (started: (Connection, HandShake))
        ensures
            started.0.phase == ConnectionPhase::Greeting,
            started.1 == (HandShake { device_id, tcp_port }),
    {
        (Connection { phase: ConnectionPhase::Greeting }, HandShake::new(device_id, tcp_port))
    }

    /// Takes what happened and tells what to do next. The handshake is sent
    /// before the peer's is read; any failure there ends the connection with
    /// that error; once frames stop flowing the peer's entry is removed.
    pub fn on_event(&mut self, event: ConnectionEvent) -> (action: ConnectionAction)
        requires
            old(self).phase is Greeting ==> event is HelloWritten,
            old(self).phase is AwaitingPeer ==> event is PeerHello,
            old(self).phase is Serving ==> event is PumpEnded,
            !(old(self).phase is Closed),
        ensures
            event matches ConnectionEvent::HelloWritten(Ok(_)) ==> {
                &&& final(self).phase == ConnectionPhase::AwaitingPeer
                &&& action is ReadHello
            },
            event matches ConnectionEvent::HelloWritten(Err(e)) ==> {
                &&& final(self).phase == ConnectionPhase::Closed
                &&& action == ConnectionAction::Stop(Err(e))
            },
            event matches ConnectionEvent::PeerHello(Ok(h)) ==> {
                &&& final(self).phase == ConnectionPhase::Serving(h.device_id)
                &&& action == ConnectionAction::Register(h)
            },
            event matches ConnectionEvent::PeerHello(Err(e)) ==> {
                &&& final(self).phase == ConnectionPhase::Closed
                &&& action == ConnectionAction::Stop(Err(e))
            },
            event is PumpEnded ==> (old(self).phase matches ConnectionPhase::Serving(id) && {
                &&& final(self).phase == ConnectionPhase::Closed
                &&& action == ConnectionAction::Release(id)
            }),
    {
        match event {
            ConnectionEvent::HelloWritten(Ok(())) => {
                self.phase = ConnectionPhase::AwaitingPeer;
                ConnectionAction::ReadHello
            },
            ConnectionEvent::HelloWritten(Err(e)) => {
                self.phase = ConnectionPhase::Closed;
                ConnectionAction::Stop(Err(e))
            },
            ConnectionEvent::PeerHello(Ok(h)) => {
                self.phase = ConnectionPhase::Serving(h.device_id);
                ConnectionAction::Register(h)
            },
            ConnectionEvent::PeerHello(Err(e)) => {
                self.phase = ConnectionPhase::Closed;
                ConnectionAction::Stop(Err(e))
            },
            ConnectionEvent::PumpEnded => {
                let id = match self.phase {
                    ConnectionPhase::Serving(id) => id,
                    _ => vstd::pervasive::unreached(),
                };
                self.phase = ConnectionPhase::Closed;
                ConnectionAction::Release(id)
            },
        }
    }
}

} // verus!
