//! Peer connection lifecycle: the handshake and the table of connected
//! peers.
//!
//! A connecting peer sends `Hello` and expects `Welcome`; an accepting peer
//! expects `Hello` and answers `Welcome`. The QUIC connections themselves
//! are held by the program around this crate, keyed like this table.
use vstd::prelude::*;
use std::collections::HashMap;
use vstd::std_specs::iter::IteratorSpec;
use crate::protocol::{ControlMessage, ProtocolMessage, PROTOCOL_VERSION};
use crate::types::{ConnectionState, PeerId, PeerInfo};

verus! {

broadcast use vstd::std_specs::hash::group_hash_axioms;

/// The `Hello` message of a peer.
pub open spec fn hello_message(info: PeerInfo) -> ProtocolMessage {
    ProtocolMessage::Control(ControlMessage::Hello { protocol_version: PROTOCOL_VERSION, peer_info: info })
}

/// The `Welcome` message of a peer.
pub open spec fn welcome_message(info: PeerInfo) -> ProtocolMessage {
    ProtocolMessage::Control(ControlMessage::Welcome { protocol_version: PROTOCOL_VERSION, peer_info: info })
}

/// What an accepting peer makes of a first message: the peer that said
/// `Hello` and the `Welcome` to answer; nothing for any other message.
pub open spec fn hello_reply(msg: ProtocolMessage, local_info: PeerInfo) -> Option<(PeerInfo, ProtocolMessage)> {
    match msg {
        ProtocolMessage::Control(ControlMessage::Hello { peer_info, .. }) => Some((peer_info, welcome_message(local_info))),
        _ => None,
    }
}

/// What a connecting peer makes of the answer: the peer that said
/// `Welcome`; nothing for any other message.
pub open spec fn welcome_peer(msg: ProtocolMessage) -> Option<PeerInfo> {
    match msg {
        ProtocolMessage::Control(ControlMessage::Welcome { peer_info, .. }) => Some(peer_info),
        _ => None,
    }
}

/// The `Hello` a connecting peer sends, with this machine's description.
pub fn hello(local_info: PeerInfo) -> (m: ProtocolMessage)
    ensures
        m == hello_message(local_info),
{
    ProtocolMessage::Control(ControlMessage::Hello { protocol_version: PROTOCOL_VERSION, peer_info: local_info })
}

/// The first message of an incoming connection, accepted: the peer that
/// said `Hello` (whatever protocol version it announced) and the `Welcome`
/// to answer with this machine's description. Any other message is the
/// error "Expected Hello message".
pub fn accept_hello(msg: ProtocolMessage, local_info: PeerInfo) -> (r: Result<(PeerInfo, ProtocolMessage), String>)
    ensures
        match hello_reply(msg, local_info) {
            Some(reply) => r == Ok::<(PeerInfo, ProtocolMessage), String>(reply),
            None => r matches Err(e) && e@ == "Expected Hello message"@,
        },
{
    match msg {
        ProtocolMessage::Control(ControlMessage::Hello { peer_info, .. }) => Ok((
            peer_info,
            ProtocolMessage::Control(ControlMessage::Welcome { protocol_version: PROTOCOL_VERSION, peer_info: local_info }),
        )),
        _ => Err(String::from_str("Expected Hello message")),
    }
}

/// The answer to a `Hello`, accepted: the peer that said `Welcome`. Any
/// other message is the error "Expected Welcome message".
pub fn accept_welcome(msg: ProtocolMessage) -> (r: Result<PeerInfo, String>)
    ensures
        match welcome_peer(msg) {
            Some(p) => r == Ok::<PeerInfo, String>(p),
            None => r matches Err(e) && e@ == "Expected Welcome message"@,
        },
{
    match msg {
        ProtocolMessage::Control(ControlMessage::Welcome { peer_info, .. }) => Ok(peer_info),
        _ => Err(String::from_str("Expected Welcome message")),
    }
}

/// The heartbeat sent to every connected peer.
pub fn heartbeat(timestamp_us: u64) -> (m: ProtocolMessage)
    ensures
        m == ProtocolMessage::Control(ControlMessage::Heartbeat { timestamp_us }),
{
    ProtocolMessage::Control(ControlMessage::Heartbeat { timestamp_us })
}

/// A peer in the table.
pub struct PeerEntry {
    pub info: PeerInfo,
    pub state: ConnectionState,
}

/// Connected peers by identifier.
pub struct PeerTable {
    peers: HashMap<u128, PeerEntry>,
}

impl View for PeerTable {
    type V = Map<u128, PeerEntry>;

    closed spec fn view(&self) -> Map<u128, PeerEntry> {
        self.peers@
    }
}

impl PeerTable {
    /// An empty table.
    pub fn new() -> (t: Self)
        ensures
            t@ == Map::<u128, PeerEntry>::empty(),
    {
        PeerTable { peers: HashMap::new() }
    }

    /// Records a peer whose handshake completed, as authenticated; a peer
    /// with the same identifier is replaced.
    pub fn register(&mut self, info: PeerInfo)
        ensures
            final(self)@ == old(self)@.insert(info.id.0, PeerEntry { info, state: ConnectionState::Authenticated }),
    {
        let id = info.id.0;
        self.peers.insert(id, PeerEntry { info, state: ConnectionState::Authenticated });
    }

    /// Removes a peer, returning its entry when it was in the table.
    pub fn remove(&mut self, id: PeerId) -> (r: Option<PeerEntry>)
        ensures
            final(self)@ == old(self)@.remove(id.0),
            old(self)@.contains_key(id.0) ==> r == Some(old(self)@[id.0]),
            !old(self)@.contains_key(id.0) ==> r is None,
    {
        self.peers.remove(&id.0)
    }

    /// Whether a peer is in the table.
    pub fn contains(&self, id: PeerId) -> (b: bool)
        ensures
            b == self@.contains_key(id.0),
    {
        self.peers.contains_key(&id.0)
    }

    /// The descriptions of all peers in the table, one per peer, in the
    /// table's own (unspecified) order.
    pub fn peer_infos(&self) -> (r: Vec<&PeerInfo>)
        ensures
            r@.len() == self@.len(),
            forall|k: u128| self@.contains_key(k) ==> r@.contains(&self@[k].info),
            forall|i: int| #![trigger r@[i]] 0 <= i < r@.len() ==> exists|k: u128| #![trigger self@[k]] self@.contains_key(k) && *r@[i] == self@[k].info,
    {
        let mut r: Vec<&PeerInfo> = Vec::new();
        let values = self.peers.values();
        let ghost vals = values.remaining();
        proof {
            vstd::std_specs::hash::axiom_spec_values_iter(&self.peers);
        }
        for e in it: values
            invariant
                it.seq() == vals,
                r@.len() == it.index(),
                forall|i: int| 0 <= i < it.index() ==> *r@[i] == vals[i].info,
        {
            r.push(&e.info);
        }
        proof {
            assert(r@.len() == vals.len());
            assert forall|k: u128| self@.contains_key(k) implies r@.contains(&self@[k].info) by {
                assert(self@.values().contains(self@[k]));
                assert(vals.unref().to_set().contains(self@[k]));
                let i = choose|i: int| 0 <= i < vals.len() && *vals[i] == self@[k];
                assert(*r@[i] == self@[k].info);
            }
            assert forall|i: int| #![trigger r@[i]] 0 <= i < r@.len() implies exists|k: u128| #![trigger self@[k]] self@.contains_key(k) && *r@[i] == self@[k].info by {
                assert(vals.unref()[i] == *vals[i]);
                assert(vals.unref().to_set().contains(*vals[i]));
                assert(self@.values().contains(*vals[i]));
            }
        }
        r
    }

    /// The number of peers in the table.
    pub fn len(&self) -> (n: usize)
        ensures
            n == self@.len(),
    {
        self.peers.len()
    }
}

/// Handshake law: when peer A connects to peer B, B learns A's
/// description from A's `Hello` and answers with its own `Welcome`, from
/// which A learns B's description; a `Welcome` is never taken for a
/// `Hello`, nor the reverse.
pub proof fn law_handshake(a: PeerInfo, b: PeerInfo)
    ensures
        hello_reply(hello_message(a), b) == Some((a, welcome_message(b))),
        welcome_peer(welcome_message(b)) == Some(b),
        hello_reply(welcome_message(a), b) is None,
        welcome_peer(hello_message(b)) is None,
{
}

/// Table law: a registered peer is in the table as authenticated with the
/// description it gave, until it is removed; removing it leaves the other
/// peers as they were.
pub proof fn law_peer_table(t: Map<u128, PeerEntry>, info: PeerInfo, other: u128)
    requires
        other != info.id.0,
    ensures
        t.insert(info.id.0, PeerEntry { info, state: ConnectionState::Authenticated })[info.id.0].state == ConnectionState::Authenticated,
        !t.insert(info.id.0, PeerEntry { info, state: ConnectionState::Authenticated }).remove(info.id.0).contains_key(info.id.0),
        t.insert(info.id.0, PeerEntry { info, state: ConnectionState::Authenticated }).remove(info.id.0).contains_key(other)
            == t.contains_key(other),
{
}

} // verus!
