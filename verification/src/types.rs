//! Value types shared by the discovery and driver modules.

use vstd::prelude::*;

verus! {

/// The length of a node identifier.
pub const NODE_ID_LEN: usize = 32;

/// An IPv4 endpoint: four address octets and a port.
#[derive(Clone, Copy, Debug, PartialEq, Eq)]
pub struct NetworkAddress {
    /// The address octets, most significant first.
    pub ip: [u8; 4],
    /// The port.
    pub port: u16,
}

/// What the library reads of an identity record that a lookup returned.
///
/// A record on the wire is signed and holds more than this. Whoever runs the
/// lookup copies these fields out of it; a field that is absent from the
/// record, or does not decode, is `None` here.
#[derive(Clone, Debug, PartialEq, Eq)]
pub struct Record {
    /// The identifier derived from the record's public key.
    pub node_id: [u8; 32],
    /// The IPv4 address that the record advertises.
    pub ip4: Option<[u8; 4]>,
    /// The TCP port that the record advertises for IPv4.
    pub tcp4: Option<u16>,
    /// The raw value under the network identity key.
    pub identity: Option<Vec<u8>>,
}

/// Why a record did not become a peer.
#[derive(Clone, Copy, Debug, PartialEq, Eq, Structural)]
pub enum PeerError {
    /// The record advertises no IPv4 address.
    MissingAddress,
    /// The record advertises an address but no TCP port.
    MissingPort,
}

/// A remote peer that can be dialled.
#[derive(Clone, Debug, PartialEq, Eq)]
pub struct Peer {
    /// The stable identifier of the peer.
    pub id: [u8; 32],
    /// The addresses at which the peer can be dialled.
    pub addresses: Vec<NetworkAddress>,
}

/// A peer as contracts speak of it.
pub struct PeerView {
    /// The stable identifier of the peer.
    pub id: [u8; 32],
    /// The addresses at which the peer can be dialled.
    pub addresses: Seq<NetworkAddress>,
}

impl View for Peer {
    type V = PeerView;

    open spec fn view(&self) -> PeerView {
        PeerView { id: self.id, addresses: self.addresses@ }
    }
}

/// The views of a sequence of peers, in order.
pub open spec fn peer_views(peers: Seq<Peer>) -> Seq<PeerView> {
    peers.map_values(|p: Peer| p@)
}

impl Peer {
    /// The peer that `record` stands for, or why it stands for none: a peer
    /// has the record's identifier and its one TCP endpoint.
    pub open spec fn of_record(record: Record) -> Result<PeerView, PeerError> {
        match record.ip4 {
            None => Err(PeerError::MissingAddress),
            Some(ip) => match record.tcp4 {
                None => Err(PeerError::MissingPort),
                Some(port) => Ok(
                    PeerView { id: record.node_id, addresses: seq![NetworkAddress { ip, port }] },
                ),
            },
        }
    }

    /// A peer is well formed when it can be dialled at one address at least.
    pub open spec fn well_formed(view: PeerView) -> bool {
        view.addresses.len() >= 1
    }

    /// Derives a peer from a discovered record. A record without an address
    /// or without a port gives no peer, never one that is partly filled.
    pub fn try_from_record(record: &Record) -> (r: Result<Peer, PeerError>)
        ensures
            match r {
                Ok(peer) => Peer::of_record(*record) == Ok::<PeerView, PeerError>(peer@)
                    && Peer::well_formed(peer@),
                Err(e) => Peer::of_record(*record) == Err::<PeerView, PeerError>(e),
            },
    {
        match record.ip4 {
            None => Err(PeerError::MissingAddress),
            Some(ip) => match record.tcp4 {
                None => Err(PeerError::MissingPort),
                Some(port) => {
                    let mut addresses: Vec<NetworkAddress> = Vec::new();
                    addresses.push(NetworkAddress { ip, port });
                    let peer = Peer { id: record.node_id, addresses };
                    proof {
                        assert(peer@.addresses =~= seq![NetworkAddress { ip, port }]);
                    }
                    Ok(peer)
                },
            },
        }
    }
}

} // verus!
