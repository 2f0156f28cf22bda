use vstd::prelude::*;

use crate::rpc::{PeerRequestId, RPCError, Request, Response};
use crate::types::{GossipTopic, Multiaddr, PeerId};

verus! {

/// The events the façade hands to the host application.
#[derive(Debug, PartialEq, Eq)]
pub enum NetworkEvent {
    /// This node dialed and connected to a peer.
    PeerConnectedOutgoing(PeerId),
    /// A peer dialed and connected to this node.
    PeerConnectedIncoming(PeerId),
    PeerDisconnected(PeerId),
    /// A request the application sent failed.
    RPCFailed { id: u64, peer_id: PeerId, error: RPCError },
    /// A peer sent a request that the application answers on stream `id`.
    RequestReceived { peer_id: PeerId, id: PeerRequestId, request: Request },
    /// A peer answered the application's request `id`.
    ResponseReceived { peer_id: PeerId, id: u64, response: Response },
    /// A decoded gossip message, received from `source`.
    PubsubMessage { id: Vec<u8>, source: PeerId, topic: GossipTopic, message: Vec<u8> },
    /// The application should send its status to this peer.
    StatusPeer(PeerId),
    NewListenAddr(Multiaddr),
    ZeroListeners,
}

} // verus!
