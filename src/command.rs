use vstd::prelude::*;

use crate::rpc::{PeerRequestId, RequestId, RequestType, RpcResponse};
use crate::types::{
    ConnectionDirection, Enr, EnrForkId, GoodbyeReason, GossipKind, GossipTopic, IpAddr, MessageAcceptance,
    MetaData, Multiaddr, PeerAction, PeerId, ReportSource, Subnet, SubnetDiscovery,
};
use crate::rpc::{Protocol, RPCError};

verus! {

/// The score group whose dynamic parameters a topic gets.
#[derive(Clone, Copy, Debug, PartialEq, Eq, Hash, Structural)]
pub enum ScoreGroup {
    BeaconBlock,
    BeaconAggregateAndProof,
    AttestationSubnet,
}

/// Which scoring parameters to apply to a topic.
#[derive(Clone, Copy, Debug, PartialEq, Eq, Hash, Structural)]
pub enum TopicParams {
    /// The parameters of a group, computed for a validator count and a slot.
    Dynamic { group: ScoreGroup, active_validators: u64, current_slot: u64 },
    /// Default parameters with a topic weight of zero.
    Unweighted,
}

/// A peer found by discovery, with the instant until which it should be kept.
#[derive(Debug, PartialEq, Eq)]
pub struct DiscoveredPeer {
    pub enr: Enr,
    pub min_ttl: Option<u64>,
}

/// What a peer reported about itself.
#[derive(Clone, Debug, PartialEq, Eq)]
pub struct IdentifyInfo {
    pub public_key: Vec<u8>,
    pub protocol_version: String,
    pub agent_version: String,
    pub listen_addrs: Vec<Multiaddr>,
    pub protocols: Vec<String>,
    pub observed_addr: Multiaddr,
}

/// An instruction from the façade to one of the subsystems it drives. The
/// driver carries them out in the order they were issued.
#[derive(Debug, PartialEq, Eq)]
pub enum Command {
    /* gossip layer */
    GossipSubscribe(GossipTopic),
    GossipUnsubscribe(GossipTopic),
    /// `retry` marks a payload taken from the retry cache.
    GossipPublish { topic: GossipTopic, data: Vec<u8>, retry: bool },
    GossipReportValidation { message_id: Vec<u8>, source: PeerId, acceptance: MessageAcceptance },
    GossipSetTopicParams { topic: GossipTopic, params: TopicParams },
    GossipRegisterMetricsTopics(Vec<GossipTopic>),
    GossipAddExplicitPeer(PeerId),
    /* metrics */
    /// One more message of this peer's client that was ignored or rejected.
    CountUnacceptedMessage { peer_id: PeerId, acceptance: MessageAcceptance },
    /// A first publish on a topic of this kind failed.
    CountFailedPublish(GossipKind),
    /// A retried publish on a topic of this kind succeeded or failed.
    CountLatePublish { kind: GossipKind, success: bool },
    /// A cached payload on a topic of this kind expired before its retry.
    CountExpiredLatePublish(GossipKind),
    /* discovery */
    DiscoveryBanPeer { peer_id: PeerId, ips: Vec<IpAddr> },
    DiscoveryUnbanPeer { peer_id: PeerId, ips: Vec<IpAddr> },
    DiscoverPeers(u64),
    DiscoverSubnetPeers(Vec<SubnetDiscovery>),
    DiscoveryRemoveCachedEnr(PeerId),
    DiscoveryAddEnr(Enr),
    DiscoveryUpdateEnrBitfield { subnet: Subnet, value: bool },
    DiscoveryUpdateEth2Enr(EnrForkId),
    DiscoveryUpdateEnrQuicPort { port: u16, ip6: bool },
    DiscoveryUpdateEnrTcpPort { port: u16, ip6: bool },
    /* peer manager and peer database */
    PeerManagerReport {
        peer_id: PeerId,
        action: PeerAction,
        source: ReportSource,
        goodbye: Option<GoodbyeReason>,
        msg: &'static str,
    },
    PeerManagerGoodbye { peer_id: PeerId, reason: GoodbyeReason, source: ReportSource },
    PeerManagerRpcError {
        peer_id: PeerId,
        protocol: Protocol,
        error: RPCError,
        direction: ConnectionDirection,
    },
    PeerManagerPingRequest { peer_id: PeerId, seq_number: u64 },
    PeerManagerPongResponse { peer_id: PeerId, seq_number: u64 },
    PeerManagerMetaDataResponse { peer_id: PeerId, meta_data: MetaData },
    PeerManagerStatusd(PeerId),
    PeerManagerIdentify { peer_id: PeerId, info: IdentifyInfo },
    PeerManagerDialPeer(Enr),
    PeerManagerAddSyncSubnet { subnet_id: u64, min_ttl: u64 },
    PeerManagerPeersDiscovered(Vec<DiscoveredPeer>),
    PeerManagerUpdateGossipsubScores,
    PeersExtendOnSubnet { subnet: Subnet, min_ttl: u64 },
    PeersAddSubscription { peer_id: PeerId, subnet: Subnet },
    PeersRemoveSubscription { peer_id: PeerId, subnet: Subnet },
    /* request/response */
    RpcSendRequest { peer_id: PeerId, id: RequestId, request: RequestType },
    RpcPing { peer_id: PeerId, id: RequestId },
    RpcSendResponse { peer_id: PeerId, id: PeerRequestId, request_id: u64, response: RpcResponse },
    RpcShutdown { peer_id: PeerId, id: RequestId, reason: GoodbyeReason },
    RpcUpdateSeqNumber(u64),
    /* storage and transport */
    SaveMetadata(MetaData),
    ListenOn(Multiaddr),
    Dial(Multiaddr),
}

} // verus!
