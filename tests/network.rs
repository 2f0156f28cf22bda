use lighthouse_network::command::{Command, IdentifyInfo, ScoreGroup, TopicParams};
use lighthouse_network::event::NetworkEvent;
use lighthouse_network::gossip::{
    subscribe_succeeded, unsubscribe_succeeded, FailedMessages, GossipEvent, OutboundMessage,
    PublishError, SubscriptionError,
};
use lighthouse_network::network::{Network, NetworkParams};
use lighthouse_network::peers::{PeerManagerEvent, SubnetPeerView};
use lighthouse_network::poll::{BehaviourEvent, IdentifyEvent, SwarmEvent, UpnpEvent};
use lighthouse_network::rpc::{
    HandlerErr, MetadataVersion, PeerRequestId, Protocol, RPCError, RPCMessage, RPCReceived,
    Request, RequestId, RequestType, Response, ResponseTermination, RpcResponse,
    RpcSuccessResponse,
};
use lighthouse_network::topics::{subscription_limits, subscription_whitelist};
use lighthouse_network::startup::{BootNode, StartConfig, StartError};
use lighthouse_network::types::{
    AddrProtocol, ConnectionDirection, Enr, EnrForkId, ForkName, GoodbyeReason, GossipEncoding,
    GossipKind, GossipTopic, IpAddr, MessageAcceptance, Multiaddr, PeerAction, PeerId,
    ReportSource, Subnet, SubnetDiscovery,
};

const D1: [u8; 4] = [1, 2, 3, 4];
const D2: [u8; 4] = [5, 6, 7, 8];

fn params() -> NetworkParams {
    NetworkParams {
        seconds_per_slot: 12,
        slots_per_epoch: 32,
        attestation_subnet_count: 64,
        sync_committee_subnet_count: 4,
        blob_sidecar_subnet_count: 6,
        blob_sidecar_subnet_count_electra: 9,
        data_column_sidecar_subnet_count: 128,
        custody_requirement: 4,
        peer_das_scheduled: false,
        subscribe_all_data_column_subnets: false,
    }
}

fn fork_id(digest: [u8; 4]) -> EnrForkId {
    EnrForkId { fork_digest: digest, next_fork_version: [0, 0, 0, 0], next_fork_epoch: u64::MAX }
}

fn network() -> Network {
    let mut n = Network::new(params(), PeerId(1), fork_id(D1), None, false);
    n.take_commands();
    n
}

fn topic(kind: GossipKind, digest: [u8; 4]) -> GossipTopic {
    GossipTopic::new(kind, GossipEncoding::SszSnappy, digest)
}

fn tcp_loopback(port: u16) -> Multiaddr {
    Multiaddr { protocols: vec![AddrProtocol::Ip4([127, 0, 0, 1]), AddrProtocol::Tcp(port)] }
}

fn rpc(peer: u64, message: Result<RPCReceived, HandlerErr>) -> RPCMessage {
    RPCMessage { peer_id: PeerId(peer), conn_id: 7, message }
}

fn empty_config() -> StartConfig {
    StartConfig {
        trusted_peers: vec![],
        disable_quic_support: false,
        libp2p_nodes: vec![],
        boot_nodes_enr: vec![],
        boot_nodes_multiaddr: vec![],
        topics: vec![],
    }
}

#[test]
fn startup_on_loopback() {
    let mut n = network();
    let mut config = empty_config();
    config.topics = vec![GossipKind::BeaconBlock];
    n.start(vec![tcp_loopback(0)], false);
    assert_eq!(n.take_commands(), vec![Command::ListenOn(tcp_loopback(0))]);
    assert_eq!(n.complete_start(config, &vec![true]), Ok(()));
    assert_eq!(n.take_commands(), vec![Command::GossipSubscribe(topic(GossipKind::BeaconBlock, D1))]);
    assert_eq!(n.subscriptions, vec![topic(GossipKind::BeaconBlock, D1)]);
    let mut queue = vec![SwarmEvent::NewListenAddr(tcp_loopback(9000))];
    let ev = n.poll_network(&mut queue, 0, 0);
    assert_eq!(ev, Some(NetworkEvent::NewListenAddr(tcp_loopback(9000))));
    assert!(queue.is_empty());
}

#[test]
fn startup_skips_quic_listen_when_disabled_and_dials_boot_nodes_once() {
    let mut n = network();
    let quic = Multiaddr {
        protocols: vec![AddrProtocol::Ip4([127, 0, 0, 1]), AddrProtocol::Udp(9001), AddrProtocol::QuicV1],
    };
    let udp = Multiaddr { protocols: vec![AddrProtocol::Ip4([10, 0, 0, 1]), AddrProtocol::Udp(9000)] };
    let with_peer = Multiaddr {
        protocols: vec![AddrProtocol::Ip4([10, 0, 0, 1]), AddrProtocol::Tcp(9000), AddrProtocol::P2p(PeerId(9))],
    };
    let boot = |connected: bool| BootNode {
        record: vec![1, 2, 3],
        peer_id: PeerId(9),
        quic_addrs: vec![quic.clone()],
        tcp_addrs: vec![udp.clone(), with_peer.clone()],
        connected_or_dialing: connected,
    };
    let mut config = empty_config();
    config.disable_quic_support = true;
    let other = BootNode {
        record: vec![7],
        peer_id: PeerId(7),
        quic_addrs: vec![],
        tcp_addrs: vec![],
        connected_or_dialing: false,
    };
    config.boot_nodes_enr = vec![boot(false), other, boot(false)];
    config.boot_nodes_multiaddr = vec![udp.clone(), tcp_loopback(30303)];
    n.start(vec![tcp_loopback(9000), quic.clone()], true);
    assert_eq!(n.take_commands(), vec![Command::ListenOn(tcp_loopback(9000))]);
    assert_eq!(n.complete_start(config, &vec![true]), Ok(()));
    let cmds = n.take_commands();
    assert_eq!(
        cmds,
        vec![
            Command::Dial(Multiaddr { protocols: vec![AddrProtocol::Ip4([10, 0, 0, 1]), AddrProtocol::Tcp(9000)] }),
            Command::Dial(tcp_loopback(30303)),
        ]
    );
}

#[test]
fn startup_dials_quic_first_and_skips_connected_boot_nodes() {
    let mut n = network();
    let quic = Multiaddr {
        protocols: vec![AddrProtocol::Ip4([10, 0, 0, 2]), AddrProtocol::Udp(9001), AddrProtocol::QuicV1],
    };
    let mut config = empty_config();
    config.trusted_peers = vec![PeerId(4)];
    config.boot_nodes_enr = vec![
        BootNode {
            record: vec![1],
            peer_id: PeerId(2),
            quic_addrs: vec![quic.clone()],
            tcp_addrs: vec![tcp_loopback(1)],
            connected_or_dialing: false,
        },
        BootNode {
            record: vec![2],
            peer_id: PeerId(3),
            quic_addrs: vec![],
            tcp_addrs: vec![tcp_loopback(2)],
            connected_or_dialing: true,
        },
    ];
    n.start(vec![], false);
    assert_eq!(n.complete_start(config, &vec![]), Ok(()));
    assert_eq!(
        n.take_commands(),
        vec![
            Command::GossipAddExplicitPeer(PeerId(4)),
            Command::Dial(quic),
            Command::Dial(tcp_loopback(1)),
        ]
    );
}

#[test]
fn fork_transition() {
    let mut n = network();
    n.subscribe(topic(GossipKind::BeaconBlock, D1));
    n.subscribe(topic(GossipKind::Attestation(0), D1));
    n.take_commands();
    n.subscribe_new_fork_topics(ForkName::Capella, D2);
    for t in [
        topic(GossipKind::BeaconBlock, D1),
        topic(GossipKind::Attestation(0), D1),
        topic(GossipKind::BeaconBlock, D2),
        topic(GossipKind::Attestation(0), D2),
        topic(GossipKind::BlsToExecutionChange, D2),
    ] {
        assert!(n.is_subscribed(&t));
    }
    assert_eq!(n.subscriptions.len(), 5);
    let cmds = n.take_commands();
    assert_eq!(cmds.len(), 4);
    match &cmds[3] {
        Command::GossipRegisterMetricsTopics(v) => {
            assert_eq!(v.len(), 68);
            assert_eq!(v[0], topic(GossipKind::Attestation(0), D2));
            assert_eq!(v[67], topic(GossipKind::SyncCommitteeMessage(3), D2));
        }
        other => panic!("unexpected command {:?}", other),
    }
    n.unsubscribe_from_fork_topics_except(D2);
    assert!(!n.is_subscribed(&topic(GossipKind::BeaconBlock, D1)));
    assert!(!n.is_subscribed(&topic(GossipKind::Attestation(0), D1)));
    assert!(n.is_subscribed(&topic(GossipKind::BeaconBlock, D2)));
    assert_eq!(n.subscriptions.len(), 3);
}

#[test]
fn deneb_core_topics_are_blob_subnets() {
    let kinds = lighthouse_network::topics::fork_core_topics(ForkName::Deneb, &params());
    assert_eq!(kinds, (0..6).map(GossipKind::BlobSidecar).collect::<Vec<_>>());
    let base = lighthouse_network::topics::fork_core_topics(ForkName::Base, &params());
    assert_eq!(base.len(), 5);
    assert!(lighthouse_network::topics::fork_core_topics(ForkName::Fulu, &params()).is_empty());
}

#[test]
fn subscribe_then_unsubscribe_restores_set() {
    let mut n = network();
    n.subscribe(topic(GossipKind::VoluntaryExit, D1));
    let before = n.subscriptions.clone();
    n.subscribe_kind(GossipKind::ProposerSlashing);
    assert_eq!(n.subscriptions.len(), 2);
    n.unsubscribe_kind(GossipKind::ProposerSlashing);
    assert_eq!(n.subscriptions, before);
    assert_eq!(
        n.take_commands(),
        vec![
            Command::GossipSubscribe(topic(GossipKind::VoluntaryExit, D1)),
            Command::GossipSubscribe(topic(GossipKind::ProposerSlashing, D1)),
            Command::GossipUnsubscribe(topic(GossipKind::ProposerSlashing, D1)),
        ]
    );
}

#[test]
fn subscribing_twice_keeps_one_entry() {
    let mut n = network();
    n.subscribe_kind(GossipKind::BeaconBlock);
    n.subscribe_kind(GossipKind::BeaconBlock);
    assert_eq!(n.subscriptions.len(), 1);
}

#[test]
fn insufficient_peers_retry() {
    let mut n = network();
    let block = OutboundMessage { kinds: vec![GossipKind::BeaconBlock], data: vec![0xaa, 0xbb] };
    n.publish(&vec![block]);
    let cmds = n.take_commands();
    let t = topic(GossipKind::BeaconBlock, D1);
    assert_eq!(cmds, vec![Command::GossipPublish { topic: t, data: vec![0xaa, 0xbb], retry: false }]);
    n.handle_publish_result(t, vec![0xaa, 0xbb], false, Err(PublishError::InsufficientPeers), 1_000);
    assert_eq!(n.gossip_cache.len(), 1);
    assert_eq!(n.take_commands(), vec![Command::CountFailedPublish(GossipKind::BeaconBlock)]);
    let ev = n.inject_gs_event(GossipEvent::Subscribed { peer_id: PeerId(5), topic: Some(t) }, 2_000);
    assert_eq!(ev, None);
    assert_eq!(n.take_commands(), vec![Command::GossipPublish { topic: t, data: vec![0xaa, 0xbb], retry: true }]);
    assert_eq!(n.gossip_cache.len(), 0);
}

#[test]
fn empty_mesh_caches_one_entry_per_topic() {
    let mut n = network();
    let msg = OutboundMessage {
        kinds: vec![GossipKind::Attestation(3), GossipKind::BeaconAggregateAndProof],
        data: vec![9],
    };
    n.publish(&vec![msg]);
    let cmds = n.take_commands();
    assert_eq!(cmds.len(), 2);
    for c in cmds {
        if let Command::GossipPublish { topic, data, retry } = c {
            n.handle_publish_result(topic, data, retry, Err(PublishError::InsufficientPeers), 0);
        }
    }
    assert_eq!(n.gossip_cache.len(), 2);
}

#[test]
fn sync_committee_messages_are_not_cached() {
    let mut n = network();
    let t = topic(GossipKind::SyncCommitteeMessage(1), D1);
    n.handle_publish_result(t, vec![1], false, Err(PublishError::InsufficientPeers), 0);
    let c = topic(GossipKind::SignedContributionAndProof, D1);
    n.handle_publish_result(c, vec![1], false, Err(PublishError::InsufficientPeers), 0);
    assert_eq!(n.gossip_cache.len(), 0);
}

#[test]
fn other_publish_errors_are_not_cached() {
    let mut n = network();
    let t = topic(GossipKind::BeaconBlock, D1);
    n.handle_publish_result(t, vec![1], false, Err(PublishError::Duplicate), 0);
    n.handle_publish_result(t, vec![1], false, Err(PublishError::MessageTooLarge), 0);
    n.handle_publish_result(t, vec![1], true, Err(PublishError::InsufficientPeers), 0);
    n.handle_publish_result(t, vec![1], false, Ok(()), 0);
    assert_eq!(n.gossip_cache.len(), 0);
    assert_eq!(
        n.take_commands(),
        vec![
            Command::CountFailedPublish(GossipKind::BeaconBlock),
            Command::CountFailedPublish(GossipKind::BeaconBlock),
            Command::CountLatePublish { kind: GossipKind::BeaconBlock, success: false },
        ]
    );
}

#[test]
fn cached_block_expires_after_one_slot() {
    let mut n = network();
    let t = topic(GossipKind::BeaconBlock, D1);
    n.handle_publish_result(t, vec![1], false, Err(PublishError::InsufficientPeers), 1_000);
    let mut queue = vec![];
    assert_eq!(n.poll_network(&mut queue, 0, 12_999), None);
    assert_eq!(n.gossip_cache.len(), 1);
    n.take_commands();
    assert_eq!(n.poll_network(&mut queue, 0, 13_000), None);
    assert_eq!(n.gossip_cache.len(), 0);
    assert_eq!(n.take_commands(), vec![Command::CountExpiredLatePublish(GossipKind::BeaconBlock)]);
}

#[test]
fn expired_payload_is_not_retried() {
    let mut n = network();
    let t = topic(GossipKind::VoluntaryExit, D1);
    n.handle_publish_result(t, vec![1], false, Err(PublishError::InsufficientPeers), 0);
    n.handle_publish_result(t, vec![2], false, Err(PublishError::InsufficientPeers), 300_000);
    n.handle_publish_result(t, vec![2], false, Err(PublishError::InsufficientPeers), 300_000);
    assert_eq!(n.gossip_cache.len(), 2);
    assert_eq!(n.take_commands().len(), 3);
    n.inject_gs_event(GossipEvent::Subscribed { peer_id: PeerId(2), topic: Some(t) }, 384_000);
    assert_eq!(n.take_commands(), vec![Command::GossipPublish { topic: t, data: vec![2], retry: true }]);
    assert_eq!(n.gossip_cache.len(), 0);
}

#[test]
fn subscription_of_attestation_topic_records_subnet() {
    let mut n = network();
    let t = topic(GossipKind::Attestation(9), D1);
    n.inject_gs_event(GossipEvent::Subscribed { peer_id: PeerId(2), topic: Some(t) }, 0);
    n.inject_gs_event(GossipEvent::Unsubscribed { peer_id: PeerId(2), topic: Some(t) }, 0);
    n.inject_gs_event(GossipEvent::Subscribed { peer_id: PeerId(2), topic: None }, 0);
    assert_eq!(
        n.take_commands(),
        vec![
            Command::PeersAddSubscription { peer_id: PeerId(2), subnet: Subnet::Attestation(9) },
            Command::PeersRemoveSubscription { peer_id: PeerId(2), subnet: Subnet::Attestation(9) },
        ]
    );
}

#[test]
fn undecodable_gossip_is_rejected() {
    let mut n = network();
    let t = topic(GossipKind::BeaconBlock, D1);
    let ev = n.inject_gs_event(
        GossipEvent::Message { propagation_source: PeerId(3), message_id: vec![1], topic: t, data: vec![0], decodes: false },
        0,
    );
    assert_eq!(ev, None);
    assert_eq!(
        n.take_commands(),
        vec![Command::GossipReportValidation { message_id: vec![1], source: PeerId(3), acceptance: MessageAcceptance::Reject }]
    );
    let ev = n.inject_gs_event(
        GossipEvent::Message { propagation_source: PeerId(3), message_id: vec![2], topic: t, data: vec![7], decodes: true },
        0,
    );
    assert_eq!(ev, Some(NetworkEvent::PubsubMessage { id: vec![2], source: PeerId(3), topic: t, message: vec![7] }));
    assert!(n.take_commands().is_empty());
}

#[test]
fn gossipsub_not_supported_is_fatal() {
    let mut n = network();
    n.inject_gs_event(GossipEvent::GossipsubNotSupported { peer_id: PeerId(8) }, 0);
    assert_eq!(
        n.take_commands(),
        vec![Command::PeerManagerReport {
            peer_id: PeerId(8),
            action: PeerAction::Fatal,
            source: ReportSource::Gossipsub,
            goodbye: Some(GoodbyeReason::Unknown),
            msg: "does_not_support_gossipsub",
        }]
    );
}

#[test]
fn slow_peer_penalties() {
    let mut n = network();
    let f = |timeout: u64, priority: u64, non_priority: u64| FailedMessages { publish: 0, forward: 0, priority, non_priority, timeout };
    n.inject_gs_event(GossipEvent::SlowPeer { peer_id: PeerId(1), failed_messages: f(11, 20, 0) }, 0);
    n.inject_gs_event(GossipEvent::SlowPeer { peer_id: PeerId(2), failed_messages: f(10, 6, 5) }, 0);
    n.inject_gs_event(GossipEvent::SlowPeer { peer_id: PeerId(3), failed_messages: f(10, 5, 5) }, 0);
    let report = |p: u64, msg: &'static str| Command::PeerManagerReport {
        peer_id: PeerId(p),
        action: PeerAction::HighToleranceError,
        source: ReportSource::Gossipsub,
        goodbye: None,
        msg,
    };
    assert_eq!(n.take_commands(), vec![report(1, "publish_timeout_penalty"), report(2, "queue_full_penalty")]);
}

#[test]
fn blocks_by_range_zero_step() {
    let mut n = network();
    let req = Request { id: 1, substream_id: 2, request_type: RequestType::BlocksByRange { start_slot: 10, count: 5, step: 0 } };
    let ev = n.inject_rpc_event(rpc(4, Ok(RPCReceived::Request(req))), true);
    assert_eq!(ev, None);
    assert_eq!(
        n.take_commands(),
        vec![Command::PeerManagerRpcError {
            peer_id: PeerId(4),
            protocol: Protocol::BlocksByRange,
            error: RPCError::InvalidData,
            direction: ConnectionDirection::Incoming,
        }]
    );
}

#[test]
fn blocks_by_range_with_step_is_surfaced() {
    let mut n = network();
    let req = Request { id: 1, substream_id: 2, request_type: RequestType::BlocksByRange { start_slot: 10, count: 5, step: 1 } };
    let ev = n.inject_rpc_event(rpc(4, Ok(RPCReceived::Request(req.clone()))), true);
    assert_eq!(
        ev,
        Some(NetworkEvent::RequestReceived {
            peer_id: PeerId(4),
            id: PeerRequestId { connection_id: 7, substream_id: 2 },
            request: req,
        })
    );
}

#[test]
fn requests_of_disconnected_peers_are_dropped() {
    let mut n = network();
    let req = Request { id: 1, substream_id: 2, request_type: RequestType::Status(vec![1]) };
    assert_eq!(n.inject_rpc_event(rpc(4, Ok(RPCReceived::Request(req))), false), None);
    let inbound = HandlerErr::Inbound { id: 1, proto: Protocol::Status, error: RPCError::StreamTimeout };
    assert_eq!(n.inject_rpc_event(rpc(4, Err(inbound)), false), None);
    assert!(n.take_commands().is_empty());
    let outbound = HandlerErr::Outbound { id: RequestId::Application(11), proto: Protocol::BlocksByRoot, error: RPCError::Disconnected };
    assert_eq!(
        n.inject_rpc_event(rpc(4, Err(outbound)), false),
        Some(NetworkEvent::RPCFailed { id: 11, peer_id: PeerId(4), error: RPCError::Disconnected })
    );
}

#[test]
fn status_request_is_surfaced_and_recorded() {
    let mut n = network();
    let req = Request { id: 3, substream_id: 9, request_type: RequestType::Status(vec![5]) };
    let ev = n.inject_rpc_event(rpc(6, Ok(RPCReceived::Request(req.clone()))), true);
    assert_eq!(
        ev,
        Some(NetworkEvent::RequestReceived { peer_id: PeerId(6), id: PeerRequestId { connection_id: 7, substream_id: 9 }, request: req })
    );
    assert_eq!(n.take_commands(), vec![Command::PeerManagerStatusd(PeerId(6))]);
}

#[test]
fn metadata_request_is_answered_with_local_metadata() {
    let mut n = network();
    let req = Request { id: 3, substream_id: 9, request_type: RequestType::MetaData(MetadataVersion::V2) };
    assert_eq!(n.inject_rpc_event(rpc(6, Ok(RPCReceived::Request(req))), true), None);
    assert_eq!(
        n.take_commands(),
        vec![Command::RpcSendResponse {
            peer_id: PeerId(6),
            id: PeerRequestId { connection_id: 7, substream_id: 9 },
            request_id: 3,
            response: RpcResponse::Success(RpcSuccessResponse::MetaData(n.local_metadata)),
        }]
    );
}

#[test]
fn internal_ping_invisibility() {
    let mut n = network();
    let ev = n.inject_pm_event(PeerManagerEvent::Ping(PeerId(5)));
    assert_eq!(ev, None);
    assert_eq!(n.take_commands(), vec![Command::RpcPing { peer_id: PeerId(5), id: RequestId::Internal }]);
    let ev = n.inject_rpc_event(rpc(5, Ok(RPCReceived::Response(RequestId::Internal, RpcSuccessResponse::Pong(42)))), true);
    assert_eq!(ev, None);
    assert_eq!(n.take_commands(), vec![Command::PeerManagerPongResponse { peer_id: PeerId(5), seq_number: 42 }]);
}

#[test]
fn internal_metadata_request_version() {
    let mut n = network();
    assert_eq!(n.inject_pm_event(PeerManagerEvent::MetaData(PeerId(5))), None);
    let mut p = params();
    p.peer_das_scheduled = true;
    let mut das = Network::new(p, PeerId(1), fork_id(D1), Some(4), false);
    das.take_commands();
    das.send_meta_data_request(PeerId(5));
    assert_eq!(
        n.take_commands(),
        vec![Command::RpcSendRequest { peer_id: PeerId(5), id: RequestId::Internal, request: RequestType::MetaData(MetadataVersion::V2) }]
    );
    assert_eq!(
        das.take_commands(),
        vec![Command::RpcSendRequest { peer_id: PeerId(5), id: RequestId::Internal, request: RequestType::MetaData(MetadataVersion::V3) }]
    );
    assert_eq!(das.local_metadata.custody_group_count, Some(4));
    assert_eq!(das.local_metadata.seq_number, 4);
}

#[test]
fn internal_failures_are_not_surfaced() {
    let mut n = network();
    let err = HandlerErr::Outbound { id: RequestId::Internal, proto: Protocol::Ping, error: RPCError::StreamTimeout };
    assert_eq!(n.inject_rpc_event(rpc(5, Err(err)), true), None);
    let status = RpcSuccessResponse::Status(vec![1]);
    assert_eq!(n.inject_rpc_event(rpc(5, Ok(RPCReceived::Response(RequestId::Internal, status))), true), None);
}

#[test]
fn application_responses_and_end_of_stream() {
    let mut n = network();
    let ev = n.inject_rpc_event(
        rpc(5, Ok(RPCReceived::Response(RequestId::Application(3), RpcSuccessResponse::BlocksByRoot(vec![1])))),
        true,
    );
    assert_eq!(ev, Some(NetworkEvent::ResponseReceived { peer_id: PeerId(5), id: 3, response: Response::BlocksByRoot(Some(vec![1])) }));
    let ev = n.inject_rpc_event(rpc(5, Ok(RPCReceived::EndOfStream(RequestId::Application(3), ResponseTermination::BlocksByRoot))), true);
    assert_eq!(ev, Some(NetworkEvent::ResponseReceived { peer_id: PeerId(5), id: 3, response: Response::BlocksByRoot(None) }));
}

#[test]
fn send_request_to_disconnected_peer_fails() {
    let mut n = network();
    assert_eq!(n.send_request(PeerId(2), 8, RequestType::Status(vec![]), false), Err((8, RPCError::Disconnected)));
    assert!(n.take_commands().is_empty());
    assert_eq!(n.send_request(PeerId(2), 8, RequestType::Status(vec![]), true), Ok(()));
    assert_eq!(
        n.take_commands(),
        vec![Command::RpcSendRequest { peer_id: PeerId(2), id: RequestId::Application(8), request: RequestType::Status(vec![]) }]
    );
}

#[test]
fn responses_go_out_in_wire_form() {
    let mut n = network();
    let id = PeerRequestId { connection_id: 1, substream_id: 2 };
    n.send_response(PeerId(2), id, 5, Response::BlobsByRange(None));
    n.send_response(PeerId(2), id, 5, Response::Status(vec![3]));
    n.send_error_response(PeerId(2), id, 5, lighthouse_network::rpc::RpcErrorResponse::RateLimited, "slow down".to_string());
    assert_eq!(
        n.take_commands(),
        vec![
            Command::RpcSendResponse { peer_id: PeerId(2), id, request_id: 5, response: RpcResponse::StreamTermination(ResponseTermination::BlobsByRange) },
            Command::RpcSendResponse { peer_id: PeerId(2), id, request_id: 5, response: RpcResponse::Success(RpcSuccessResponse::Status(vec![3])) },
            Command::RpcSendResponse {
                peer_id: PeerId(2),
                id,
                request_id: 5,
                response: RpcResponse::Error(lighthouse_network::rpc::RpcErrorResponse::RateLimited, "slow down".to_string()),
            },
        ]
    );
}

fn enr(peer: u64, subnets: Vec<Subnet>) -> Enr {
    Enr { peer_id: PeerId(peer), subnets, record: vec![peer as u8] }
}

#[test]
fn subnet_discovery_short_circuit() {
    let mut n = network();
    let s = Subnet::Attestation(5);
    let view = SubnetPeerView {
        discovery_started: true,
        good_peers: vec![0],
        cached_enrs: vec![enr(10, vec![s]), enr(11, vec![Subnet::Attestation(6)]), enr(12, vec![Subnet::SyncCommittee(0), s])],
    };
    let request = SubnetDiscovery { subnet: s, min_ttl: None };
    n.discover_subnet_peers(vec![request], view);
    assert_eq!(
        n.take_commands(),
        vec![
            Command::DiscoveryRemoveCachedEnr(PeerId(10)),
            Command::PeerManagerDialPeer(enr(10, vec![s])),
            Command::DiscoveryRemoveCachedEnr(PeerId(12)),
            Command::PeerManagerDialPeer(enr(12, vec![Subnet::SyncCommittee(0), s])),
            Command::DiscoverSubnetPeers(vec![request]),
        ]
    );
}

#[test]
fn subnet_discovery_with_enough_peers_only_extends_ttl() {
    let mut n = network();
    let s = Subnet::SyncCommittee(2);
    let view = SubnetPeerView { discovery_started: true, good_peers: vec![3], cached_enrs: vec![enr(10, vec![s])] };
    n.discover_subnet_peers(vec![SubnetDiscovery { subnet: s, min_ttl: Some(500) }], view);
    assert_eq!(
        n.take_commands(),
        vec![
            Command::PeersExtendOnSubnet { subnet: s, min_ttl: 500 },
            Command::PeerManagerAddSyncSubnet { subnet_id: 2, min_ttl: 500 },
        ]
    );
}

#[test]
fn subnet_discovery_ignored_when_discovery_stopped() {
    let mut n = network();
    let view = SubnetPeerView { discovery_started: false, good_peers: vec![], cached_enrs: vec![] };
    n.discover_subnet_peers(vec![SubnetDiscovery { subnet: Subnet::Attestation(1), min_ttl: Some(5) }], view);
    assert!(n.take_commands().is_empty());
}

#[test]
fn peer_manager_events_translate() {
    let mut n = network();
    let ips = vec![IpAddr::V4([1, 2, 3, 4])];
    assert_eq!(n.inject_pm_event(PeerManagerEvent::PeerConnectedIncoming(PeerId(1))), Some(NetworkEvent::PeerConnectedIncoming(PeerId(1))));
    assert_eq!(n.inject_pm_event(PeerManagerEvent::PeerConnectedOutgoing(PeerId(1))), Some(NetworkEvent::PeerConnectedOutgoing(PeerId(1))));
    assert_eq!(n.inject_pm_event(PeerManagerEvent::Status(PeerId(1))), Some(NetworkEvent::StatusPeer(PeerId(1))));
    assert_eq!(n.inject_pm_event(PeerManagerEvent::Banned(PeerId(1), ips.clone())), None);
    assert_eq!(n.inject_pm_event(PeerManagerEvent::UnBanned(PeerId(1), ips.clone())), None);
    assert_eq!(n.inject_pm_event(PeerManagerEvent::DiscoverPeers(16)), None);
    assert_eq!(n.inject_pm_event(PeerManagerEvent::DisconnectPeer(PeerId(1), GoodbyeReason::TooManyPeers)), None);
    assert_eq!(
        n.take_commands(),
        vec![
            Command::DiscoveryBanPeer { peer_id: PeerId(1), ips: ips.clone() },
            Command::DiscoveryUnbanPeer { peer_id: PeerId(1), ips },
            Command::DiscoverPeers(16),
            Command::RpcShutdown { peer_id: PeerId(1), id: RequestId::Internal, reason: GoodbyeReason::TooManyPeers },
        ]
    );
}

#[test]
fn fatal_report_leads_to_ban_and_disconnect() {
    let mut n = network();
    n.report_peer(PeerId(3), PeerAction::Fatal, ReportSource::Processor, "bad_block");
    assert_eq!(n.inject_pm_event(PeerManagerEvent::Banned(PeerId(3), vec![])), None);
    assert_eq!(n.inject_pm_event(PeerManagerEvent::PeerDisconnected(PeerId(3))), Some(NetworkEvent::PeerDisconnected(PeerId(3))));
    assert_eq!(
        n.take_commands(),
        vec![
            Command::PeerManagerReport { peer_id: PeerId(3), action: PeerAction::Fatal, source: ReportSource::Processor, goodbye: None, msg: "bad_block" },
            Command::DiscoveryBanPeer { peer_id: PeerId(3), ips: vec![] },
        ]
    );
}

#[test]
fn metadata_update_bumps_sequence_and_persists_first() {
    let mut n = network();
    assert_eq!(n.local_metadata.seq_number, 0);
    n.update_enr_subnet(Subnet::Attestation(3), true);
    assert_eq!(n.enr_attnets, 0b1000);
    assert_eq!(n.local_metadata.seq_number, 1);
    assert_eq!(n.local_metadata.attnets, 0b1000);
    n.update_enr_subnet(Subnet::SyncCommittee(1), true);
    n.update_enr_subnet(Subnet::Attestation(3), false);
    assert_eq!(n.local_metadata.seq_number, 3);
    assert_eq!(n.local_metadata.attnets, 0);
    assert_eq!(n.local_metadata.syncnets, Some(0b10));
    let cmds = n.take_commands();
    assert_eq!(cmds.len(), 9);
    assert_eq!(cmds[7], Command::SaveMetadata(n.local_metadata));
    assert_eq!(cmds[8], Command::RpcUpdateSeqNumber(3));
}

#[test]
fn out_of_range_subnet_changes_no_bit() {
    let mut n = network();
    n.update_enr_subnet(Subnet::Attestation(64), true);
    n.update_enr_subnet(Subnet::SyncCommittee(4), true);
    assert_eq!(n.enr_attnets, 0);
    assert_eq!(n.enr_syncnets, 0);
    assert_eq!(n.local_metadata.seq_number, 2);
}

#[test]
fn persisted_sequence_number_is_kept() {
    let mut n = Network::new(params(), PeerId(1), fork_id(D1), Some(41), false);
    assert_eq!(n.take_commands(), vec![Command::SaveMetadata(n.local_metadata), Command::DiscoverPeers(16)]);
    assert_eq!(n.local_metadata.seq_number, 41);
    assert_eq!(n.local_metadata.custody_group_count, None);
    assert_eq!(n.gossip_cache.timeouts.beacon_block, Some(12_000));
    assert_eq!(n.gossip_cache.timeouts.attestation, Some(192_000));
    assert_eq!(n.gossip_cache.timeouts.voluntary_exit, Some(384_000));
    assert_eq!(n.gossip_cache.timeouts.sync_committee_message, None);
}

#[test]
fn identify_addresses_truncated_to_ten() {
    let mut n = network();
    let addrs: Vec<Multiaddr> = (0..12).map(|p| tcp_loopback(p)).collect();
    let info = IdentifyInfo {
        public_key: vec![1],
        protocol_version: "eth2/1.0.0".to_string(),
        agent_version: "x".to_string(),
        listen_addrs: addrs.clone(),
        protocols: vec![],
        observed_addr: tcp_loopback(1),
    };
    assert_eq!(n.inject_identify_event(IdentifyEvent::Received { peer_id: PeerId(2), info: info.clone() }), None);
    let cmds = n.take_commands();
    match &cmds[..] {
        [Command::PeerManagerIdentify { peer_id, info: sent }] => {
            assert_eq!(*peer_id, PeerId(2));
            assert_eq!(sent.listen_addrs, addrs[..10].to_vec());
            assert_eq!(sent.agent_version, "x");
        }
        other => panic!("unexpected commands {:?}", other),
    }
}

#[test]
fn upnp_mappings_update_record_ports() {
    let mut n = network();
    let quic = Multiaddr { protocols: vec![AddrProtocol::Ip6([0; 16]), AddrProtocol::Udp(9001), AddrProtocol::QuicV1] };
    n.inject_upnp_event(UpnpEvent::NewExternalAddr(quic));
    n.inject_upnp_event(UpnpEvent::NewExternalAddr(tcp_loopback(9000)));
    let udp = Multiaddr { protocols: vec![AddrProtocol::Ip4([1, 1, 1, 1]), AddrProtocol::Udp(9000)] };
    n.inject_upnp_event(UpnpEvent::NewExternalAddr(udp));
    n.inject_upnp_event(UpnpEvent::GatewayNotFound);
    assert_eq!(
        n.take_commands(),
        vec![
            Command::DiscoveryUpdateEnrQuicPort { port: 9001, ip6: true },
            Command::DiscoveryUpdateEnrTcpPort { port: 9000, ip6: false },
        ]
    );
}

#[test]
fn poll_stops_at_first_public_event() {
    let mut n = network();
    let mut queue = vec![
        SwarmEvent::IncomingConnection,
        SwarmEvent::Behaviour(BehaviourEvent::PeerManager(PeerManagerEvent::DiscoverPeers(4))),
        SwarmEvent::Behaviour(BehaviourEvent::PeerManager(PeerManagerEvent::PeerDisconnected(PeerId(3)))),
        SwarmEvent::ListenerClosed { remaining_listeners: 0 },
    ];
    assert_eq!(n.poll_network(&mut queue, 2, 0), Some(NetworkEvent::PeerDisconnected(PeerId(3))));
    assert_eq!(queue, vec![SwarmEvent::ListenerClosed { remaining_listeners: 0 }]);
    assert_eq!(n.take_commands(), vec![Command::DiscoverPeers(4)]);
    assert_eq!(n.poll_network(&mut queue, 2, 0), Some(NetworkEvent::ZeroListeners));
    assert_eq!(n.poll_network(&mut queue, 2, 0), None);
    assert_eq!(
        n.take_commands(),
        vec![Command::PeerManagerUpdateGossipsubScores, Command::PeerManagerUpdateGossipsubScores]
    );
}

#[test]
fn listener_closed_with_listeners_left_is_silent() {
    let mut n = network();
    assert_eq!(n.on_swarm_event(SwarmEvent::ListenerClosed { remaining_listeners: 1 }, 0), None);
    assert_eq!(n.on_swarm_event(SwarmEvent::ConnectionEstablished { peer_id: PeerId(1) }, 0), None);
}

#[test]
fn topic_weight_removed_from_other_forks() {
    let mut n = network();
    n.subscribe(topic(GossipKind::BeaconBlock, D1));
    n.subscribe(topic(GossipKind::BeaconBlock, D2));
    n.take_commands();
    n.remove_topic_weight_except(D2);
    assert_eq!(
        n.take_commands(),
        vec![Command::GossipSetTopicParams { topic: topic(GossipKind::BeaconBlock, D1), params: TopicParams::Unweighted }]
    );
    assert_eq!(n.subscriptions.len(), 2);
}

#[test]
fn score_parameters_cover_three_groups() {
    let mut n = network();
    n.update_gossipsub_parameters(100_000, 64);
    let cmds = n.take_commands();
    assert_eq!(cmds.len(), 66);
    let dynamic = |group| TopicParams::Dynamic { group, active_validators: 100_000, current_slot: 64 };
    assert_eq!(cmds[0], Command::GossipSetTopicParams { topic: topic(GossipKind::BeaconBlock, D1), params: dynamic(ScoreGroup::BeaconBlock) });
    assert_eq!(
        cmds[1],
        Command::GossipSetTopicParams { topic: topic(GossipKind::BeaconAggregateAndProof, D1), params: dynamic(ScoreGroup::BeaconAggregateAndProof) }
    );
    assert_eq!(cmds[65], Command::GossipSetTopicParams { topic: topic(GossipKind::Attestation(63), D1), params: dynamic(ScoreGroup::AttestationSubnet) });
}

#[test]
fn fork_version_update_moves_new_topics() {
    let mut n = network();
    n.update_fork_version(fork_id(D2));
    n.subscribe_kind(GossipKind::BeaconBlock);
    assert!(n.is_subscribed(&topic(GossipKind::BeaconBlock, D2)));
    assert_eq!(
        n.take_commands(),
        vec![Command::DiscoveryUpdateEth2Enr(fork_id(D2)), Command::GossipSubscribe(topic(GossipKind::BeaconBlock, D2))]
    );
}

#[test]
fn validation_results_are_forwarded() {
    let mut n = network();
    n.report_message_validation_result(PeerId(4), vec![1, 2], MessageAcceptance::Ignore);
    n.report_message_validation_result(PeerId(4), vec![3], MessageAcceptance::Accept);
    n.goodbye_peer(PeerId(4), GoodbyeReason::Fault, ReportSource::SyncService);
    n.add_enr(enr(7, vec![]));
    assert_eq!(
        n.take_commands(),
        vec![
            Command::CountUnacceptedMessage { peer_id: PeerId(4), acceptance: MessageAcceptance::Ignore },
            Command::GossipReportValidation { message_id: vec![1, 2], source: PeerId(4), acceptance: MessageAcceptance::Ignore },
            Command::GossipReportValidation { message_id: vec![3], source: PeerId(4), acceptance: MessageAcceptance::Accept },
            Command::PeerManagerGoodbye { peer_id: PeerId(4), reason: GoodbyeReason::Fault, source: ReportSource::SyncService },
            Command::DiscoveryAddEnr(enr(7, vec![])),
        ]
    );
}

#[test]
fn topic_subnets() {
    assert_eq!(topic(GossipKind::Attestation(2), D1).subnet_id(), Some(Subnet::Attestation(2)));
    assert_eq!(topic(GossipKind::SyncCommitteeMessage(1), D1).subnet_id(), Some(Subnet::SyncCommittee(1)));
    assert_eq!(topic(GossipKind::BlobSidecar(1), D1).subnet_id(), None);
    assert_ne!(topic(GossipKind::BeaconBlock, D1), topic(GossipKind::BeaconBlock, D2));
}

#[test]
fn testing_dial_issues_a_dial() {
    let mut n = network();
    n.testing_dial(tcp_loopback(7000));
    assert_eq!(n.take_commands(), vec![Command::Dial(tcp_loopback(7000))]);
}

#[test]
fn failed_listen_refuses_to_start() {
    let mut n = network();
    let mut config = empty_config();
    config.topics = vec![GossipKind::BeaconBlock];
    config.libp2p_nodes = vec![tcp_loopback(5)];
    n.start(vec![tcp_loopback(0), tcp_loopback(1)], false);
    n.take_commands();
    assert_eq!(n.complete_start(config, &vec![true, false]), Err(StartError::ListenFailed));
    assert!(n.take_commands().is_empty());
    assert!(n.subscriptions.is_empty());
}

#[test]
fn new_with_metrics_registers_topics() {
    let mut n = Network::new(params(), PeerId(1), fork_id(D1), None, true);
    let cmds = n.take_commands();
    assert_eq!(cmds.len(), 3);
    assert_eq!(cmds[2], Command::DiscoverPeers(16));
    match &cmds[1] {
        Command::GossipRegisterMetricsTopics(v) => assert_eq!(v.len(), 68),
        other => panic!("unexpected command {:?}", other),
    }
}

#[test]
fn subscription_answers() {
    assert!(subscribe_succeeded(Ok(false)));
    assert!(!subscribe_succeeded(Err(SubscriptionError::NotAllowed)));
    assert!(unsubscribe_succeeded(Ok(true)));
    assert!(!unsubscribe_succeeded(Ok(false)));
    assert!(!unsubscribe_succeeded(Err(SubscriptionError::PublishError(PublishError::Duplicate))));
}

#[test]
fn late_publish_success_is_counted() {
    let mut n = network();
    let t = topic(GossipKind::Attestation(1), D1);
    n.handle_publish_result(t, vec![1], true, Ok(()), 0);
    assert_eq!(n.take_commands(), vec![Command::CountLatePublish { kind: GossipKind::Attestation(1), success: true }]);
}

#[test]
fn whitelist_covers_every_digest() {
    let w = subscription_whitelist(&params(), &vec![D1, D2]);
    assert_eq!(w.len(), 2 * 211);
    assert_eq!(w[0], topic(GossipKind::BeaconBlock, D1));
    assert_eq!(w[9], topic(GossipKind::Attestation(0), D1));
    assert_eq!(w[210], topic(GossipKind::DataColumnSidecar(127), D1));
    assert_eq!(w[211 + 8], topic(GossipKind::LightClientOptimisticUpdate, D2));
    assert_eq!(subscription_limits(&params()), (844, 422));
}
