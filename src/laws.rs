use vstd::prelude::*;

use crate::command::Command;
use crate::event::NetworkEvent;
use crate::gossip_cache::{holds_key, spec_insert, CacheTimeouts, CachedMessage};
use crate::gossip::new_commands;
use crate::network::{fork_core_kinds, replay_subscriptions, retarget, Network, MAX_IDENTIFY_ADDRESSES};
use crate::peers::{pm_event_post, PeerManagerEvent};
use crate::poll::truncated_addrs;
use crate::rpc::{
    HandlerErr, Protocol, RPCError, RPCMessage, RPCReceived, Request, RequestId, RequestType,
    Response,
};
use crate::rpc_handler::{rpc_event_effects, termination_response};
use crate::topics::{retargeted, topics_of};
use crate::types::{ConnectionDirection, ForkName, GossipKind, GossipTopic, Subnet, IpAddr, MetaData, PeerAction, PeerId, ReportSource};

verus! {

broadcast use vstd::seq_lib::group_seq_properties;

/// Every topic of the subscription set is one the gossip layer was last
/// told to subscribe to: it holds for every well-formed state.
pub proof fn lemma_subscriptions_reported(n: &Network, t: GossipTopic)
    requires
        n.wf(),
        n.subscription_set().contains(t),
    ensures
        replay_subscriptions(n.issued@).contains(t),
{
}

/// Subscribing to a topic not yet subscribed and then unsubscribing from it
/// gives back the subscription set that was.
pub proof fn lemma_subscribe_unsubscribe(s0: Set<GossipTopic>, s1: Set<GossipTopic>, s2: Set<GossipTopic>, t: GossipTopic)
    requires
        !s0.contains(t),
        s1 == s0.insert(t),
        s2 == s1.remove(t),
    ensures
        s2 == s0,
{
    assert(s2 =~= s0);
}

/// After the subscriptions of a new fork at digest `d`, each topic subscribed
/// before is subscribed both at its own digest and at `d`.
pub proof fn lemma_fork_dual_subscription(before: &Network, after: &Network, fork: ForkName, d: [u8; 4], t: GossipTopic)
    requires
        after.subscription_set() == before.subscription_set() + retargeted(before.subscriptions@, d).to_set()
            + topics_of(fork_core_kinds(fork, before.params), d).to_set(),
        before.subscription_set().contains(t),
    ensures
        after.subscription_set().contains(t),
        after.subscription_set().contains(retarget(t, d)),
{
    let i = choose|i: int| 0 <= i < before.subscriptions@.len() && before.subscriptions@[i] == t;
    assert(retargeted(before.subscriptions@, d)[i] == retarget(t, d));
    assert(retargeted(before.subscriptions@, d).contains(retarget(t, d)));
}

/// Once the topics of other forks than `d` are dropped, the topics at `d`
/// stay and those at other digests are gone.
pub proof fn lemma_fork_cleanup(before: &Network, after: &Network, d: [u8; 4], t: GossipTopic)
    requires
        after.subscription_set() == before.subscription_set().filter(|x: GossipTopic| x.fork_digest == d),
    ensures
        after.subscription_set().contains(t) <==> (before.subscription_set().contains(t) && t.fork_digest == d),
{
}

/// Keeping the same payload on distinct topics, none of which holds it yet
/// and all of whose kinds are retried, adds one entry per topic.
pub open spec fn insert_each(timeouts: CacheTimeouts, s: Seq<CachedMessage>, topics: Seq<GossipTopic>, data: Seq<u8>, now: u64) -> Seq<CachedMessage>
    decreases topics.len(),
{
    if topics.len() == 0 {
        s
    } else {
        let prev = insert_each(timeouts, s, topics.drop_last(), data, now);
        match timeouts.spec_timeout(topics.last().kind) {
            Some(ttl) => spec_insert(prev, topics.last(), data, ttl, now),
            None => prev,
        }
    }
}

/// A message whose topics have no mesh peers leaves one cache entry per
/// topic: when every publish fails for want of peers, each topic's kind is
/// retried, the topics are distinct and none held the payload before, the
/// cache grows by exactly the number of topics.
pub proof fn lemma_insufficient_peers_cached(timeouts: CacheTimeouts, s: Seq<CachedMessage>, topics: Seq<GossipTopic>, data: Seq<u8>, now: u64)
    requires
        topics.no_duplicates(),
        forall|i: int| 0 <= i < topics.len() ==> (#[trigger] timeouts.spec_timeout(topics[i].kind)).is_some(),
        forall|i: int| 0 <= i < topics.len() ==> !holds_key(s, #[trigger] topics[i], data),
    ensures
        insert_each(timeouts, s, topics, data, now).len() == s.len() + topics.len(),
        forall|t: GossipTopic| !topics.contains(t) ==> !holds_key(insert_each(timeouts, s, topics, data, now), t, data)
            || holds_key(s, t, data),
    decreases topics.len(),
{
    if topics.len() > 0 {
        let init = topics.drop_last();
        let last = topics.last();
        assert forall|i: int| 0 <= i < init.len() implies (#[trigger] timeouts.spec_timeout(init[i].kind)).is_some() by {
            assert(init[i] == topics[i]);
        }
        assert forall|i: int| 0 <= i < init.len() implies !holds_key(s, #[trigger] init[i], data) by {
            assert(init[i] == topics[i]);
        }
        lemma_insufficient_peers_cached(timeouts, s, init, data, now);
        let prev = insert_each(timeouts, s, init, data, now);
        assert(!init.contains(last)) by {
            if init.contains(last) {
                let j = choose|j: int| 0 <= j < init.len() && init[j] == last;
                assert(topics[j] == topics[topics.len() - 1]);
            }
        }
        assert(!holds_key(s, last, data)) by {
            assert(topics[topics.len() - 1] == last);
        }
        assert(!holds_key(prev, last, data));
        assert(timeouts.spec_timeout(last.kind).is_some()) by {
            assert(topics[topics.len() - 1] == last);
        }
        let ttl = timeouts.spec_timeout(last.kind).unwrap();
        let e = CachedMessage { topic: last, data, expires_at: crate::gossip_cache::expiry(now, ttl) };
        assert(insert_each(timeouts, s, topics, data, now) == prev.push(e));
        assert forall|t: GossipTopic| !topics.contains(t) implies !holds_key(insert_each(timeouts, s, topics, data, now), t, data)
            || holds_key(s, t, data) by {
            if !holds_key(s, t, data) && holds_key(prev.push(e), t, data) {
                let k = choose|k: int| 0 <= k < prev.push(e).len() && prev.push(e)[k].topic == t && prev.push(e)[k].data == data;
                if k == prev.len() {
                    assert(topics[topics.len() - 1] == t);
                } else {
                    assert(prev[k].topic == t);
                    assert(!init.contains(t)) by {
                        if init.contains(t) {
                            let j = choose|j: int| 0 <= j < init.len() && init[j] == t;
                            assert(topics[j] == t);
                        }
                    }
                    assert(holds_key(prev, t, data));
                }
            }
        }
    }
}

/// A blocks-by-range request with a zero step from a connected peer is
/// never surfaced; the peer manager is told of invalid data instead.
pub proof fn lemma_zero_step_rejected(peer_id: PeerId, conn_id: u64, request: Request, meta: MetaData)
    requires
        request.request_type matches RequestType::BlocksByRange { step, .. } && step == 0,
    ensures
        rpc_event_effects(RPCMessage { peer_id, conn_id, message: Ok(RPCReceived::Request(request)) }, true, meta) == (
            seq![Command::PeerManagerRpcError {
                peer_id,
                protocol: Protocol::BlocksByRange,
                error: RPCError::InvalidData,
                direction: ConnectionDirection::Incoming,
            }],
            Option::<NetworkEvent>::None,
        ),
{
}

/// Requests this layer makes for itself (pings and metadata) never surface
/// an event, whatever comes back: responses, stream ends and failures alike.
pub proof fn lemma_internal_requests_silent(ev: RPCMessage, connected: bool, meta: MetaData)
    requires
        match ev.message {
            Ok(RPCReceived::Response(id, _)) => id == RequestId::Internal,
            Ok(RPCReceived::EndOfStream(id, _)) => id == RequestId::Internal,
            Err(HandlerErr::Outbound { id, .. }) => id == RequestId::Internal,
            _ => false,
        },
    ensures
        rpc_event_effects(ev, connected, meta).1.is_none(),
{
}

/// Pongs and metadata answers are consumed here, whoever asked.
pub proof fn lemma_pong_and_metadata_consumed(ev: RPCMessage, connected: bool, meta: MetaData)
    requires
        ev.message matches Ok(RPCReceived::Response(_, resp)) && (resp is Pong || resp is MetaData),
    ensures
        rpc_event_effects(ev, connected, meta).1.is_none(),
{
}

/// A request of the application ends in one event naming it: the end of its
/// stream surfaces as the `None` marker of its kind, and a failure as
/// `RPCFailed`, even after the peer has gone.
pub proof fn lemma_application_request_terminates(ev: RPCMessage, connected: bool, meta: MetaData, id: u64)
    requires
        match ev.message {
            Ok(RPCReceived::EndOfStream(rid, _)) => rid == RequestId::Application(id),
            Err(HandlerErr::Outbound { id: rid, .. }) => rid == RequestId::Application(id),
            _ => false,
        },
    ensures
        match ev.message {
            Ok(RPCReceived::EndOfStream(_, t)) => rpc_event_effects(ev, connected, meta).1 == Some(
                NetworkEvent::ResponseReceived { peer_id: ev.peer_id, id, response: termination_response(t) },
            ),
            Err(HandlerErr::Outbound { error, .. }) => rpc_event_effects(ev, connected, meta).1 == Some(
                NetworkEvent::RPCFailed { id, peer_id: ev.peer_id, error },
            ),
            _ => false,
        },
{
}

/// A fatal report, answered by the peer manager with a ban and then a
/// disconnection, makes discovery ban the peer and surfaces the
/// disconnection to the application.
pub proof fn lemma_fatal_report_bans_and_disconnects(
    n0: &Network,
    n1: &Network,
    n2: &Network,
    n3: &Network,
    peer_id: PeerId,
    source: ReportSource,
    msg: &'static str,
    ips: Vec<IpAddr>,
    r2: Option<NetworkEvent>,
    r3: Option<NetworkEvent>,
)
    requires
        Network::issued_after(n0, n1, seq![Command::PeerManagerReport { peer_id, action: PeerAction::Fatal, source, goodbye: None, msg }]),
        pm_event_post(n1, PeerManagerEvent::Banned(peer_id, ips), n2, r2),
        pm_event_post(n2, PeerManagerEvent::PeerDisconnected(peer_id), n3, r3),
    ensures
        new_commands(n0, n3) == seq![
            Command::PeerManagerReport { peer_id, action: PeerAction::Fatal, source, goodbye: None, msg },
            Command::DiscoveryBanPeer { peer_id, ips },
        ],
        r2.is_none(),
        r3 == Some(NetworkEvent::PeerDisconnected(peer_id)),
{
    assert(n3.commands@ =~= n0.commands@ + seq![
        Command::PeerManagerReport { peer_id, action: PeerAction::Fatal, source, goodbye: None, msg },
        Command::DiscoveryBanPeer { peer_id, ips },
    ]);
    assert(new_commands(n0, n3) =~= seq![
        Command::PeerManagerReport { peer_id, action: PeerAction::Fatal, source, goodbye: None, msg },
        Command::DiscoveryBanPeer { peer_id, ips },
    ]);
}

/// The peer manager never sees more than ten listen addresses of a peer, and
/// those it sees are the first ones reported.
pub proof fn lemma_identify_truncated(addrs: Seq<crate::types::Multiaddr>)
    ensures
        truncated_addrs(addrs).len() <= MAX_IDENTIFY_ADDRESSES,
        truncated_addrs(addrs) == addrs.take(truncated_addrs(addrs).len() as int),
        addrs.len() <= MAX_IDENTIFY_ADDRESSES ==> truncated_addrs(addrs) == addrs,
{
    assert(addrs.take(addrs.len() as int) =~= addrs);
}

/// The kinds a failed first publish is kept for: blocks, aggregates,
/// attestations, exits, slashings and credential changes.
pub open spec fn retried_kind(k: GossipKind) -> bool {
    match k {
        GossipKind::BeaconBlock | GossipKind::BeaconAggregateAndProof | GossipKind::Attestation(_)
        | GossipKind::VoluntaryExit | GossipKind::ProposerSlashing | GossipKind::AttesterSlashing
        | GossipKind::BlsToExecutionChange => true,
        _ => false,
    }
}

/// In every well-formed state, a payload that found no mesh peers is kept
/// for a retry exactly when its kind is one of the retried kinds; sync
/// committee traffic and the other kinds are never kept.
pub proof fn lemma_retried_kinds(n: &Network, k: GossipKind)
    requires
        n.wf(),
    ensures
        n.gossip_cache.timeouts.spec_timeout(k).is_some() <==> retried_kind(k),
{
}

/// In every well-formed state, a block whose first publish found no mesh
/// peers, and whose payload the cache does not hold on its topic, leaves
/// exactly one more entry, holding that payload on that topic.
pub proof fn lemma_block_cached(n: &Network, t: GossipTopic, data: Seq<u8>, now: u64)
    requires
        n.wf(),
        t.kind == GossipKind::BeaconBlock,
        !holds_key(n.gossip_cache@, t, data),
    ensures
        n.gossip_cache.timeouts.spec_timeout(t.kind) is Some,
        spec_insert(n.gossip_cache@, t, data, n.gossip_cache.timeouts.spec_timeout(t.kind)->Some_0, now).len()
            == n.gossip_cache@.len() + 1,
        holds_key(spec_insert(n.gossip_cache@, t, data, n.gossip_cache.timeouts.spec_timeout(t.kind)->Some_0, now), t, data),
{
    let ttl = n.gossip_cache.timeouts.spec_timeout(t.kind)->Some_0;
    let s2 = spec_insert(n.gossip_cache@, t, data, ttl, now);
    assert(s2[n.gossip_cache@.len() as int].topic == t);
}

/// A metadata write bumps the sequence number by exactly one, persists the
/// new metadata before the RPC layer is told its sequence number, and the
/// persisted copy is the one kept in memory, advertising the subnets of the
/// local record.
pub proof fn lemma_metadata_write(old: &Network, new: &Network, subnet: Subnet, value: bool)
    requires
        new.wf(),
        new.local_metadata.seq_number == old.local_metadata.seq_number + 1,
        Network::issued_after(old, new, seq![
            Command::DiscoveryUpdateEnrBitfield { subnet, value },
            Command::SaveMetadata(new.local_metadata),
            Command::RpcUpdateSeqNumber(new.local_metadata.seq_number),
        ]),
    ensures
        new_commands(old, new).len() == 3,
        new_commands(old, new)[1] == Command::SaveMetadata(new.local_metadata),
        new_commands(old, new)[2] == Command::RpcUpdateSeqNumber((old.local_metadata.seq_number + 1) as u64),
        new.local_metadata.attnets == new.enr_attnets,
{
    assert(new_commands(old, new) =~= seq![
        Command::DiscoveryUpdateEnrBitfield { subnet, value },
        Command::SaveMetadata(new.local_metadata),
        Command::RpcUpdateSeqNumber(new.local_metadata.seq_number),
    ]);
}

} // verus!
