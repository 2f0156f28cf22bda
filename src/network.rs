use vstd::prelude::*;

use crate::command::Command;
use crate::gossip_cache::{CacheTimeouts, GossipCache};
use crate::types::{
    EnrForkId, ForkName, GossipEncoding, GossipKind, GossipTopic, MetaData, Multiaddr, PeerId,
};

verus! {

broadcast use vstd::seq_lib::group_seq_properties;

/// The number of peers targeted on each subnet before a discovery query is
/// considered unnecessary.
pub const TARGET_SUBNET_PEERS: usize = 3;

/// The number of peers the first discovery query of a starting node asks for.
pub const FIND_NODE_QUERY_CLOSEST_PEERS: u64 = 16;

/// The most listen addresses of a peer that are handed to the peer manager.
pub const MAX_IDENTIFY_ADDRESSES: usize = 10;

/// Chain parameters the façade reads.
#[derive(Clone, Copy, Debug, PartialEq, Eq, Hash, Structural)]
pub struct NetworkParams {
    pub seconds_per_slot: u64,
    pub slots_per_epoch: u64,
    pub attestation_subnet_count: u64,
    pub sync_committee_subnet_count: u64,
    pub blob_sidecar_subnet_count: u64,
    pub blob_sidecar_subnet_count_electra: u64,
    pub data_column_sidecar_subnet_count: u64,
    pub custody_requirement: u64,
    pub peer_das_scheduled: bool,
    pub subscribe_all_data_column_subnets: bool,
}

/// The gossip-layer subscriptions that a sequence of commands leaves behind,
/// starting from none.
pub open spec fn replay_subscriptions(cmds: Seq<Command>) -> Set<GossipTopic>
    decreases cmds.len(),
{
    if cmds.len() == 0 {
        Set::empty()
    } else {
        let prev = replay_subscriptions(cmds.drop_last());
        match cmds.last() {
            Command::GossipSubscribe(t) => prev.insert(t),
            Command::GossipUnsubscribe(t) => prev.remove(t),
            _ => prev,
        }
    }
}

/// A topic of `kind` at `digest`, in the default encoding.
pub open spec fn topic_at(kind: GossipKind, digest: [u8; 4]) -> GossipTopic {
    GossipTopic { kind, encoding: GossipEncoding::SszSnappy, fork_digest: digest }
}

/// The same topic, moved to another fork digest.
pub open spec fn retarget(t: GossipTopic, digest: [u8; 4]) -> GossipTopic {
    GossipTopic { fork_digest: digest, ..t }
}

/// The topic kinds that a fork introduces.
pub open spec fn fork_core_kinds(fork: ForkName, params: NetworkParams) -> Seq<GossipKind> {
    match fork {
        ForkName::Base => seq![
            GossipKind::BeaconBlock,
            GossipKind::BeaconAggregateAndProof,
            GossipKind::VoluntaryExit,
            GossipKind::ProposerSlashing,
            GossipKind::AttesterSlashing,
        ],
        ForkName::Altair => seq![GossipKind::SignedContributionAndProof],
        ForkName::Bellatrix => Seq::empty(),
        ForkName::Capella => seq![GossipKind::BlsToExecutionChange],
        ForkName::Deneb => Seq::new(
            params.blob_sidecar_subnet_count as nat,
            |i: int| GossipKind::BlobSidecar(i as u64),
        ),
        ForkName::Electra => Seq::new(
            params.blob_sidecar_subnet_count_electra as nat,
            |i: int| GossipKind::BlobSidecar(i as u64),
        ),
        ForkName::Fulu => Seq::empty(),
    }
}

/// The attestation and sync-committee topics at `digest`, tracked for metrics.
pub open spec fn metrics_topics(params: NetworkParams, digest: [u8; 4]) -> Seq<GossipTopic> {
    Seq::new(
        params.attestation_subnet_count as nat,
        |i: int| topic_at(GossipKind::Attestation(i as u64), digest),
    ) + Seq::new(
        params.sync_committee_subnet_count as nat,
        |i: int| topic_at(GossipKind::SyncCommitteeMessage(i as u64), digest),
    )
}

/// The metadata the node starts with: the persisted sequence number (or 0),
/// empty bitfields, and a custody count where peer-DAS is scheduled.
pub open spec fn initial_metadata(params: NetworkParams, persisted_seq_number: Option<u64>) -> MetaData {
    MetaData {
        seq_number: match persisted_seq_number {
            Some(n) => n,
            None => 0,
        },
        attnets: 0,
        syncnets: Some(0),
        custody_group_count: if params.peer_das_scheduled {
            Some(
                if params.subscribe_all_data_column_subnets {
                    params.data_column_sidecar_subnet_count
                } else {
                    params.custody_requirement
                },
            )
        } else {
            None
        },
    }
}

/// The retry times of the gossip cache: one slot for blocks, half an epoch for
/// aggregates and attestations, an epoch for exits, slashings and credential
/// changes; sync-committee traffic is never retried.
pub open spec fn cache_timeouts(params: NetworkParams) -> CacheTimeouts {
    let slot = params.seconds_per_slot * 1000;
    let half_epoch = (params.seconds_per_slot * params.slots_per_epoch / 2) * 1000;
    CacheTimeouts {
        beacon_block: Some(slot as u64),
        aggregates: Some(half_epoch as u64),
        attestation: Some(half_epoch as u64),
        voluntary_exit: Some((half_epoch * 2) as u64),
        proposer_slashing: Some((half_epoch * 2) as u64),
        attester_slashing: Some((half_epoch * 2) as u64),
        signed_contribution_and_proof: None,
        sync_committee_message: None,
        bls_to_execution_change: Some((half_epoch * 2) as u64),
        blob_sidecar: None,
        data_column_sidecar: None,
        light_client_finality_update: None,
        light_client_optimistic_update: None,
    }
}

/// The network façade: the state that the event loop and the host's commands
/// act on. What it asks of the transport, gossip, discovery, peer-manager and
/// RPC subsystems is queued in `commands`, in order.
pub struct Network {
    /// The local subscription set, without repetition.
    pub subscriptions: Vec<GossipTopic>,
    /// The fork identity, whose digest scopes new topics.
    pub enr_fork_id: EnrForkId,
    pub gossip_cache: GossipCache,
    pub local_metadata: MetaData,
    /// The attestation-subnet bitfield of the local node record.
    pub enr_attnets: u64,
    /// The sync-committee bitfield of the local node record.
    pub enr_syncnets: u8,
    pub params: NetworkParams,
    pub local_peer_id: PeerId,
    /// Commands not yet handed to the driver.
    pub commands: Vec<Command>,
    /// Every command ever issued, in order.
    pub issued: Ghost<Seq<Command>>,
}

impl Network {
    /// The subscription set.
    pub open spec fn subscription_set(&self) -> Set<GossipTopic> {
        self.subscriptions@.to_set()
    }

    /// The digest that new topics are scoped to.
    pub open spec fn digest(&self) -> [u8; 4] {
        self.enr_fork_id.fork_digest
    }

    /// The subscriptions are unique, they agree with what the gossip layer was
    /// told, the cache is well formed and keeps the retry times of the chain
    /// parameters, and the metadata advertises the subnets of the local record.
    pub open spec fn wf(&self) -> bool {
        &&& self.wf_core()
        &&& self.local_metadata.attnets == self.enr_attnets
        &&& (self.local_metadata.syncnets is Some ==> self.local_metadata.syncnets == Some(self.enr_syncnets))
    }

    /// All of `wf` but the agreement of the metadata with the local record.
    pub open spec fn wf_core(&self) -> bool {
        &&& self.subscriptions@.no_duplicates()
        &&& replay_subscriptions(self.issued@) == self.subscription_set()
        &&& self.gossip_cache.wf()
        &&& self.gossip_cache.timeouts == cache_timeouts(self.params)
    }

    /// `other` differs from `self` at most in the commands it has issued.
    pub open spec fn same_state(&self, other: &Network) -> bool {
        &&& other.subscriptions == self.subscriptions
        &&& other.enr_fork_id == self.enr_fork_id
        &&& other.gossip_cache == self.gossip_cache
        &&& other.local_metadata == self.local_metadata
        &&& other.enr_attnets == self.enr_attnets
        &&& other.enr_syncnets == self.enr_syncnets
        &&& other.params == self.params
        &&& other.local_peer_id == self.local_peer_id
    }

    /// `new` issued exactly `cmds` after `old`'s commands.
    pub open spec fn issued_after(old: &Network, new: &Network, cmds: Seq<Command>) -> bool {
        &&& new.commands@ == old.commands@ + cmds
        &&& new.issued@ == old.issued@ + cmds
    }

    /// Builds the façade. `persisted_seq_number` is the sequence number of the
    /// metadata found on disk, if any; the resulting metadata is persisted.
    pub fn new(
        params: NetworkParams,
        local_peer_id: PeerId,
        enr_fork_id: EnrForkId,
        persisted_seq_number: Option<u64>,
        metrics_enabled: bool,
    ) -> (r: Network)
        requires
            params.seconds_per_slot * 1000 <= u64::MAX,
            params.seconds_per_slot * params.slots_per_epoch * 1000 <= u64::MAX,
        ensures
            r.wf(),
            r.subscription_set() == Set::<GossipTopic>::empty(),
            r.enr_fork_id == enr_fork_id,
            r.params == params,
            r.local_peer_id == local_peer_id,
            r.gossip_cache@ == Seq::<crate::gossip_cache::CachedMessage>::empty(),
            r.gossip_cache.timeouts == cache_timeouts(params),
            r.local_metadata == initial_metadata(params, persisted_seq_number),
            r.enr_attnets == 0 && r.enr_syncnets == 0,
            r.issued@ == r.commands@,
            r.commands@.len() == if metrics_enabled { 3nat } else { 2nat },
            r.commands@[0] == Command::SaveMetadata(r.local_metadata),
            metrics_enabled ==> match r.commands@[1] {
                Command::GossipRegisterMetricsTopics(v) => v@ == metrics_topics(params, enr_fork_id.fork_digest),
                _ => false,
            },
            r.commands@.last() == Command::DiscoverPeers(FIND_NODE_QUERY_CLOSEST_PEERS),
    {
        proof {
            assert(params.seconds_per_slot * params.slots_per_epoch <= u64::MAX) by (nonlinear_arith)
                requires
                    params.seconds_per_slot * params.slots_per_epoch * 1000 <= u64::MAX,
            ;
            let p = params.seconds_per_slot * params.slots_per_epoch;
            assert((p / 2) * 2 <= p) by (nonlinear_arith);
            assert((p / 2) * 1000 * 2 <= p * 1000) by (nonlinear_arith)
                requires
                    (p / 2) * 2 <= p,
            ;
        }
        let half_epoch: u64 = (params.seconds_per_slot * params.slots_per_epoch / 2) * 1000;
        let timeouts = CacheTimeouts {
            beacon_block: Some(params.seconds_per_slot * 1000),
            aggregates: Some(half_epoch),
            attestation: Some(half_epoch),
            voluntary_exit: Some(half_epoch * 2),
            proposer_slashing: Some(half_epoch * 2),
            attester_slashing: Some(half_epoch * 2),
            signed_contribution_and_proof: None,
            sync_committee_message: None,
            bls_to_execution_change: Some(half_epoch * 2),
            blob_sidecar: None,
            data_column_sidecar: None,
            light_client_finality_update: None,
            light_client_optimistic_update: None,
        };
        let custody_group_count = if params.peer_das_scheduled {
            Some(
                if params.subscribe_all_data_column_subnets {
                    params.data_column_sidecar_subnet_count
                } else {
                    params.custody_requirement
                },
            )
        } else {
            None
        };
        let seq_number = match persisted_seq_number {
            Some(n) => n,
            None => 0,
        };
        let local_metadata = MetaData { seq_number, attnets: 0, syncnets: Some(0), custody_group_count };
        let mut r = Network {
            subscriptions: Vec::new(),
            enr_fork_id,
            gossip_cache: GossipCache::new(timeouts),
            local_metadata,
            enr_attnets: 0,
            enr_syncnets: 0,
            params,
            local_peer_id,
            commands: Vec::new(),
            issued: Ghost(Seq::empty()),
        };
        proof {
            assert(replay_subscriptions(Seq::<Command>::empty()) == Set::<GossipTopic>::empty());
            assert(r.subscriptions@.to_set() =~= Set::<GossipTopic>::empty());
            assert(r.commands@ =~= r.issued@);
        }
        r.emit(Command::SaveMetadata(local_metadata));
        if metrics_enabled {
            let topics = crate::topics::attestation_sync_committee_topics(&params, enr_fork_id.fork_digest);
            let ghost tv = topics;
            r.emit(Command::GossipRegisterMetricsTopics(topics));
            assert(r.commands@[1] == Command::GossipRegisterMetricsTopics(tv));
        }
        r.emit(Command::DiscoverPeers(FIND_NODE_QUERY_CLOSEST_PEERS));
        proof {
            assert(r.commands@ =~= r.issued@);
        }
        r
    }

    /// Queues a command.
    pub(crate) fn emit(&mut self, c: Command)
        ensures
            old(self).same_state(final(self)),
            Network::issued_after(old(self), final(self), seq![c]),
            replay_subscriptions(final(self).issued@) == match c {
                Command::GossipSubscribe(t) => replay_subscriptions(old(self).issued@).insert(t),
                Command::GossipUnsubscribe(t) => replay_subscriptions(old(self).issued@).remove(t),
                _ => replay_subscriptions(old(self).issued@),
            },
    {
        let ghost c_spec = c;
        let ghost next: Seq<Command> = self.issued@.push(c_spec);
        self.commands.push(c);
        self.issued = Ghost(next);
        proof {
            assert(self.issued@.drop_last() =~= old(self).issued@);
            assert(self.commands@ =~= old(self).commands@ + seq![c_spec]);
            assert(self.issued@ =~= old(self).issued@ + seq![c_spec]);
        }
    }

    /// Hands the queued commands to the driver, in order.
    pub fn take_commands(&mut self) -> (r: Vec<Command>)
        requires
            old(self).wf(),
        ensures
            final(self).wf(),
            old(self).same_state(final(self)),
            r@ == old(self).commands@,
            final(self).commands@ == Seq::<Command>::empty(),
            final(self).issued@ == old(self).issued@,
    {
        let mut fresh: Vec<Command> = Vec::new();
        std::mem::swap(&mut fresh, &mut self.commands);
        fresh
    }

    /// Dials an address directly, bypassing the peer manager.
    pub fn testing_dial(&mut self, addr: Multiaddr)
        requires
            old(self).wf(),
        ensures
            final(self).wf(),
            old(self).same_state(final(self)),
            Network::issued_after(old(self), final(self), seq![Command::Dial(addr)]),
    {
        self.emit(Command::Dial(addr));
    }

    /// Whether `topic` is in the subscription set.
    pub fn is_subscribed(&self, topic: &GossipTopic) -> (r: bool)
        ensures
            r == self.subscription_set().contains(*topic),
    {
        let mut i: usize = 0;
        while i < self.subscriptions.len()
            invariant
                i <= self.subscriptions@.len(),
                forall|j: int| 0 <= j < i ==> self.subscriptions@[j] != *topic,
            decreases self.subscriptions@.len() - i,
        {
            if self.subscriptions[i] == *topic {
                assert(self.subscriptions@.contains(*topic));
                return true;
            }
            i = i + 1;
        }
        false
    }

    /// Adds `topic` to the subscription set, then asks the gossip layer to
    /// subscribe to it.
    pub fn subscribe(&mut self, topic: GossipTopic)
        requires
            old(self).wf(),
        ensures
            final(self).wf(),
            final(self).subscription_set() == old(self).subscription_set().insert(topic),
            Network::issued_after(old(self), final(self), seq![Command::GossipSubscribe(topic)]),
            final(self).enr_fork_id == old(self).enr_fork_id,
            final(self).gossip_cache == old(self).gossip_cache,
            final(self).local_metadata == old(self).local_metadata,
            final(self).enr_attnets == old(self).enr_attnets,
            final(self).enr_syncnets == old(self).enr_syncnets,
            final(self).params == old(self).params,
    {
        if !self.is_subscribed(&topic) {
            self.subscriptions.push(topic);
            proof {
                assert(self.subscriptions@.to_set() =~= old(self).subscriptions@.to_set().insert(topic));
                assert(self.subscriptions@.no_duplicates()) by {
                    assert forall|a: int, b: int|
                        0 <= a < b < self.subscriptions@.len() implies self.subscriptions@[a]
                        != self.subscriptions@[b] by {
                        if b == self.subscriptions@.len() - 1 {
                            assert(old(self).subscriptions@.contains(self.subscriptions@[a]));
                        }
                    }
                }
            }
        } else {
            assert(self.subscriptions@.to_set() =~= old(self).subscriptions@.to_set().insert(topic));
        }
        self.emit(Command::GossipSubscribe(topic));
    }

    /// Removes `topic` from the subscription set, then asks the gossip layer to
    /// unsubscribe from it.
    pub fn unsubscribe(&mut self, topic: GossipTopic)
        requires
            old(self).wf(),
        ensures
            final(self).wf(),
            final(self).subscription_set() == old(self).subscription_set().remove(topic),
            Network::issued_after(old(self), final(self), seq![Command::GossipUnsubscribe(topic)]),
            final(self).enr_fork_id == old(self).enr_fork_id,
            final(self).gossip_cache == old(self).gossip_cache,
            final(self).local_metadata == old(self).local_metadata,
            final(self).enr_attnets == old(self).enr_attnets,
            final(self).enr_syncnets == old(self).enr_syncnets,
            final(self).params == old(self).params,
    {
        let ghost s = self.subscriptions@;
        let mut found: Option<usize> = None;
        let mut j: usize = 0;
        while j < self.subscriptions.len()
            invariant
                s == self.subscriptions@,
                j <= s.len(),
                found.is_none() ==> forall|k: int| 0 <= k < j ==> s[k] != topic,
                found.is_some() ==> found.unwrap() < j && s[found.unwrap() as int] == topic,
            decreases s.len() - j,
        {
            if found.is_none() && self.subscriptions[j] == topic {
                found = Some(j);
            }
            j = j + 1;
        }
        if let Some(i) = found {
            self.subscriptions.remove(i);
            proof {
                let n = self.subscriptions@;
                assert(n =~= s.remove(i as int));
                assert forall|x: GossipTopic| #[trigger] n.contains(x) <==> (s.contains(x) && x != topic) by {
                    if n.contains(x) {
                        let k = choose|k: int| 0 <= k < n.len() && n[k] == x;
                        if k < i {
                            assert(s[k] == x);
                        } else {
                            assert(s[k + 1] == x);
                        }
                    }
                    if s.contains(x) && x != topic {
                        let k = choose|k: int| 0 <= k < s.len() && s[k] == x;
                        if k < i {
                            assert(n[k] == x);
                        } else {
                            assert(k != i);
                            assert(n[k - 1] == x);
                        }
                    }
                }
                assert(n.to_set() =~= s.to_set().remove(topic));
                assert(n.no_duplicates()) by {
                    assert forall|a: int, b: int| 0 <= a < b < n.len() implies n[a] != n[b] by {
                        let a2 = if a < i { a } else { a + 1 };
                        let b2 = if b < i { b } else { b + 1 };
                        assert(n[a] == s[a2] && n[b] == s[b2]);
                    }
                }
            }
        } else {
            assert(!s.contains(topic));
            assert(self.subscriptions@.to_set() =~= s.to_set().remove(topic));
        }
        self.emit(Command::GossipUnsubscribe(topic));
    }

    /// Subscribes to `kind` at the current fork digest.
    pub fn subscribe_kind(&mut self, kind: GossipKind)
        requires
            old(self).wf(),
        ensures
            final(self).wf(),
            final(self).subscription_set() == old(self).subscription_set().insert(
                topic_at(kind, old(self).digest()),
            ),
            Network::issued_after(
                old(self),
                final(self),
                seq![Command::GossipSubscribe(topic_at(kind, old(self).digest()))],
            ),
            final(self).enr_fork_id == old(self).enr_fork_id,
            final(self).gossip_cache == old(self).gossip_cache,
            final(self).local_metadata == old(self).local_metadata,
            final(self).enr_attnets == old(self).enr_attnets,
            final(self).enr_syncnets == old(self).enr_syncnets,
            final(self).params == old(self).params,
    {
        let topic = GossipTopic::new(kind, GossipEncoding::SszSnappy, self.enr_fork_id.fork_digest);
        self.subscribe(topic);
    }

    /// Unsubscribes from `kind` at the current fork digest.
    pub fn unsubscribe_kind(&mut self, kind: GossipKind)
        requires
            old(self).wf(),
        ensures
            final(self).wf(),
            final(self).subscription_set() == old(self).subscription_set().remove(
                topic_at(kind, old(self).digest()),
            ),
            Network::issued_after(
                old(self),
                final(self),
                seq![Command::GossipUnsubscribe(topic_at(kind, old(self).digest()))],
            ),
            final(self).enr_fork_id == old(self).enr_fork_id,
            final(self).gossip_cache == old(self).gossip_cache,
            final(self).local_metadata == old(self).local_metadata,
            final(self).enr_attnets == old(self).enr_attnets,
            final(self).enr_syncnets == old(self).enr_syncnets,
            final(self).params == old(self).params,
    {
        let topic = GossipTopic::new(kind, GossipEncoding::SszSnappy, self.enr_fork_id.fork_digest);
        self.unsubscribe(topic);
    }
}

} // verus!
