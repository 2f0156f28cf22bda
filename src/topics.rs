use vstd::prelude::*;

use crate::command::{Command, ScoreGroup, TopicParams};
use crate::gossip::new_commands;
use crate::network::{fork_core_kinds, metrics_topics, retarget, topic_at, Network, NetworkParams};
use crate::types::{digest_eq, ForkName, GossipEncoding, GossipKind, GossipTopic};

verus! {

broadcast use vstd::seq_lib::group_seq_properties;

/// Subscribing to each topic of `ts`, in order.
pub open spec fn subscribe_cmds(ts: Seq<GossipTopic>) -> Seq<Command> {
    ts.map_values(|t: GossipTopic| Command::GossipSubscribe(t))
}

/// Unsubscribing from each topic of `ts`, in order.
pub open spec fn unsubscribe_cmds(ts: Seq<GossipTopic>) -> Seq<Command> {
    ts.map_values(|t: GossipTopic| Command::GossipUnsubscribe(t))
}

/// The topics of `ts` moved to `digest`.
pub open spec fn retargeted(ts: Seq<GossipTopic>, digest: [u8; 4]) -> Seq<GossipTopic> {
    ts.map_values(|t: GossipTopic| retarget(t, digest))
}

/// The topics of `kinds` at `digest`.
pub open spec fn topics_of(kinds: Seq<GossipKind>, digest: [u8; 4]) -> Seq<GossipTopic> {
    kinds.map_values(|k: GossipKind| topic_at(k, digest))
}

/// The topics of `ts` scoped to another digest than `except`.
pub open spec fn other_forks(ts: Seq<GossipTopic>, except: [u8; 4]) -> Seq<GossipTopic> {
    ts.filter(|t: GossipTopic| t.fork_digest != except)
}

/// Filtering a sequence extended by one topic.
proof fn lemma_other_forks_push(s: Seq<GossipTopic>, e: GossipTopic, except: [u8; 4])
    ensures
        other_forks(s.push(e), except) == if e.fork_digest != except {
            other_forks(s, except).push(e)
        } else {
            other_forks(s, except)
        },
{
    s.lemma_filter_push(e, |t: GossipTopic| t.fork_digest != except);
}

/// The score parameters applied for a validator count and a slot: blocks,
/// aggregates, then every attestation subnet alike.
pub open spec fn score_param_cmds(params: NetworkParams, digest: [u8; 4], active_validators: u64, current_slot: u64) -> Seq<Command> {
    seq![
        Command::GossipSetTopicParams {
            topic: topic_at(GossipKind::BeaconBlock, digest),
            params: TopicParams::Dynamic { group: ScoreGroup::BeaconBlock, active_validators, current_slot },
        },
        Command::GossipSetTopicParams {
            topic: topic_at(GossipKind::BeaconAggregateAndProof, digest),
            params: TopicParams::Dynamic { group: ScoreGroup::BeaconAggregateAndProof, active_validators, current_slot },
        },
    ] + Seq::new(
        params.attestation_subnet_count as nat,
        |i: int| Command::GossipSetTopicParams {
            topic: topic_at(GossipKind::Attestation(i as u64), digest),
            params: TopicParams::Dynamic { group: ScoreGroup::AttestationSubnet, active_validators, current_slot },
        },
    )
}

/// The topic kinds a fork introduces.
pub fn fork_core_topics(fork: ForkName, params: &NetworkParams) -> (r: Vec<GossipKind>)
    ensures
        r@ == fork_core_kinds(fork, *params),
{
    let mut r: Vec<GossipKind> = Vec::new();
    match fork {
        ForkName::Base => {
            r.push(GossipKind::BeaconBlock);
            r.push(GossipKind::BeaconAggregateAndProof);
            r.push(GossipKind::VoluntaryExit);
            r.push(GossipKind::ProposerSlashing);
            r.push(GossipKind::AttesterSlashing);
            assert(r@ =~= fork_core_kinds(fork, *params));
        },
        ForkName::Altair => {
            r.push(GossipKind::SignedContributionAndProof);
            assert(r@ =~= fork_core_kinds(fork, *params));
        },
        ForkName::Capella => {
            r.push(GossipKind::BlsToExecutionChange);
            assert(r@ =~= fork_core_kinds(fork, *params));
        },
        ForkName::Deneb | ForkName::Electra => {
            let n = if let ForkName::Deneb = fork {
                params.blob_sidecar_subnet_count
            } else {
                params.blob_sidecar_subnet_count_electra
            };
            let mut i: u64 = 0;
            while i < n
                invariant
                    i <= n,
                    r@ == Seq::new(i as nat, |j: int| GossipKind::BlobSidecar(j as u64)),
                decreases n - i,
            {
                r.push(GossipKind::BlobSidecar(i));
                assert(r@ =~= Seq::new((i + 1) as nat, |j: int| GossipKind::BlobSidecar(j as u64)));
                i = i + 1;
            }
        },
        ForkName::Bellatrix | ForkName::Fulu => {
            assert(r@ =~= fork_core_kinds(fork, *params));
        },
    }
    r
}

/// The attestation and sync-committee topics at `digest`.
pub(crate) fn attestation_sync_committee_topics(params: &NetworkParams, digest: [u8; 4]) -> (r: Vec<GossipTopic>)
    ensures
        r@ == metrics_topics(*params, digest),
{
    let mut r: Vec<GossipTopic> = Vec::new();
    let mut i: u64 = 0;
    while i < params.attestation_subnet_count
        invariant
            i <= params.attestation_subnet_count,
            r@ == Seq::new(i as nat, |j: int| topic_at(GossipKind::Attestation(j as u64), digest)),
        decreases params.attestation_subnet_count - i,
    {
        r.push(GossipTopic::new(GossipKind::Attestation(i), GossipEncoding::SszSnappy, digest));
        assert(r@ =~= Seq::new((i + 1) as nat, |j: int| topic_at(GossipKind::Attestation(j as u64), digest)));
        i = i + 1;
    }
    let ghost att = r@;
    let mut k: u64 = 0;
    while k < params.sync_committee_subnet_count
        invariant
            k <= params.sync_committee_subnet_count,
            att == Seq::new(params.attestation_subnet_count as nat, |j: int| topic_at(GossipKind::Attestation(j as u64), digest)),
            r@ == att + Seq::new(k as nat, |j: int| topic_at(GossipKind::SyncCommitteeMessage(j as u64), digest)),
        decreases params.sync_committee_subnet_count - k,
    {
        r.push(GossipTopic::new(GossipKind::SyncCommitteeMessage(k), GossipEncoding::SszSnappy, digest));
        assert(r@ =~= att + Seq::new((k + 1) as nat, |j: int| topic_at(GossipKind::SyncCommitteeMessage(j as u64), digest)));
        k = k + 1;
    }
    r
}

/// A copy of a list of topics.
fn copy_topics(v: &Vec<GossipTopic>) -> (r: Vec<GossipTopic>)
    ensures
        r@ == v@,
{
    let mut r: Vec<GossipTopic> = Vec::new();
    let mut i: usize = 0;
    while i < v.len()
        invariant
            i <= v@.len(),
            r@ == v@.take(i as int),
        decreases v@.len() - i,
    {
        r.push(v[i]);
        assert(r@ =~= v@.take(i + 1));
        i = i + 1;
    }
    assert(v@.take(v@.len() as int) =~= v@);
    r
}

/// The topics of `v` moved to `digest`.
fn retarget_topics(v: &Vec<GossipTopic>, digest: [u8; 4]) -> (r: Vec<GossipTopic>)
    ensures
        r@ == retargeted(v@, digest),
{
    let mut moved: Vec<GossipTopic> = copy_topics(v);
    let mut i: usize = 0;
    let ghost snap = moved@;
    while i < moved.len()
        invariant
            snap == v@,
            i <= moved@.len(),
            moved@.len() == snap.len(),
            forall|j: int| 0 <= j < i ==> moved@[j] == retarget(snap[j], digest),
            forall|j: int| i <= j < moved@.len() ==> moved@[j] == snap[j],
        decreases moved@.len() - i,
    {
        let t = moved[i];
        moved.set(i, GossipTopic { kind: t.kind, encoding: t.encoding, fork_digest: digest });
        i = i + 1;
    }
    assert(moved@ =~= retargeted(v@, digest));
    moved
}

/// The topics of `kinds` at `digest`.
fn topics_at(kinds: &Vec<GossipKind>, digest: [u8; 4]) -> (r: Vec<GossipTopic>)
    ensures
        r@ == topics_of(kinds@, digest),
{
    let mut core: Vec<GossipTopic> = Vec::new();
    let mut k: usize = 0;
    while k < kinds.len()
        invariant
            k <= kinds@.len(),
            core@ == topics_of(kinds@.take(k as int), digest),
        decreases kinds@.len() - k,
    {
        core.push(GossipTopic::new(kinds[k], GossipEncoding::SszSnappy, digest));
        assert(kinds@.take(k + 1) =~= kinds@.take(k as int).push(kinds@[k as int]));
        assert(core@ =~= topics_of(kinds@.take(k + 1), digest));
        k = k + 1;
    }
    assert(kinds@.take(kinds@.len() as int) =~= kinds@);
    core
}

impl Network {
    /// Subscribes to each topic of `ts` in turn.
    fn subscribe_all(&mut self, ts: &Vec<GossipTopic>)
        requires
            old(self).wf(),
        ensures
            final(self).wf(),
            final(self).subscription_set() == old(self).subscription_set() + ts@.to_set(),
            Network::issued_after(old(self), final(self), subscribe_cmds(ts@)),
            final(self).enr_fork_id == old(self).enr_fork_id,
            final(self).gossip_cache == old(self).gossip_cache,
            final(self).local_metadata == old(self).local_metadata,
            final(self).enr_attnets == old(self).enr_attnets,
            final(self).enr_syncnets == old(self).enr_syncnets,
            final(self).params == old(self).params,
    {
        let mut i: usize = 0;
        proof {
            assert(ts@.take(0).to_set() =~= Set::<GossipTopic>::empty());
            assert(old(self).subscription_set() + Set::<GossipTopic>::empty() =~= old(self).subscription_set());
            assert(subscribe_cmds(ts@.take(0)) =~= Seq::<Command>::empty());
            self.lemma_nothing_issued();
        }
        while i < ts.len()
            invariant
                self.wf(),
                i <= ts@.len(),
                self.subscription_set() == old(self).subscription_set() + ts@.take(i as int).to_set(),
                Network::issued_after(old(self), self, subscribe_cmds(ts@.take(i as int))),
                self.enr_fork_id == old(self).enr_fork_id,
                self.gossip_cache == old(self).gossip_cache,
                self.local_metadata == old(self).local_metadata,
                self.enr_attnets == old(self).enr_attnets,
                self.enr_syncnets == old(self).enr_syncnets,
                self.params == old(self).params,
            decreases ts@.len() - i,
        {
            let t = ts[i];
            self.subscribe(t);
            proof {
                assert(ts@.take(i + 1) =~= ts@.take(i as int).push(t));
                ts@.take(i as int).lemma_push_to_set_commute(t);
                assert(self.subscription_set() =~= old(self).subscription_set() + ts@.take(i + 1).to_set());
                assert(subscribe_cmds(ts@.take(i + 1)) =~= subscribe_cmds(ts@.take(i as int)).push(Command::GossipSubscribe(t)));
                assert(self.commands@ =~= old(self).commands@ + subscribe_cmds(ts@.take(i + 1)));
                assert(self.issued@ =~= old(self).issued@ + subscribe_cmds(ts@.take(i + 1)));
            }
            i = i + 1;
        }
        assert(ts@.take(ts@.len() as int) =~= ts@);
    }

    /// Subscribes to what a fork at `new_fork_digest` needs: every current
    /// topic again at the new digest (the old ones stay), then the kinds the
    /// fork introduces; the new digest's attestation and sync-committee
    /// topics are registered for metrics.
    pub fn subscribe_new_fork_topics(&mut self, new_fork: ForkName, new_fork_digest: [u8; 4])
        requires
            old(self).wf(),
        ensures
            final(self).wf(),
            final(self).subscription_set() == old(self).subscription_set()
                + retargeted(old(self).subscriptions@, new_fork_digest).to_set()
                + topics_of(fork_core_kinds(new_fork, old(self).params), new_fork_digest).to_set(),
            Network::issued_after(old(self), final(self), new_commands(old(self), final(self))),
            new_commands(old(self), final(self)).len() == old(self).subscriptions@.len()
                + fork_core_kinds(new_fork, old(self).params).len() + 1,
            new_commands(old(self), final(self)).drop_last() == subscribe_cmds(
                retargeted(old(self).subscriptions@, new_fork_digest) + topics_of(fork_core_kinds(new_fork, old(self).params), new_fork_digest),
            ),
            match new_commands(old(self), final(self)).last() {
                Command::GossipRegisterMetricsTopics(v) => v@ == metrics_topics(old(self).params, new_fork_digest),
                _ => false,
            },
            final(self).enr_fork_id == old(self).enr_fork_id,
            final(self).gossip_cache == old(self).gossip_cache,
            final(self).local_metadata == old(self).local_metadata,
            final(self).params == old(self).params,
    {
        let ghost o = *old(self);
        let moved = retarget_topics(&self.subscriptions, new_fork_digest);
        let kinds = fork_core_topics(new_fork, &self.params);
        let core = topics_at(&kinds, new_fork_digest);
        self.subscribe_all(&moved);
        self.subscribe_all(&core);
        let metrics = attestation_sync_committee_topics(&self.params, new_fork_digest);
        let ghost mv = metrics;
        self.emit(Command::GossipRegisterMetricsTopics(metrics));
        proof {
            let subs = subscribe_cmds(moved@) + subscribe_cmds(core@);
            assert(subscribe_cmds(moved@ + core@) =~= subs);
            let all = subs.push(Command::GossipRegisterMetricsTopics(mv));
            assert(self.commands@ =~= o.commands@ + all);
            assert(self.issued@ =~= o.issued@ + all);
            assert(new_commands(&o, self) =~= all);
            assert(all.drop_last() =~= subs);
            assert(self.subscription_set() =~= o.subscription_set() + moved@.to_set() + core@.to_set());
        }
    }

    /// Unsubscribes from every topic whose digest is not `except`.
    pub fn unsubscribe_from_fork_topics_except(&mut self, except: [u8; 4])
        requires
            old(self).wf(),
        ensures
            final(self).wf(),
            final(self).subscription_set() == old(self).subscription_set().filter(|t: GossipTopic| t.fork_digest == except),
            Network::issued_after(old(self), final(self), unsubscribe_cmds(other_forks(old(self).subscriptions@, except))),
            final(self).enr_fork_id == old(self).enr_fork_id,
            final(self).gossip_cache == old(self).gossip_cache,
            final(self).local_metadata == old(self).local_metadata,
            final(self).params == old(self).params,
    {
        let snap = copy_topics(&self.subscriptions);
        let ghost s = snap@;
        let mut i: usize = 0;
        proof {
            assert(s.take(0) =~= Seq::<GossipTopic>::empty());
            assert(unsubscribe_cmds(other_forks(s.take(0), except)) =~= Seq::<Command>::empty());
            self.lemma_nothing_issued();
        }
        while i < snap.len()
            invariant
                self.wf(),
                s == snap@,
                s == old(self).subscriptions@,
                i <= s.len(),
                self.subscription_set() == old(self).subscription_set().filter(
                    |t: GossipTopic| !(t.fork_digest != except && s.take(i as int).contains(t)),
                ),
                Network::issued_after(old(self), self, unsubscribe_cmds(other_forks(s.take(i as int), except))),
                self.enr_fork_id == old(self).enr_fork_id,
                self.gossip_cache == old(self).gossip_cache,
                self.local_metadata == old(self).local_metadata,
                self.params == old(self).params,
            decreases s.len() - i,
        {
            let t = snap[i];
            proof {
                assert(s.take(i + 1) =~= s.take(i as int).push(t));
                lemma_other_forks_push(s.take(i as int), t, except);
            }
            if !digest_eq(&t.fork_digest, &except) {
                self.unsubscribe(t);
                proof {
                    assert(unsubscribe_cmds(other_forks(s.take(i + 1), except)) =~= unsubscribe_cmds(other_forks(s.take(i as int), except)).push(Command::GossipUnsubscribe(t)));
                    assert(self.commands@ =~= old(self).commands@ + unsubscribe_cmds(other_forks(s.take(i + 1), except)));
                    assert(self.issued@ =~= old(self).issued@ + unsubscribe_cmds(other_forks(s.take(i + 1), except)));
                }
            }
            proof {
                assert(self.subscription_set() =~= old(self).subscription_set().filter(
                    |x: GossipTopic| !(x.fork_digest != except && s.take(i + 1).contains(x)),
                ));
            }
            i = i + 1;
        }
        proof {
            assert(s.take(s.len() as int) =~= s);
            assert(self.subscription_set() =~= old(self).subscription_set().filter(|t: GossipTopic| t.fork_digest == except));
        }
    }

    /// Sets the weight of every subscribed topic whose digest is not `except`
    /// to zero; the topics stay subscribed.
    pub fn remove_topic_weight_except(&mut self, except: [u8; 4])
        requires
            old(self).wf(),
        ensures
            final(self).wf(),
            old(self).same_state(final(self)),
            Network::issued_after(
                old(self),
                final(self),
                other_forks(old(self).subscriptions@, except).map_values(
                    |t: GossipTopic| Command::GossipSetTopicParams { topic: t, params: TopicParams::Unweighted },
                ),
            ),
    {
        let ghost s = self.subscriptions@;
        let ghost f = |t: GossipTopic| Command::GossipSetTopicParams { topic: t, params: TopicParams::Unweighted };
        let mut i: usize = 0;
        proof {
            assert(s.take(0) =~= Seq::<GossipTopic>::empty());
            assert(other_forks(s.take(0), except).map_values(f) =~= Seq::<Command>::empty());
            self.lemma_nothing_issued();
        }
        while i < self.subscriptions.len()
            invariant
                self.wf(),
                old(self).same_state(self),
                s == self.subscriptions@,
                i <= s.len(),
                f == (|t: GossipTopic| Command::GossipSetTopicParams { topic: t, params: TopicParams::Unweighted }),
                Network::issued_after(old(self), self, other_forks(s.take(i as int), except).map_values(f)),
            decreases s.len() - i,
        {
            let t = self.subscriptions[i];
            proof {
                assert(s.take(i + 1) =~= s.take(i as int).push(t));
                lemma_other_forks_push(s.take(i as int), t, except);
            }
            if !digest_eq(&t.fork_digest, &except) {
                self.emit(Command::GossipSetTopicParams { topic: t, params: TopicParams::Unweighted });
                proof {
                    assert(other_forks(s.take(i + 1), except).map_values(f) =~= other_forks(s.take(i as int), except).map_values(f).push(f(t)));
                    assert(self.commands@ =~= old(self).commands@ + other_forks(s.take(i + 1), except).map_values(f));
                    assert(self.issued@ =~= old(self).issued@ + other_forks(s.take(i + 1), except).map_values(f));
                }
            }
            i = i + 1;
        }
        assert(s.take(s.len() as int) =~= s);
    }

    /// Applies the dynamic score parameters for a validator count and a slot
    /// to the block, aggregate and attestation-subnet topics at the current
    /// digest.
    pub fn update_gossipsub_parameters(&mut self, active_validators: u64, current_slot: u64)
        requires
            old(self).wf(),
        ensures
            final(self).wf(),
            old(self).same_state(final(self)),
            Network::issued_after(old(self), final(self), score_param_cmds(old(self).params, old(self).digest(), active_validators, current_slot)),
    {
        let d = self.enr_fork_id.fork_digest;
        let ghost o = *old(self);
        self.emit(Command::GossipSetTopicParams {
            topic: GossipTopic::new(GossipKind::BeaconBlock, GossipEncoding::SszSnappy, d),
            params: TopicParams::Dynamic { group: ScoreGroup::BeaconBlock, active_validators, current_slot },
        });
        self.emit(Command::GossipSetTopicParams {
            topic: GossipTopic::new(GossipKind::BeaconAggregateAndProof, GossipEncoding::SszSnappy, d),
            params: TopicParams::Dynamic { group: ScoreGroup::BeaconAggregateAndProof, active_validators, current_slot },
        });
        let ghost head = seq![
            Command::GossipSetTopicParams {
                topic: topic_at(GossipKind::BeaconBlock, d),
                params: TopicParams::Dynamic { group: ScoreGroup::BeaconBlock, active_validators, current_slot },
            },
            Command::GossipSetTopicParams {
                topic: topic_at(GossipKind::BeaconAggregateAndProof, d),
                params: TopicParams::Dynamic { group: ScoreGroup::BeaconAggregateAndProof, active_validators, current_slot },
            },
        ];
        let ghost g = |j: int| Command::GossipSetTopicParams {
            topic: topic_at(GossipKind::Attestation(j as u64), d),
            params: TopicParams::Dynamic { group: ScoreGroup::AttestationSubnet, active_validators, current_slot },
        };
        proof {
            assert(self.commands@ =~= o.commands@ + (head + Seq::new(0, g)));
            assert(self.issued@ =~= o.issued@ + (head + Seq::new(0, g)));
        }
        let n = self.params.attestation_subnet_count;
        let mut i: u64 = 0;
        while i < n
            invariant
                self.wf(),
                o.same_state(self),
                n == o.params.attestation_subnet_count,
                d == o.enr_fork_id.fork_digest,
                i <= n,
                g == (|j: int| Command::GossipSetTopicParams {
                    topic: topic_at(GossipKind::Attestation(j as u64), d),
                    params: TopicParams::Dynamic { group: ScoreGroup::AttestationSubnet, active_validators, current_slot },
                }),
                Network::issued_after(&o, self, head + Seq::new(i as nat, g)),
            decreases n - i,
        {
            let ghost before = *self;
            self.emit(Command::GossipSetTopicParams {
                topic: GossipTopic::new(GossipKind::Attestation(i), GossipEncoding::SszSnappy, d),
                params: TopicParams::Dynamic { group: ScoreGroup::AttestationSubnet, active_validators, current_slot },
            });
            proof {
                assert(g(i as int) == Command::GossipSetTopicParams {
                    topic: topic_at(GossipKind::Attestation(i), d),
                    params: TopicParams::Dynamic { group: ScoreGroup::AttestationSubnet, active_validators, current_slot },
                });
                assert(self.commands@ == before.commands@.push(g(i as int)));
                assert(head + Seq::new((i + 1) as nat, g) =~= (head + Seq::new(i as nat, g)).push(g(i as int)));
                assert(self.commands@ =~= o.commands@ + (head + Seq::new((i + 1) as nat, g)));
                assert(self.issued@ =~= o.issued@ + (head + Seq::new((i + 1) as nat, g)));
            }
            i = i + 1;
        }
        assert(head + Seq::new(n as nat, g) =~= score_param_cmds(o.params, d, active_validators, current_slot));
    }
}

/// The subnet-indexed topic families.
#[derive(Clone, Copy, Debug, PartialEq, Eq, Hash, Structural)]
pub enum SubnetFamily {
    Attestation,
    SyncCommittee,
    BlobSidecar,
    DataColumnSidecar,
}

/// The topic kind of subnet `i` of a family.
pub open spec fn family_kind(f: SubnetFamily, i: u64) -> GossipKind {
    match f {
        SubnetFamily::Attestation => GossipKind::Attestation(i),
        SubnetFamily::SyncCommittee => GossipKind::SyncCommitteeMessage(i),
        SubnetFamily::BlobSidecar => GossipKind::BlobSidecar(i),
        SubnetFamily::DataColumnSidecar => GossipKind::DataColumnSidecar(i),
    }
}

/// The first `n` subnets of a family.
pub open spec fn family_kinds(f: SubnetFamily, n: u64) -> Seq<GossipKind> {
    Seq::new(n as nat, |i: int| family_kind(f, i as u64))
}

/// The topic kinds a node may subscribe to at any digest: the core and light
/// client kinds of every fork, and each subnet of each family.
pub open spec fn whitelist_kinds(p: NetworkParams) -> Seq<GossipKind> {
    seq![
        GossipKind::BeaconBlock,
        GossipKind::BeaconAggregateAndProof,
        GossipKind::VoluntaryExit,
        GossipKind::ProposerSlashing,
        GossipKind::AttesterSlashing,
        GossipKind::SignedContributionAndProof,
        GossipKind::BlsToExecutionChange,
        GossipKind::LightClientFinalityUpdate,
        GossipKind::LightClientOptimisticUpdate,
    ] + family_kinds(SubnetFamily::Attestation, p.attestation_subnet_count)
        + family_kinds(SubnetFamily::SyncCommittee, p.sync_committee_subnet_count)
        + family_kinds(SubnetFamily::BlobSidecar, p.blob_sidecar_subnet_count)
        + family_kinds(SubnetFamily::DataColumnSidecar, p.data_column_sidecar_subnet_count)
}

/// The whitelisted topics: every whitelisted kind at every known digest.
pub open spec fn whitelist(digests: Seq<[u8; 4]>, p: NetworkParams) -> Seq<GossipTopic>
    decreases digests.len(),
{
    if digests.len() == 0 {
        Seq::empty()
    } else {
        whitelist(digests.drop_last(), p) + topics_of(whitelist_kinds(p), digests.last())
    }
}

/// The number of distinct topics of one digest: the subnets of every family,
/// five base, one Altair, one Capella and two light-client kinds.
pub open spec fn max_topics(p: NetworkParams) -> int {
    p.attestation_subnet_count + p.sync_committee_subnet_count + p.blob_sidecar_subnet_count
        + p.data_column_sidecar_subnet_count + 5 + 1 + 1 + 2
}

/// Appends the first `n` subnets of a family.
fn push_family(v: &mut Vec<GossipKind>, f: SubnetFamily, n: u64)
    ensures
        final(v)@ == old(v)@ + family_kinds(f, n),
{
    let mut i: u64 = 0;
    while i < n
        invariant
            i <= n,
            v@ == old(v)@ + family_kinds(f, i),
        decreases n - i,
    {
        let k = match f {
            SubnetFamily::Attestation => GossipKind::Attestation(i),
            SubnetFamily::SyncCommittee => GossipKind::SyncCommitteeMessage(i),
            SubnetFamily::BlobSidecar => GossipKind::BlobSidecar(i),
            SubnetFamily::DataColumnSidecar => GossipKind::DataColumnSidecar(i),
        };
        v.push(k);
        assert(v@ =~= old(v)@ + family_kinds(f, (i + 1) as u64));
        i = i + 1;
    }
}

/// The topic kinds a node may subscribe to at any digest.
pub fn subscription_whitelist_kinds(p: &NetworkParams) -> (r: Vec<GossipKind>)
    ensures
        r@ == whitelist_kinds(*p),
{
    let mut r: Vec<GossipKind> = Vec::new();
    r.push(GossipKind::BeaconBlock);
    r.push(GossipKind::BeaconAggregateAndProof);
    r.push(GossipKind::VoluntaryExit);
    r.push(GossipKind::ProposerSlashing);
    r.push(GossipKind::AttesterSlashing);
    r.push(GossipKind::SignedContributionAndProof);
    r.push(GossipKind::BlsToExecutionChange);
    r.push(GossipKind::LightClientFinalityUpdate);
    r.push(GossipKind::LightClientOptimisticUpdate);
    push_family(&mut r, SubnetFamily::Attestation, p.attestation_subnet_count);
    push_family(&mut r, SubnetFamily::SyncCommittee, p.sync_committee_subnet_count);
    push_family(&mut r, SubnetFamily::BlobSidecar, p.blob_sidecar_subnet_count);
    push_family(&mut r, SubnetFamily::DataColumnSidecar, p.data_column_sidecar_subnet_count);
    assert(r@ =~= whitelist_kinds(*p));
    r
}

/// The topics the subscription filter lets through: every whitelisted kind at
/// each fork digest the chain knows.
pub fn subscription_whitelist(p: &NetworkParams, digests: &Vec<[u8; 4]>) -> (r: Vec<GossipTopic>)
    ensures
        r@ == whitelist(digests@, *p),
{
    let kinds = subscription_whitelist_kinds(p);
    let mut r: Vec<GossipTopic> = Vec::new();
    let mut i: usize = 0;
    assert(digests@.take(0) =~= Seq::<[u8; 4]>::empty());
    while i < digests.len()
        invariant
            kinds@ == whitelist_kinds(*p),
            i <= digests@.len(),
            r@ == whitelist(digests@.take(i as int), *p),
        decreases digests@.len() - i,
    {
        let d = digests[i];
        let ghost base = r@;
        let mut j: usize = 0;
        assert(topics_of(kinds@, d).take(0) =~= Seq::<GossipTopic>::empty());
        while j < kinds.len()
            invariant
                kinds@ == whitelist_kinds(*p),
                j <= kinds@.len(),
                r@ == base + topics_of(kinds@, d).take(j as int),
            decreases kinds@.len() - j,
        {
            r.push(GossipTopic::new(kinds[j], GossipEncoding::SszSnappy, d));
            assert(r@ =~= base + topics_of(kinds@, d).take(j + 1));
            j = j + 1;
        }
        proof {
            assert(topics_of(kinds@, d).take(kinds@.len() as int) =~= topics_of(kinds@, d));
            assert(digests@.take(i + 1).drop_last() =~= digests@.take(i as int));
            assert(digests@.take(i + 1).last() == d);
        }
        i = i + 1;
    }
    assert(digests@.take(digests@.len() as int) =~= digests@);
    r
}

/// The subscription bounds of the gossip layer: at most four times the
/// topics of one digest subscribed at once (old and new topics live side by
/// side across a fork), and twice as many per subscription request.
pub fn subscription_limits(p: &NetworkParams) -> (r: (u64, u64))
    requires
        max_topics(*p) * 4 <= u64::MAX,
    ensures
        r.0 == max_topics(*p) * 4,
        r.1 == max_topics(*p) * 2,
{
    let n = p.attestation_subnet_count + p.sync_committee_subnet_count + p.blob_sidecar_subnet_count
        + p.data_column_sidecar_subnet_count + 5 + 1 + 1 + 2;
    (n * 4, n * 2)
}

} // verus!
