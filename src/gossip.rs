use vstd::prelude::*;

use crate::command::Command;
use crate::event::NetworkEvent;
use crate::gossip_cache::{live_payloads, spec_insert, without_topic};
use crate::network::{topic_at, Network};
use crate::types::{
    GoodbyeReason, GossipEncoding, GossipKind, GossipTopic, MessageAcceptance, PeerAction, PeerId,
    ReportSource,
};

verus! {

broadcast use vstd::seq_lib::group_seq_properties;

/// Counts of messages a slow peer could not take during a heartbeat.
#[derive(Clone, Copy, Debug, PartialEq, Eq, Hash, Structural)]
pub struct FailedMessages {
    pub publish: u64,
    pub forward: u64,
    pub priority: u64,
    pub non_priority: u64,
    pub timeout: u64,
}

/// An event of the gossip layer. A topic the layer names that is no known
/// gossip topic is `None`.
#[derive(Debug, PartialEq, Eq)]
pub enum GossipEvent {
    /// A message arrived from `propagation_source`; `decodes` is whether its
    /// payload decodes as a consensus message of its topic.
    Message {
        propagation_source: PeerId,
        message_id: Vec<u8>,
        topic: GossipTopic,
        data: Vec<u8>,
        decodes: bool,
    },
    Subscribed { peer_id: PeerId, topic: Option<GossipTopic> },
    Unsubscribed { peer_id: PeerId, topic: Option<GossipTopic> },
    GossipsubNotSupported { peer_id: PeerId },
    SlowPeer { peer_id: PeerId, failed_messages: FailedMessages },
}

/// Why the gossip layer did not publish a message.
#[derive(Clone, Copy, Debug, PartialEq, Eq, Hash, Structural)]
pub enum PublishError {
    Duplicate,
    SigningError,
    InsufficientPeers,
    MessageTooLarge,
    TransformFailed,
    AllQueuesFull,
}

/// A message to publish: the kinds of the topics it goes on, and its
/// encoding, made once for all of them.
#[derive(Clone, Debug, PartialEq, Eq)]
pub struct OutboundMessage {
    pub kinds: Vec<GossipKind>,
    pub data: Vec<u8>,
}

/// What a verdict of the application leads to: a count against the peer's
/// client for an ignored or rejected message, then the verdict itself.
pub open spec fn validation_cmds(source: PeerId, message_id: Vec<u8>, acceptance: MessageAcceptance) -> Seq<Command> {
    let report = Command::GossipReportValidation { message_id, source, acceptance };
    if acceptance == MessageAcceptance::Accept {
        seq![report]
    } else {
        seq![Command::CountUnacceptedMessage { peer_id: source, acceptance }, report]
    }
}

/// The counts a publish outcome adds: a failed first attempt counts against
/// its topic kind; a retry counts as a late publish that succeeded or not.
pub open spec fn publish_result_cmds(kind: GossipKind, retry: bool, result: Result<(), PublishError>) -> Seq<Command> {
    if retry {
        seq![Command::CountLatePublish { kind, success: result is Ok }]
    } else if result is Err {
        seq![Command::CountFailedPublish(kind)]
    } else {
        Seq::empty()
    }
}

/// Why the gossip layer refused a subscription change.
#[derive(Clone, Copy, Debug, PartialEq, Eq, Hash, Structural)]
pub enum SubscriptionError {
    /// The subscription could not be sent to peers.
    PublishError(PublishError),
    /// The subscription filter does not allow the topic.
    NotAllowed,
}

/// Whether a subscription succeeded, from the gossip layer's answer.
pub fn subscribe_succeeded(answer: Result<bool, SubscriptionError>) -> (r: bool)
    ensures
        r == answer is Ok,
{
    answer.is_ok()
}

/// Whether an unsubscription took effect, from the gossip layer's answer:
/// only when it was subscribed.
pub fn unsubscribe_succeeded(answer: Result<bool, SubscriptionError>) -> (r: bool)
    ensures
        r == (answer == Ok::<bool, SubscriptionError>(true)),
{
    match answer {
        Ok(v) => v,
        Err(_) => false,
    }
}

/// `c` publishes `data` on `topic`.
pub open spec fn is_publish_of(c: Command, topic: GossipTopic, data: Seq<u8>, retry: bool) -> bool {
    match c {
        Command::GossipPublish { topic: t, data: d, retry: r } => t == topic && d@ == data && r == retry,
        _ => false,
    }
}

/// `cmds` publishes the entries of `plan`, one command each, in order.
pub open spec fn publishes(cmds: Seq<Command>, plan: Seq<(GossipTopic, Seq<u8>)>, retry: bool) -> bool {
    &&& cmds.len() == plan.len()
    &&& forall|i: int| 0 <= i < cmds.len() ==> is_publish_of(#[trigger] cmds[i], plan[i].0, plan[i].1, retry)
}

/// The commands `new` issued after those of `old`.
pub open spec fn new_commands(old: &Network, new: &Network) -> Seq<Command> {
    new.commands@.subrange(old.commands@.len() as int, new.commands@.len() as int)
}

/// What publishing one message asks: its payload on each of its topics at `digest`.
pub open spec fn message_plan(m: OutboundMessage, digest: [u8; 4]) -> Seq<(GossipTopic, Seq<u8>)> {
    m.kinds@.map_values(|k: GossipKind| (topic_at(k, digest), m.data@))
}

/// What publishing a list of messages asks, message after message.
pub open spec fn publish_plan(ms: Seq<OutboundMessage>, digest: [u8; 4]) -> Seq<(GossipTopic, Seq<u8>)>
    decreases ms.len(),
{
    if ms.len() == 0 {
        Seq::empty()
    } else {
        publish_plan(ms.drop_last(), digest) + message_plan(ms.last(), digest)
    }
}

/// The retries of the cached payloads on `topic`.
pub open spec fn retry_plan(payloads: Seq<Seq<u8>>, topic: GossipTopic) -> Seq<(GossipTopic, Seq<u8>)> {
    payloads.map_values(|p: Seq<u8>| (topic, p))
}

/// The report a slow peer earns: a high-tolerance error for more than ten
/// timeouts, else for more than ten messages dropped on full queues.
pub open spec fn slow_peer_report(peer_id: PeerId, f: FailedMessages) -> Seq<Command> {
    if f.timeout > 10 {
        seq![Command::PeerManagerReport {
            peer_id,
            action: PeerAction::HighToleranceError,
            source: ReportSource::Gossipsub,
            goodbye: None,
            msg: "publish_timeout_penalty",
        }]
    } else if f.priority + f.non_priority > 10 {
        seq![Command::PeerManagerReport {
            peer_id,
            action: PeerAction::HighToleranceError,
            source: ReportSource::Gossipsub,
            goodbye: None,
            msg: "queue_full_penalty",
        }]
    } else {
        Seq::empty()
    }
}

/// What handling a gossip event at `now` does: the event surfaced, the
/// commands issued and what becomes of the retry cache.
pub open spec fn gs_event_post(old: &Network, event: GossipEvent, now: u64, new: &Network, r: Option<NetworkEvent>) -> bool {
    match event {
        GossipEvent::Message { propagation_source, message_id, topic, data, decodes } => {
            &&& new.gossip_cache == old.gossip_cache
            &&& decodes ==> r == Some(NetworkEvent::PubsubMessage { id: message_id, source: propagation_source, topic, message: data })
                && Network::issued_after(old, new, Seq::empty())
            &&& !decodes ==> r.is_none() && Network::issued_after(old, new, seq![Command::GossipReportValidation {
                message_id,
                source: propagation_source,
                acceptance: MessageAcceptance::Reject,
            }])
        },
        GossipEvent::Subscribed { peer_id, topic: Some(topic) } => {
            let pre = match topic.spec_subnet_id() {
                Some(s) => seq![Command::PeersAddSubscription { peer_id, subnet: s }],
                None => Seq::empty(),
            };
            let rest = new_commands(old, new).skip(pre.len() as int);
            &&& r.is_none()
            &&& new.gossip_cache@ == without_topic(old.gossip_cache@, topic)
            &&& Network::issued_after(old, new, pre + rest)
            &&& publishes(rest, retry_plan(live_payloads(old.gossip_cache@, topic, now), topic), true)
        },
        GossipEvent::Subscribed { peer_id: _, topic: None } => {
            &&& r.is_none()
            &&& new.gossip_cache == old.gossip_cache
            &&& Network::issued_after(old, new, Seq::empty())
        },
        GossipEvent::Unsubscribed { peer_id, topic } => {
            &&& r.is_none()
            &&& new.gossip_cache == old.gossip_cache
            &&& Network::issued_after(old, new, match topic {
                Some(t) => match t.spec_subnet_id() {
                    Some(s) => seq![Command::PeersRemoveSubscription { peer_id, subnet: s }],
                    None => Seq::empty(),
                },
                None => Seq::empty(),
            })
        },
        GossipEvent::GossipsubNotSupported { peer_id } => {
            &&& r.is_none()
            &&& new.gossip_cache == old.gossip_cache
            &&& Network::issued_after(old, new, seq![Command::PeerManagerReport {
                peer_id,
                action: PeerAction::Fatal,
                source: ReportSource::Gossipsub,
                goodbye: Some(GoodbyeReason::Unknown),
                msg: "does_not_support_gossipsub",
            }])
        },
        GossipEvent::SlowPeer { peer_id, failed_messages } => {
            &&& r.is_none()
            &&& new.gossip_cache == old.gossip_cache
            &&& Network::issued_after(old, new, slow_peer_report(peer_id, failed_messages))
        },
    }
}

/// One more publish command extends what was issued by one entry of the plan.
proof fn lemma_publishes_push(
    o: &Network,
    m: &Network,
    n: &Network,
    plan: Seq<(GossipTopic, Seq<u8>)>,
    c: Command,
    topic: GossipTopic,
    data: Seq<u8>,
    retry: bool,
)
    requires
        Network::issued_after(o, m, new_commands(o, m)),
        publishes(new_commands(o, m), plan, retry),
        Network::issued_after(m, n, seq![c]),
        is_publish_of(c, topic, data, retry),
    ensures
        Network::issued_after(o, n, new_commands(o, n)),
        publishes(new_commands(o, n), plan.push((topic, data)), retry),
        new_commands(o, n) == new_commands(o, m).push(c),
{
    assert(n.commands@ =~= o.commands@ + new_commands(o, m) + seq![c]);
    assert(new_commands(o, n) =~= new_commands(o, m).push(c));
    assert(n.commands@ =~= o.commands@ + new_commands(o, n));
    assert(n.issued@ =~= o.issued@ + new_commands(o, n));
    let cmds = new_commands(o, n);
    let p2 = plan.push((topic, data));
    assert forall|i: int| 0 <= i < cmds.len() implies is_publish_of(#[trigger] cmds[i], p2[i].0, p2[i].1, retry) by {
        if i < plan.len() {
            assert(cmds[i] == new_commands(o, m)[i]);
        }
    }
}

impl Network {
    /// Publishes a payload, marking whether it is a retry.
    fn emit_publish(&mut self, topic: GossipTopic, data: Vec<u8>, retry: bool)
        requires
            old(self).wf(),
        ensures
            final(self).wf(),
            old(self).same_state(final(self)),
            Network::issued_after(old(self), final(self), seq![Command::GossipPublish { topic, data, retry }]),
            is_publish_of(Command::GossipPublish { topic, data, retry }, topic, data@, retry),
    {
        self.emit(Command::GossipPublish { topic, data, retry });
    }

    /// Publishes a list of messages: each on each of its topics at the current
    /// fork digest, in order. What the gossip layer answers goes to
    /// `handle_publish_result`.
    pub fn publish(&mut self, messages: &Vec<OutboundMessage>)
        requires
            old(self).wf(),
        ensures
            final(self).wf(),
            old(self).same_state(final(self)),
            Network::issued_after(old(self), final(self), new_commands(old(self), final(self))),
            publishes(new_commands(old(self), final(self)), publish_plan(messages@, old(self).digest()), false),
    {
        let ghost ms = messages@;
        let ghost d = self.enr_fork_id.fork_digest;
        proof {
            assert(new_commands(self, self) =~= Seq::<Command>::empty());
            self.lemma_nothing_issued();
            assert(ms.take(0) =~= Seq::<OutboundMessage>::empty());
        }
        let mut i: usize = 0;
        while i < messages.len()
            invariant
                self.wf(),
                old(self).same_state(self),
                ms == messages@,
                d == self.enr_fork_id.fork_digest,
                i <= ms.len(),
                Network::issued_after(old(self), self, new_commands(old(self), self)),
                publishes(new_commands(old(self), self), publish_plan(ms.take(i as int), d), false),
            decreases ms.len() - i,
        {
            let m = &messages[i];
            let ghost base = publish_plan(ms.take(i as int), d);
            let ghost mp = message_plan(*m, d);
            let mut j: usize = 0;
            proof {
                assert(mp.take(0) =~= Seq::<(GossipTopic, Seq<u8>)>::empty());
                assert(base + mp.take(0) =~= base);
            }
            while j < m.kinds.len()
                invariant
                    self.wf(),
                    old(self).same_state(self),
                    d == self.enr_fork_id.fork_digest,
                    mp == message_plan(*m, d),
                    j <= m.kinds@.len(),
                    Network::issued_after(old(self), self, new_commands(old(self), self)),
                    publishes(new_commands(old(self), self), base + mp.take(j as int), false),
                decreases m.kinds@.len() - j,
            {
                let topic = GossipTopic::new(m.kinds[j], GossipEncoding::SszSnappy, self.enr_fork_id.fork_digest);
                let data = m.data.clone();
                assert(data@ =~= m.data@);
                let ghost mid = *self;
                self.emit_publish(topic, data, false);
                proof {
                    lemma_publishes_push(old(self), &mid, self, base + mp.take(j as int), Command::GossipPublish { topic, data, retry: false }, topic, m.data@, false);
                    assert((base + mp.take(j as int)).push((topic, m.data@)) =~= base + mp.take(j + 1));
                }
                j = j + 1;
            }
            proof {
                assert(mp.take(j as int) =~= mp);
                assert(ms.take(i + 1).drop_last() =~= ms.take(i as int));
                assert(ms.take(i + 1).last() == ms[i as int]);
            }
            i = i + 1;
        }
        proof {
            assert(ms.take(ms.len() as int) =~= ms);
        }
    }

    /// Takes in what the gossip layer answered to a publish: a first attempt
    /// that failed for want of peers is kept for a retry (if its kind is
    /// retried at all); anything else changes nothing.
    pub fn handle_publish_result(&mut self, topic: GossipTopic, data: Vec<u8>, retry: bool, result: Result<(), PublishError>, now: u64)
        requires
            old(self).wf(),
        ensures
            final(self).wf(),
            Network::issued_after(old(self), final(self), publish_result_cmds(topic.kind, retry, result)),
            final(self).subscriptions == old(self).subscriptions,
            final(self).enr_fork_id == old(self).enr_fork_id,
            final(self).local_metadata == old(self).local_metadata,
            final(self).params == old(self).params,
            final(self).gossip_cache.timeouts == old(self).gossip_cache.timeouts,
            (!retry && result == Err::<(), PublishError>(PublishError::InsufficientPeers)) ==> match old(self).gossip_cache.timeouts.spec_timeout(topic.kind) {
                None => final(self).gossip_cache@ == old(self).gossip_cache@,
                Some(ttl) => final(self).gossip_cache@ == spec_insert(old(self).gossip_cache@, topic, data@, ttl, now),
            },
            !(!retry && result == Err::<(), PublishError>(PublishError::InsufficientPeers)) ==> final(self).gossip_cache@ == old(self).gossip_cache@,
    {
        let kind = topic.kind;
        if retry {
            self.emit(Command::CountLatePublish { kind, success: result.is_ok() });
        } else if result.is_err() {
            self.emit(Command::CountFailedPublish(kind));
        } else {
            proof { self.lemma_nothing_issued(); }
        }
        if !retry {
            if let Err(PublishError::InsufficientPeers) = result {
                self.gossip_cache.insert(topic, data, now);
            }
        }
    }

    /// Publishes the live cached payloads of `topic` again, as retries, and
    /// drops every cached entry of the topic.
    fn retry_cached(&mut self, topic: GossipTopic, now: u64)
        requires
            old(self).wf(),
        ensures
            final(self).wf(),
            final(self).subscriptions == old(self).subscriptions,
            final(self).enr_fork_id == old(self).enr_fork_id,
            final(self).local_metadata == old(self).local_metadata,
            final(self).enr_attnets == old(self).enr_attnets,
            final(self).enr_syncnets == old(self).enr_syncnets,
            final(self).params == old(self).params,
            final(self).local_peer_id == old(self).local_peer_id,
            final(self).gossip_cache.timeouts == old(self).gossip_cache.timeouts,
            final(self).gossip_cache@ == without_topic(old(self).gossip_cache@, topic),
            Network::issued_after(old(self), final(self), new_commands(old(self), final(self))),
            publishes(new_commands(old(self), final(self)), retry_plan(live_payloads(old(self).gossip_cache@, topic, now), topic), true),
    {
        let msgs = self.gossip_cache.retrieve(&topic, now);
        let ghost start = *self;
        let ghost plan = retry_plan(live_payloads(old(self).gossip_cache@, topic, now), topic);
        proof {
            assert(new_commands(old(self), self) =~= Seq::<Command>::empty());
            assert(self.commands@ =~= old(self).commands@ + Seq::<Command>::empty());
            assert(self.issued@ =~= old(self).issued@ + Seq::<Command>::empty());
            assert(plan.take(0) =~= Seq::<(GossipTopic, Seq<u8>)>::empty());
            assert(plan.len() == msgs@.len());
        }
        let mut i: usize = 0;
        while i < msgs.len()
            invariant
                self.wf(),
                start.same_state(self),
                start.gossip_cache == self.gossip_cache,
                start.subscriptions == old(self).subscriptions,
                start.enr_fork_id == old(self).enr_fork_id,
                start.local_metadata == old(self).local_metadata,
                start.enr_attnets == old(self).enr_attnets,
                start.enr_syncnets == old(self).enr_syncnets,
                start.params == old(self).params,
                start.local_peer_id == old(self).local_peer_id,
                start.commands == old(self).commands,
                start.issued == old(self).issued,
                i <= msgs@.len(),
                plan == retry_plan(live_payloads(old(self).gossip_cache@, topic, now), topic),
                plan.len() == msgs@.len(),
                forall|k: int| 0 <= k < msgs@.len() ==> (#[trigger] plan[k]) == (topic, msgs@[k]@),
                Network::issued_after(old(self), self, new_commands(old(self), self)),
                publishes(new_commands(old(self), self), plan.take(i as int), true),
            decreases msgs@.len() - i,
        {
            let data = msgs[i].clone();
            assert(data@ =~= msgs@[i as int]@);
            let ghost mid = *self;
            self.emit_publish(topic, data, true);
            proof {
                lemma_publishes_push(old(self), &mid, self, plan.take(i as int), Command::GossipPublish { topic, data, retry: true }, topic, msgs@[i as int]@, true);
                assert(plan.take(i as int).push((topic, msgs@[i as int]@)) =~= plan.take(i + 1));
            }
            i = i + 1;
        }
        proof {
            assert(plan.take(msgs@.len() as int) =~= plan);
        }
    }

    /// Takes in the application's verdict on a gossip message: an ignored or
    /// rejected message is counted against the client of the peer it came
    /// from, then the verdict goes to the gossip layer.
    pub fn report_message_validation_result(&mut self, propagation_source: PeerId, message_id: Vec<u8>, validation_result: MessageAcceptance)
        requires
            old(self).wf(),
        ensures
            final(self).wf(),
            old(self).same_state(final(self)),
            Network::issued_after(old(self), final(self), validation_cmds(propagation_source, message_id, validation_result)),
    {
        let ghost o = *old(self);
        let ghost id = message_id;
        if validation_result != MessageAcceptance::Accept {
            self.emit(Command::CountUnacceptedMessage { peer_id: propagation_source, acceptance: validation_result });
        } else {
            proof { self.lemma_nothing_issued(); }
        }
        let ghost mid = *self;
        self.emit(Command::GossipReportValidation { message_id, source: propagation_source, acceptance: validation_result });
        proof {
            let cmds = validation_cmds(propagation_source, id, validation_result);
            assert(self.commands@ =~= o.commands@ + cmds);
            assert(self.issued@ =~= o.issued@ + cmds);
        }
    }

    /// Handles an event of the gossip layer at instant `now`.
    pub fn inject_gs_event(&mut self, event: GossipEvent, now: u64) -> (r: Option<NetworkEvent>)
        requires
            old(self).wf(),
        ensures
            final(self).wf(),
            final(self).subscriptions == old(self).subscriptions,
            final(self).enr_fork_id == old(self).enr_fork_id,
            final(self).local_metadata == old(self).local_metadata,
            final(self).params == old(self).params,
            final(self).gossip_cache.timeouts == old(self).gossip_cache.timeouts,
            gs_event_post(old(self), event, now, final(self), r),
    {
        match event {
            GossipEvent::Message { propagation_source, message_id, topic, data, decodes } => {
                if decodes {
                    proof { self.lemma_nothing_issued(); }
                    Some(NetworkEvent::PubsubMessage { id: message_id, source: propagation_source, topic, message: data })
                } else {
                    self.emit(Command::GossipReportValidation { message_id, source: propagation_source, acceptance: MessageAcceptance::Reject });
                    None
                }
            },
            GossipEvent::Subscribed { peer_id, topic: Some(topic) } => {
                let ghost o = *old(self);
                if let Some(subnet) = topic.subnet_id() {
                    self.emit(Command::PeersAddSubscription { peer_id, subnet });
                } else {
                    proof { self.lemma_nothing_issued(); }
                }
                let ghost mid = *self;
                let ghost pre = new_commands(&o, &mid);
                self.retry_cached(topic, now);
                proof {
                    let rest = new_commands(&mid, self);
                    assert(new_commands(&o, self) =~= pre + rest);
                    assert(new_commands(&o, self).skip(pre.len() as int) =~= rest);
                    assert(self.commands@ =~= o.commands@ + (pre + rest));
                    assert(self.issued@ =~= o.issued@ + (pre + rest));
                }
                None
            },
            GossipEvent::Subscribed { peer_id: _, topic: None } => {
                proof { self.lemma_nothing_issued(); }
                None
            },
            GossipEvent::Unsubscribed { peer_id, topic } => {
                match topic {
                    Some(t) => match t.subnet_id() {
                        Some(subnet) => {
                            self.emit(Command::PeersRemoveSubscription { peer_id, subnet });
                        },
                        None => {
                            proof { self.lemma_nothing_issued(); }
                        },
                    },
                    None => {
                        proof { self.lemma_nothing_issued(); }
                    },
                }
                None
            },
            GossipEvent::GossipsubNotSupported { peer_id } => {
                self.emit(Command::PeerManagerReport {
                    peer_id,
                    action: PeerAction::Fatal,
                    source: ReportSource::Gossipsub,
                    goodbye: Some(GoodbyeReason::Unknown),
                    msg: "does_not_support_gossipsub",
                });
                None
            },
            GossipEvent::SlowPeer { peer_id, failed_messages } => {
                if failed_messages.timeout > 10 {
                    self.emit(Command::PeerManagerReport {
                        peer_id,
                        action: PeerAction::HighToleranceError,
                        source: ReportSource::Gossipsub,
                        goodbye: None,
                        msg: "publish_timeout_penalty",
                    });
                } else if failed_messages.priority as u128 + failed_messages.non_priority as u128 > 10 {
                    self.emit(Command::PeerManagerReport {
                        peer_id,
                        action: PeerAction::HighToleranceError,
                        source: ReportSource::Gossipsub,
                        goodbye: None,
                        msg: "queue_full_penalty",
                    });
                } else {
                    proof { self.lemma_nothing_issued(); }
                }
                None
            },
        }
    }
}

} // verus!
