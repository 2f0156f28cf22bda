use vstd::prelude::*;

use crate::command::{Command, DiscoveredPeer, IdentifyInfo};
use crate::event::NetworkEvent;
use crate::gossip::{gs_event_post, GossipEvent};
use crate::gossip_cache::{expired_topics, live_entries, CachedMessage};
use crate::network::{Network, MAX_IDENTIFY_ADDRESSES};
use crate::peers::{pm_event_post, PeerManagerEvent};
use crate::rpc::RPCMessage;
use crate::rpc_handler::rpc_event_effects;
use crate::types::{AddrProtocol, GossipTopic, Multiaddr, PeerId};

verus! {

broadcast use vstd::seq_lib::group_seq_properties;

/// An event of the identify protocol.
#[derive(Debug, PartialEq, Eq)]
pub enum IdentifyEvent {
    Received { peer_id: PeerId, info: IdentifyInfo },
    Sent { peer_id: PeerId },
    Pushed { peer_id: PeerId },
    Error { peer_id: PeerId },
}

/// An event of the port-mapping protocol.
#[derive(Debug, PartialEq, Eq)]
pub enum UpnpEvent {
    NewExternalAddr(Multiaddr),
    ExpiredExternalAddr(Multiaddr),
    GatewayNotFound,
    NonRoutableGateway,
}

/// An event of one of the sub-behaviours. An RPC event carries whether the
/// peer manager holds its peer as connected.
#[derive(Debug, PartialEq, Eq)]
pub enum BehaviourEvent {
    Gossipsub(GossipEvent),
    Eth2Rpc { message: RPCMessage, peer_connected: bool },
    Discovery(Vec<DiscoveredPeer>),
    Identify(IdentifyEvent),
    PeerManager(PeerManagerEvent),
    Upnp(UpnpEvent),
}

/// An event of the swarm. A closed listener carries how many listeners are left.
#[derive(Debug, PartialEq, Eq)]
pub enum SwarmEvent {
    Behaviour(BehaviourEvent),
    ConnectionEstablished { peer_id: PeerId },
    ConnectionClosed { peer_id: PeerId },
    IncomingConnection,
    IncomingConnectionError,
    OutgoingConnectionError,
    NewListenAddr(Multiaddr),
    ExpiredListenAddr(Multiaddr),
    ListenerClosed { remaining_listeners: u64 },
    ListenerError,
}

/// The listen addresses a peer reported, cut to the first ten.
pub open spec fn truncated_addrs(addrs: Seq<Multiaddr>) -> Seq<Multiaddr> {
    if addrs.len() > MAX_IDENTIFY_ADDRESSES {
        addrs.take(MAX_IDENTIFY_ADDRESSES as int)
    } else {
        addrs
    }
}

/// `c` hands the peer manager `info` with its listen addresses cut to ten.
pub open spec fn is_identify_of(c: Command, peer_id: PeerId, info: IdentifyInfo) -> bool {
    match c {
        Command::PeerManagerIdentify { peer_id: p, info: i } => {
            &&& p == peer_id
            &&& i.listen_addrs@ == truncated_addrs(info.listen_addrs@)
            &&& i.public_key == info.public_key
            &&& i.protocol_version == info.protocol_version
            &&& i.agent_version == info.agent_version
            &&& i.protocols == info.protocols
            &&& i.observed_addr == info.observed_addr
        },
        _ => false,
    }
}

/// What an address mapped by the gateway changes in the local record: the
/// QUIC port for `ip/udp/quic-v1`, the TCP port for `ip/tcp`.
pub open spec fn upnp_cmds(addr: Seq<AddrProtocol>) -> Seq<Command> {
    let ip6 = addr.len() > 0 && addr[0] is Ip6;
    if addr.len() >= 3 && addr[1] is Udp && addr[2] is QuicV1 {
        seq![Command::DiscoveryUpdateEnrQuicPort { port: addr[1]->Udp_0, ip6 }]
    } else if addr.len() >= 2 && addr[1] is Tcp {
        seq![Command::DiscoveryUpdateEnrTcpPort { port: addr[1]->Tcp_0, ip6 }]
    } else {
        Seq::empty()
    }
}

/// What handling a swarm event at `now` does.
pub open spec fn swarm_event_post(old: &Network, ev: SwarmEvent, now: u64, new: &Network, r: Option<NetworkEvent>) -> bool {
    match ev {
        SwarmEvent::Behaviour(BehaviourEvent::Gossipsub(e)) => gs_event_post(old, e, now, new, r),
        SwarmEvent::Behaviour(BehaviourEvent::Eth2Rpc { message, peer_connected }) => {
            &&& old.same_state(new)
            &&& Network::issued_after(old, new, rpc_event_effects(message, peer_connected, old.local_metadata).0)
            &&& r == rpc_event_effects(message, peer_connected, old.local_metadata).1
        },
        SwarmEvent::Behaviour(BehaviourEvent::Discovery(peers)) => {
            &&& old.same_state(new)
            &&& Network::issued_after(old, new, seq![Command::PeerManagerPeersDiscovered(peers)])
            &&& r.is_none()
        },
        SwarmEvent::Behaviour(BehaviourEvent::Identify(IdentifyEvent::Received { peer_id, info })) => {
            &&& old.same_state(new)
            &&& new.commands@.len() == old.commands@.len() + 1
            &&& Network::issued_after(old, new, seq![new.commands@.last()])
            &&& is_identify_of(new.commands@.last(), peer_id, info)
            &&& r.is_none()
        },
        SwarmEvent::Behaviour(BehaviourEvent::Identify(_)) => {
            &&& old.same_state(new)
            &&& Network::issued_after(old, new, Seq::empty())
            &&& r.is_none()
        },
        SwarmEvent::Behaviour(BehaviourEvent::PeerManager(e)) => {
            &&& old.same_state(new)
            &&& pm_event_post(old, e, new, r)
        },
        SwarmEvent::Behaviour(BehaviourEvent::Upnp(UpnpEvent::NewExternalAddr(a))) => {
            &&& old.same_state(new)
            &&& Network::issued_after(old, new, upnp_cmds(a.protocols@))
            &&& r.is_none()
        },
        SwarmEvent::NewListenAddr(a) => {
            &&& old.same_state(new)
            &&& Network::issued_after(old, new, Seq::empty())
            &&& r == Some(NetworkEvent::NewListenAddr(a))
        },
        SwarmEvent::ListenerClosed { remaining_listeners } => {
            &&& old.same_state(new)
            &&& Network::issued_after(old, new, Seq::empty())
            &&& r == if remaining_listeners == 0 { Some(NetworkEvent::ZeroListeners) } else { None }
        },
        _ => {
            &&& old.same_state(new)
            &&& Network::issued_after(old, new, Seq::empty())
            &&& r.is_none()
        },
    }
}

/// Handling `events[k]` takes `states[k]` to `states[k + 1]` and surfaces
/// nothing, for each step of the run.
pub open spec fn silent_run(start: Network, events: Seq<SwarmEvent>, now: u64, states: Seq<Network>) -> bool {
    &&& states.len() >= 1
    &&& states.len() - 1 <= events.len()
    &&& states[0] == start
    &&& forall|k: int| 0 <= k < states.len() - 1 ==> swarm_event_post(&states[k], #[trigger] events[k], now, &states[k + 1], None)
}

/// The upkeep after the swarm is drained: a score update per elapsed tick,
/// and the retry cache cleared of what has expired at `now`.
pub open spec fn maintenance(drained: &Network, ticks: u64, now: u64, new: &Network) -> bool {
    &&& new.commands@ == drained.commands@ + score_updates(ticks as nat) + expired_counts(drained.gossip_cache@, now)
    &&& new.issued@ == drained.issued@ + score_updates(ticks as nat) + expired_counts(drained.gossip_cache@, now)
    &&& new.gossip_cache@ == live_entries(drained.gossip_cache@, now)
    &&& new.gossip_cache.timeouts == drained.gossip_cache.timeouts
    &&& new.subscriptions == drained.subscriptions
    &&& new.enr_fork_id == drained.enr_fork_id
    &&& new.local_metadata == drained.local_metadata
    &&& new.enr_attnets == drained.enr_attnets
    &&& new.enr_syncnets == drained.enr_syncnets
    &&& new.params == drained.params
}

/// A count of an expired late publish for each cached entry expired at `now`.
pub open spec fn expired_counts(cache: Seq<CachedMessage>, now: u64) -> Seq<Command> {
    expired_topics(cache, now).map_values(|t: GossipTopic| Command::CountExpiredLatePublish(t.kind))
}

/// `n` ticks of the score timer: one score update each.
pub open spec fn score_updates(n: nat) -> Seq<Command> {
    Seq::new(n, |i: int| Command::PeerManagerUpdateGossipsubScores)
}

impl Network {
    /// Hands what a peer reported about itself to the peer manager, with its
    /// listen addresses cut to the first ten.
    pub fn inject_identify_event(&mut self, event: IdentifyEvent) -> (r: Option<NetworkEvent>)
        requires
            old(self).wf(),
        ensures
            final(self).wf(),
            r.is_none(),
            swarm_event_post(old(self), SwarmEvent::Behaviour(BehaviourEvent::Identify(event)), 0, final(self), r),
    {
        match event {
            IdentifyEvent::Received { peer_id, info } => {
                let mut info = info;
                if info.listen_addrs.len() > MAX_IDENTIFY_ADDRESSES {
                    info.listen_addrs.truncate(MAX_IDENTIFY_ADDRESSES);
                }
                let ghost sent = info;
                self.emit(Command::PeerManagerIdentify { peer_id, info });
                assert(self.commands@.last() == Command::PeerManagerIdentify { peer_id, info: sent });
            },
            _ => {
                proof { self.lemma_nothing_issued(); }
            },
        }
        None
    }

    /// Records in the local record a port the gateway mapped.
    pub fn inject_upnp_event(&mut self, event: UpnpEvent)
        requires
            old(self).wf(),
        ensures
            final(self).wf(),
            old(self).same_state(final(self)),
            match event {
                UpnpEvent::NewExternalAddr(a) => Network::issued_after(old(self), final(self), upnp_cmds(a.protocols@)),
                _ => Network::issued_after(old(self), final(self), Seq::empty()),
            },
    {
        match event {
            UpnpEvent::NewExternalAddr(addr) => {
                let p = &addr.protocols;
                let ip6 = p.len() > 0 && match &p[0] {
                    AddrProtocol::Ip6(_) => true,
                    _ => false,
                };
                if p.len() >= 2 {
                    match &p[1] {
                        AddrProtocol::Udp(port) => {
                            if p.len() >= 3 && match &p[2] {
                                AddrProtocol::QuicV1 => true,
                                _ => false,
                            } {
                                self.emit(Command::DiscoveryUpdateEnrQuicPort { port: *port, ip6 });
                            } else {
                                proof { self.lemma_nothing_issued(); }
                            }
                        },
                        AddrProtocol::Tcp(port) => {
                            self.emit(Command::DiscoveryUpdateEnrTcpPort { port: *port, ip6 });
                        },
                        _ => {
                            proof { self.lemma_nothing_issued(); }
                        },
                    }
                } else {
                    proof { self.lemma_nothing_issued(); }
                }
            },
            _ => {
                proof { self.lemma_nothing_issued(); }
            },
        }
    }

    /// Dispatches one swarm event to the handler of its sub-behaviour.
    pub fn on_swarm_event(&mut self, event: SwarmEvent, now: u64) -> (r: Option<NetworkEvent>)
        requires
            old(self).wf(),
        ensures
            final(self).wf(),
            final(self).subscriptions == old(self).subscriptions,
            final(self).enr_fork_id == old(self).enr_fork_id,
            final(self).local_metadata == old(self).local_metadata,
            final(self).params == old(self).params,
            final(self).gossip_cache.timeouts == old(self).gossip_cache.timeouts,
            swarm_event_post(old(self), event, now, final(self), r),
    {
        match event {
            SwarmEvent::Behaviour(b) => match b {
                BehaviourEvent::Gossipsub(e) => self.inject_gs_event(e, now),
                BehaviourEvent::Eth2Rpc { message, peer_connected } => self.inject_rpc_event(message, peer_connected),
                BehaviourEvent::Discovery(peers) => {
                    self.emit(Command::PeerManagerPeersDiscovered(peers));
                    None
                },
                BehaviourEvent::Identify(e) => self.inject_identify_event(e),
                BehaviourEvent::PeerManager(e) => self.inject_pm_event(e),
                BehaviourEvent::Upnp(e) => {
                    self.inject_upnp_event(e);
                    None
                },
            },
            SwarmEvent::NewListenAddr(address) => {
                proof { self.lemma_nothing_issued(); }
                Some(NetworkEvent::NewListenAddr(address))
            },
            SwarmEvent::ListenerClosed { remaining_listeners } => {
                proof { self.lemma_nothing_issued(); }
                if remaining_listeners == 0 {
                    Some(NetworkEvent::ZeroListeners)
                } else {
                    None
                }
            },
            _ => {
                proof { self.lemma_nothing_issued(); }
                None
            },
        }
    }

    /// One poll of the event loop. Swarm events are taken from the front of
    /// `queue` and dispatched in order; the first that surfaces an event ends
    /// the poll, and the rest stay queued. Once the queue is drained, each of
    /// the `elapsed_ticks` score ticks asks for a score update, and the retry
    /// cache drops what has expired at `now`; nothing is then surfaced.
    pub fn poll_network(&mut self, queue: &mut Vec<SwarmEvent>, elapsed_ticks: u64, now: u64) -> (r: Option<NetworkEvent>)
        requires
            old(self).wf(),
        ensures
            final(self).wf(),
            final(self).gossip_cache.timeouts == old(self).gossip_cache.timeouts,
            final(self).subscriptions == old(self).subscriptions,
            final(self).enr_fork_id == old(self).enr_fork_id,
            final(self).params == old(self).params,
            r.is_none() ==> final(queue)@.len() == 0,
            exists|states: Seq<Network>| #[trigger] silent_run(*old(self), old(queue)@, now, states) && {
                let n = states.len() - 1;
                &&& r.is_some() ==> n < old(queue)@.len() && final(queue)@ == old(queue)@.skip(n + 1)
                    && swarm_event_post(&states.last(), old(queue)@[n], now, final(self), r)
                &&& r.is_none() ==> n == old(queue)@.len() && maintenance(&states.last(), elapsed_ticks, now, final(self))
            },
    {
        let ghost q0 = queue@;
        let ghost mut states: Seq<Network> = seq![*self];
        while queue.len() > 0
            invariant
                self.wf(),
                self.gossip_cache.timeouts == old(self).gossip_cache.timeouts,
                self.subscriptions == old(self).subscriptions,
                self.enr_fork_id == old(self).enr_fork_id,
                self.params == old(self).params,
                q0 == old(queue)@,
                silent_run(*old(self), q0, now, states),
                states.last() == *self,
                queue@ == q0.skip(states.len() - 1),
            decreases queue@.len(),
        {
            let ghost before = queue@;
            let ghost prev = *self;
            let ev = queue.remove(0);
            let ghost n = states.len() - 1;
            proof {
                assert(ev == q0[n]);
                assert(queue@ =~= q0.skip(n + 1));
            }
            let out = self.on_swarm_event(ev, now);
            if out.is_some() {
                proof {
                    assert(silent_run(*old(self), q0, now, states));
                }
                return out;
            }
            proof {
                let next = states.push(*self);
                assert forall|k: int| 0 <= k < next.len() - 1 implies swarm_event_post(&next[k], q0[k], now, &next[k + 1], None) by {
                    if k < states.len() - 1 {
                        assert(next[k] == states[k] && next[k + 1] == states[k + 1]);
                    } else {
                        assert(next[k] == prev && next[k + 1] == *self);
                    }
                }
                states = next;
            }
        }
        let ghost drained = *self;
        proof {
            assert(q0.skip(states.len() - 1).len() == 0);
        }
        let mut t: u64 = 0;
        proof {
            assert(drained.commands@ =~= drained.commands@ + score_updates(0));
            assert(drained.issued@ =~= drained.issued@ + score_updates(0));
        }
        while t < elapsed_ticks
            invariant
                self.wf(),
                drained.same_state(self),
                self.gossip_cache == drained.gossip_cache,
                self.subscriptions == old(self).subscriptions,
                self.enr_fork_id == old(self).enr_fork_id,
                self.params == old(self).params,
                t <= elapsed_ticks,
                self.commands@ == drained.commands@ + score_updates(t as nat),
                self.issued@ == drained.issued@ + score_updates(t as nat),
            decreases elapsed_ticks - t,
        {
            self.emit(Command::PeerManagerUpdateGossipsubScores);
            proof {
                assert(score_updates(t as nat).push(Command::PeerManagerUpdateGossipsubScores) =~= score_updates((t + 1) as nat));
                assert(self.commands@ =~= drained.commands@ + score_updates((t + 1) as nat));
                assert(self.issued@ =~= drained.issued@ + score_updates((t + 1) as nat));
            }
            t = t + 1;
        }
        let ghost ticked = *self;
        let ghost cache_before = self.gossip_cache@;
        let expired = self.gossip_cache.expire(now);
        let ghost f = |t: GossipTopic| Command::CountExpiredLatePublish(t.kind);
        let mut j: usize = 0;
        proof {
            assert(self.commands@ =~= ticked.commands@ + expired@.take(0).map_values(f));
            assert(self.issued@ =~= ticked.issued@ + expired@.take(0).map_values(f));
        }
        while j < expired.len()
            invariant
                self.wf(),
                self.gossip_cache@ == live_entries(cache_before, now),
                self.gossip_cache.timeouts == drained.gossip_cache.timeouts,
                self.subscriptions == drained.subscriptions,
                self.enr_fork_id == drained.enr_fork_id,
                self.local_metadata == drained.local_metadata,
                self.enr_attnets == drained.enr_attnets,
                self.enr_syncnets == drained.enr_syncnets,
                self.params == drained.params,
                self.subscriptions == old(self).subscriptions,
                self.enr_fork_id == old(self).enr_fork_id,
                self.params == old(self).params,
                self.gossip_cache.timeouts == old(self).gossip_cache.timeouts,
                j <= expired@.len(),
                f == (|t: GossipTopic| Command::CountExpiredLatePublish(t.kind)),
                self.commands@ == ticked.commands@ + expired@.take(j as int).map_values(f),
                self.issued@ == ticked.issued@ + expired@.take(j as int).map_values(f),
            decreases expired@.len() - j,
        {
            let kind = expired[j].kind;
            self.emit(Command::CountExpiredLatePublish(kind));
            proof {
                assert(expired@.take(j + 1) =~= expired@.take(j as int).push(expired@[j as int]));
                assert(expired@.take(j + 1).map_values(f) =~= expired@.take(j as int).map_values(f).push(f(expired@[j as int])));
                assert(self.commands@ =~= ticked.commands@ + expired@.take(j + 1).map_values(f));
                assert(self.issued@ =~= ticked.issued@ + expired@.take(j + 1).map_values(f));
            }
            j = j + 1;
        }
        proof {
            assert(expired@.take(expired@.len() as int) =~= expired@);
            assert(self.commands@ =~= drained.commands@ + score_updates(elapsed_ticks as nat) + expired_counts(drained.gossip_cache@, now));
            assert(self.issued@ =~= drained.issued@ + score_updates(elapsed_ticks as nat) + expired_counts(drained.gossip_cache@, now));
            assert(silent_run(*old(self), q0, now, states));
        }
        None
    }
}

} // verus!
