use vstd::prelude::*;

use crate::command::Command;
use crate::event::NetworkEvent;
use crate::gossip::new_commands;
use crate::network::{Network, TARGET_SUBNET_PEERS};
use crate::rpc::RequestId;
use crate::types::{
    Enr, EnrForkId, GoodbyeReason, IpAddr, MetaData, PeerAction, PeerId, ReportSource, Subnet,
    SubnetDiscovery,
};

verus! {

broadcast use vstd::seq_lib::group_seq_properties;

/// What the peer database and discovery know when a subnet search is asked
/// for: whether discovery runs, the number of good connected peers on each
/// requested subnet (entry `i` for request `i`; a missing entry counts as
/// none), and the records discovery holds in its cache.
#[derive(Debug, PartialEq, Eq)]
pub struct SubnetPeerView {
    pub discovery_started: bool,
    pub good_peers: Vec<u64>,
    pub cached_enrs: Vec<Enr>,
}

/// An event of the peer manager.
#[derive(Debug, PartialEq, Eq)]
pub enum PeerManagerEvent {
    PeerConnectedIncoming(PeerId),
    PeerConnectedOutgoing(PeerId),
    PeerDisconnected(PeerId),
    Banned(PeerId, Vec<IpAddr>),
    UnBanned(PeerId, Vec<IpAddr>),
    Status(PeerId),
    DiscoverPeers(u64),
    DiscoverSubnetPeers(Vec<SubnetDiscovery>, SubnetPeerView),
    Ping(PeerId),
    MetaData(PeerId),
    DisconnectPeer(PeerId, GoodbyeReason),
}

/// Whether a record advertises `subnet`.
pub open spec fn serves(e: Enr, subnet: Subnet) -> bool {
    e.subnets@.contains(subnet)
}

/// The good peers counted for request `i`.
pub open spec fn peers_on(goods: Seq<u64>, i: int) -> u64 {
    if 0 <= i < goods.len() {
        goods[i]
    } else {
        0
    }
}

/// The dials of the cached records serving `subnet`: each is taken out of the
/// cache, then handed to the peer manager.
pub open spec fn dial_cmds(cache: Seq<Enr>, subnet: Subnet) -> Seq<Command>
    decreases cache.len(),
{
    if cache.len() == 0 {
        Seq::empty()
    } else {
        let e = cache.last();
        dial_cmds(cache.drop_last(), subnet) + if serves(e, subnet) {
            seq![Command::DiscoveryRemoveCachedEnr(e.peer_id), Command::PeerManagerDialPeer(e)]
        } else {
            Seq::empty()
        }
    }
}

/// The cached records that do not serve `subnet`.
pub open spec fn not_serving(cache: Seq<Enr>, subnet: Subnet) -> Seq<Enr> {
    cache.filter(|e: Enr| !serves(e, subnet))
}

/// Extending the retention of peers on a subnet that must be kept until `min_ttl`.
pub open spec fn ttl_cmds(d: SubnetDiscovery) -> Seq<Command> {
    match d.min_ttl {
        Some(t) => seq![Command::PeersExtendOnSubnet { subnet: d.subnet, min_ttl: t }] + match d.subnet {
            Subnet::SyncCommittee(id) => seq![Command::PeerManagerAddSyncSubnet { subnet_id: id, min_ttl: t }],
            _ => Seq::empty(),
        },
        None => Seq::empty(),
    }
}

/// Commands issued, requests kept for a query, and the cache left, after one
/// more request of a subnet search.
pub open spec fn subnet_step(
    st: (Seq<Command>, Seq<SubnetDiscovery>, Seq<Enr>),
    d: SubnetDiscovery,
    good: u64,
) -> (Seq<Command>, Seq<SubnetDiscovery>, Seq<Enr>) {
    if good >= TARGET_SUBNET_PEERS {
        (st.0 + ttl_cmds(d), st.1, st.2)
    } else {
        (st.0 + ttl_cmds(d) + dial_cmds(st.2, d.subnet), st.1.push(d), not_serving(st.2, d.subnet))
    }
}

/// The state of a subnet search after its first `n` requests.
pub open spec fn subnet_fold(ds: Seq<SubnetDiscovery>, goods: Seq<u64>, cache: Seq<Enr>, n: int) -> (
    Seq<Command>,
    Seq<SubnetDiscovery>,
    Seq<Enr>,
)
    decreases n,
{
    if n <= 0 {
        (Seq::empty(), Seq::empty(), cache)
    } else {
        subnet_step(subnet_fold(ds, goods, cache, n - 1), ds[n - 1], peers_on(goods, n - 1))
    }
}

/// The bitfield `b` with bit `i` set to `v`.
pub open spec fn with_bit64(b: u64, i: u64, v: bool) -> u64 {
    if v {
        b | (1u64 << i)
    } else {
        b & !(1u64 << i)
    }
}

/// The bitfield `b` with bit `i` set to `v`.
pub open spec fn with_bit8(b: u8, i: u8, v: bool) -> u8 {
    if v {
        b | (1u8 << i)
    } else {
        b & !(1u8 << i)
    }
}

/// The commands a peer-manager event leads to, and the event it surfaces. A
/// subnet search is described by `discover_subnet_peers` instead.
pub open spec fn pm_event_effects(ev: PeerManagerEvent, params_das: bool) -> (Seq<Command>, Option<NetworkEvent>) {
    match ev {
        PeerManagerEvent::PeerConnectedIncoming(p) => (Seq::empty(), Some(NetworkEvent::PeerConnectedIncoming(p))),
        PeerManagerEvent::PeerConnectedOutgoing(p) => (Seq::empty(), Some(NetworkEvent::PeerConnectedOutgoing(p))),
        PeerManagerEvent::PeerDisconnected(p) => (Seq::empty(), Some(NetworkEvent::PeerDisconnected(p))),
        PeerManagerEvent::Banned(p, ips) => (seq![Command::DiscoveryBanPeer { peer_id: p, ips }], None),
        PeerManagerEvent::UnBanned(p, ips) => (seq![Command::DiscoveryUnbanPeer { peer_id: p, ips }], None),
        PeerManagerEvent::Status(p) => (Seq::empty(), Some(NetworkEvent::StatusPeer(p))),
        PeerManagerEvent::DiscoverPeers(n) => (seq![Command::DiscoverPeers(n)], None),
        PeerManagerEvent::DiscoverSubnetPeers(_, _) => (Seq::empty(), None),
        PeerManagerEvent::Ping(p) => (seq![Command::RpcPing { peer_id: p, id: RequestId::Internal }], None),
        PeerManagerEvent::MetaData(p) => (
            seq![Command::RpcSendRequest {
                peer_id: p,
                id: RequestId::Internal,
                request: crate::rpc::RequestType::MetaData(
                    if params_das { crate::rpc::MetadataVersion::V3 } else { crate::rpc::MetadataVersion::V2 },
                ),
            }],
            None,
        ),
        PeerManagerEvent::DisconnectPeer(p, reason) => (
            seq![Command::RpcShutdown { peer_id: p, id: RequestId::Internal, reason }],
            None,
        ),
    }
}

/// The commands of a subnet search, the batched query last.
pub open spec fn discovery_issued(cmds: Seq<Command>, st: (Seq<Command>, Seq<SubnetDiscovery>, Seq<Enr>)) -> bool {
    if st.1.len() == 0 {
        cmds == st.0
    } else {
        &&& cmds.len() == st.0.len() + 1
        &&& cmds.take(st.0.len() as int) == st.0
        &&& match cmds.last() {
            Command::DiscoverSubnetPeers(v) => v@ == st.1,
            _ => false,
        }
    }
}

/// What handling a peer-manager event does: the commands issued and the
/// event surfaced.
pub open spec fn pm_event_post(old: &Network, event: PeerManagerEvent, new: &Network, r: Option<NetworkEvent>) -> bool {
    match event {
        PeerManagerEvent::DiscoverSubnetPeers(subnets, view) => {
            &&& r.is_none()
            &&& Network::issued_after(old, new, new_commands(old, new))
            &&& !view.discovery_started ==> new_commands(old, new) == Seq::<Command>::empty()
            &&& view.discovery_started ==> discovery_issued(
                new_commands(old, new),
                subnet_fold(subnets@, view.good_peers@, view.cached_enrs@, subnets@.len() as int),
            )
        },
        _ => {
            &&& Network::issued_after(old, new, pm_event_effects(event, old.params.peer_das_scheduled).0)
            &&& r == pm_event_effects(event, old.params.peer_das_scheduled).1
        },
    }
}

/// Whether a record advertises `subnet`.
fn enr_serves(e: &Enr, subnet: Subnet) -> (r: bool)
    ensures
        r == serves(*e, subnet),
{
    let mut i: usize = 0;
    while i < e.subnets.len()
        invariant
            i <= e.subnets@.len(),
            forall|j: int| 0 <= j < i ==> e.subnets@[j] != subnet,
        decreases e.subnets@.len() - i,
    {
        if e.subnets[i] == subnet {
            assert(e.subnets@[i as int] == subnet);
            return true;
        }
        i = i + 1;
    }
    false
}

impl Network {
    /// Asks the peer manager to lower a peer's reputation.
    pub fn report_peer(&mut self, peer_id: PeerId, action: PeerAction, source: ReportSource, msg: &'static str)
        requires
            old(self).wf(),
        ensures
            final(self).wf(),
            old(self).same_state(final(self)),
            Network::issued_after(old(self), final(self), seq![Command::PeerManagerReport { peer_id, action, source, goodbye: None, msg }]),
    {
        self.emit(Command::PeerManagerReport { peer_id, action, source, goodbye: None, msg });
    }

    /// Says goodbye to a peer, which the peer manager then disconnects and bans.
    pub fn goodbye_peer(&mut self, peer_id: PeerId, reason: GoodbyeReason, source: ReportSource)
        requires
            old(self).wf(),
        ensures
            final(self).wf(),
            old(self).same_state(final(self)),
            Network::issued_after(old(self), final(self), seq![Command::PeerManagerGoodbye { peer_id, reason, source }]),
    {
        self.emit(Command::PeerManagerGoodbye { peer_id, reason, source });
    }

    /// Adds a record to the discovery routing table.
    pub fn add_enr(&mut self, enr: Enr)
        requires
            old(self).wf(),
        ensures
            final(self).wf(),
            old(self).same_state(final(self)),
            Network::issued_after(old(self), final(self), seq![Command::DiscoveryAddEnr(enr)]),
    {
        self.emit(Command::DiscoveryAddEnr(enr));
    }

    /// Moves the local fork identity, and the local record's, to `enr_fork_id`.
    pub fn update_fork_version(&mut self, enr_fork_id: EnrForkId)
        requires
            old(self).wf(),
        ensures
            final(self).wf(),
            final(self).enr_fork_id == enr_fork_id,
            final(self).subscriptions == old(self).subscriptions,
            final(self).gossip_cache == old(self).gossip_cache,
            final(self).local_metadata == old(self).local_metadata,
            final(self).enr_attnets == old(self).enr_attnets,
            final(self).enr_syncnets == old(self).enr_syncnets,
            final(self).params == old(self).params,
            Network::issued_after(old(self), final(self), seq![Command::DiscoveryUpdateEth2Enr(enr_fork_id)]),
    {
        self.emit(Command::DiscoveryUpdateEth2Enr(enr_fork_id));
        self.enr_fork_id = enr_fork_id;
    }

    /// Brings the metadata in line with the local record's bitfields: the
    /// sequence number goes up by one, the result is persisted, and only then
    /// is the RPC layer told the new sequence number.
    fn update_metadata_bitfields(&mut self)
        requires
            old(self).wf_core(),
            old(self).local_metadata.seq_number < u64::MAX,
        ensures
            final(self).wf(),
            final(self).local_metadata == (MetaData {
                seq_number: (old(self).local_metadata.seq_number + 1) as u64,
                attnets: old(self).enr_attnets,
                syncnets: match old(self).local_metadata.syncnets {
                    Some(_) => Some(old(self).enr_syncnets),
                    None => None,
                },
                custody_group_count: old(self).local_metadata.custody_group_count,
            }),
            final(self).subscriptions == old(self).subscriptions,
            final(self).enr_fork_id == old(self).enr_fork_id,
            final(self).gossip_cache == old(self).gossip_cache,
            final(self).enr_attnets == old(self).enr_attnets,
            final(self).enr_syncnets == old(self).enr_syncnets,
            final(self).params == old(self).params,
            Network::issued_after(old(self), final(self), seq![
                Command::SaveMetadata(final(self).local_metadata),
                Command::RpcUpdateSeqNumber(final(self).local_metadata.seq_number),
            ]),
    {
        let mut meta = self.local_metadata;
        meta.seq_number = meta.seq_number + 1;
        meta.attnets = self.enr_attnets;
        if meta.syncnets.is_some() {
            meta.syncnets = Some(self.enr_syncnets);
        }
        self.local_metadata = meta;
        let ghost o = *old(self);
        self.emit(Command::SaveMetadata(meta));
        self.emit(Command::RpcUpdateSeqNumber(meta.seq_number));
        proof {
            assert(self.commands@ =~= o.commands@ + seq![Command::SaveMetadata(meta), Command::RpcUpdateSeqNumber(meta.seq_number)]);
            assert(self.issued@ =~= o.issued@ + seq![Command::SaveMetadata(meta), Command::RpcUpdateSeqNumber(meta.seq_number)]);
        }
    }

    /// Sets (or clears) a subnet bit of the local record and updates the
    /// metadata to match. A subnet beyond the bitfield changes no bit.
    pub fn update_enr_subnet(&mut self, subnet_id: Subnet, value: bool)
        requires
            old(self).wf(),
            old(self).local_metadata.seq_number < u64::MAX,
        ensures
            final(self).wf(),
            final(self).enr_attnets == match subnet_id {
                Subnet::Attestation(i) => if i < 64 && i < old(self).params.attestation_subnet_count {
                    with_bit64(old(self).enr_attnets, i, value)
                } else {
                    old(self).enr_attnets
                },
                _ => old(self).enr_attnets,
            },
            final(self).enr_syncnets == match subnet_id {
                Subnet::SyncCommittee(i) => if i < 8 && i < old(self).params.sync_committee_subnet_count {
                    with_bit8(old(self).enr_syncnets, i as u8, value)
                } else {
                    old(self).enr_syncnets
                },
                _ => old(self).enr_syncnets,
            },
            final(self).local_metadata == (MetaData {
                seq_number: (old(self).local_metadata.seq_number + 1) as u64,
                attnets: final(self).enr_attnets,
                syncnets: match old(self).local_metadata.syncnets {
                    Some(_) => Some(final(self).enr_syncnets),
                    None => None,
                },
                custody_group_count: old(self).local_metadata.custody_group_count,
            }),
            final(self).subscriptions == old(self).subscriptions,
            final(self).enr_fork_id == old(self).enr_fork_id,
            final(self).gossip_cache == old(self).gossip_cache,
            final(self).params == old(self).params,
            Network::issued_after(old(self), final(self), seq![
                Command::DiscoveryUpdateEnrBitfield { subnet: subnet_id, value },
                Command::SaveMetadata(final(self).local_metadata),
                Command::RpcUpdateSeqNumber(final(self).local_metadata.seq_number),
            ]),
    {
        let ghost o = *old(self);
        self.emit(Command::DiscoveryUpdateEnrBitfield { subnet: subnet_id, value });
        match subnet_id {
            Subnet::Attestation(i) => {
                if i < 64 && i < self.params.attestation_subnet_count {
                    let bit: u64 = 1u64 << i;
                    self.enr_attnets = if value {
                        self.enr_attnets | bit
                    } else {
                        self.enr_attnets & !bit
                    };
                }
            },
            Subnet::SyncCommittee(i) => {
                if i < 8 && i < self.params.sync_committee_subnet_count {
                    let bit: u8 = 1u8 << (i as u8);
                    self.enr_syncnets = if value {
                        self.enr_syncnets | bit
                    } else {
                        self.enr_syncnets & !bit
                    };
                }
            },
            Subnet::DataColumn(_) => {},
        }
        self.update_metadata_bitfields();
        proof {
            let m = self.local_metadata;
            assert(self.commands@ =~= o.commands@ + seq![
                Command::DiscoveryUpdateEnrBitfield { subnet: subnet_id, value },
                Command::SaveMetadata(m),
                Command::RpcUpdateSeqNumber(m.seq_number),
            ]);
            assert(self.issued@ =~= o.issued@ + seq![
                Command::DiscoveryUpdateEnrBitfield { subnet: subnet_id, value },
                Command::SaveMetadata(m),
                Command::RpcUpdateSeqNumber(m.seq_number),
            ]);
        }
    }

    /// Takes the cached records that serve `subnet` out of `cache`, asking
    /// discovery to forget each and the peer manager to dial it.
    fn dial_cached_enrs_in_subnet(&mut self, subnet: Subnet, cache: Vec<Enr>) -> (remaining: Vec<Enr>)
        requires
            old(self).wf(),
        ensures
            final(self).wf(),
            old(self).same_state(final(self)),
            Network::issued_after(old(self), final(self), dial_cmds(cache@, subnet)),
            remaining@ == not_serving(cache@, subnet),
    {
        let ghost orig = cache@;
        let mut cache = cache;
        let mut remaining: Vec<Enr> = Vec::new();
        let n: usize = cache.len();
        let mut k: usize = 0;
        proof {
            assert(orig.take(0) =~= Seq::<Enr>::empty());
            assert(dial_cmds(orig.take(0), subnet) == Seq::<Command>::empty());
            assert(not_serving(orig.take(0), subnet) =~= Seq::<Enr>::empty());
            self.lemma_nothing_issued();
        }
        while cache.len() > 0
            invariant
                self.wf(),
                old(self).same_state(self),
                k <= orig.len(),
                orig.len() == n,
                k + cache@.len() == orig.len(),
                cache@ == orig.skip(k as int),
                remaining@ == not_serving(orig.take(k as int), subnet),
                Network::issued_after(old(self), self, dial_cmds(orig.take(k as int), subnet)),
            decreases cache@.len(),
        {
            let e = cache.remove(0);
            let ghost ge = e;
            proof {
                assert(orig.skip(k as int)[0] == orig[k as int]);
                assert(orig.take(k + 1).drop_last() =~= orig.take(k as int));
                assert(orig.take(k + 1).last() == orig[k as int]);
                assert(orig.take(k + 1) =~= orig.take(k as int).push(orig[k as int]));
                orig.take(k as int).lemma_filter_push(orig[k as int], |x: Enr| !serves(x, subnet));
            }
            if enr_serves(&e, subnet) {
                let peer = e.peer_id;
                self.emit(Command::DiscoveryRemoveCachedEnr(peer));
                self.emit(Command::PeerManagerDialPeer(e));
                proof {
                    let added = seq![Command::DiscoveryRemoveCachedEnr(ge.peer_id), Command::PeerManagerDialPeer(ge)];
                    assert(self.commands@ =~= old(self).commands@ + (dial_cmds(orig.take(k as int), subnet) + added));
                    assert(self.issued@ =~= old(self).issued@ + (dial_cmds(orig.take(k as int), subnet) + added));
                }
            } else {
                remaining.push(e);
                proof {
                    assert(dial_cmds(orig.take(k + 1), subnet) =~= dial_cmds(orig.take(k as int), subnet));
                }
            }
            k = k + 1;
            proof {
                assert(cache@ =~= orig.skip(k as int));
            }
        }
        proof {
            assert(orig.take(k as int) =~= orig);
        }
        remaining
    }

    /// Searches for peers on subnets. Retention deadlines are extended first;
    /// a subnet that already has enough good peers needs nothing more; for
    /// the others, cached records serving them are dialed, and one batched
    /// query asks discovery for the rest. Nothing happens while discovery is
    /// not running.
    pub fn discover_subnet_peers(&mut self, subnets_to_discover: Vec<SubnetDiscovery>, view: SubnetPeerView)
        requires
            old(self).wf(),
        ensures
            final(self).wf(),
            old(self).same_state(final(self)),
            Network::issued_after(old(self), final(self), new_commands(old(self), final(self))),
            !view.discovery_started ==> new_commands(old(self), final(self)) == Seq::<Command>::empty(),
            view.discovery_started ==> discovery_issued(
                new_commands(old(self), final(self)),
                subnet_fold(subnets_to_discover@, view.good_peers@, view.cached_enrs@, subnets_to_discover@.len() as int),
            ),
    {
        let ghost o = *old(self);
        proof {
            assert(new_commands(&o, self) =~= Seq::<Command>::empty());
            self.lemma_nothing_issued();
        }
        if !view.discovery_started {
            return;
        }
        let ghost ds = subnets_to_discover@;
        let ghost goods = view.good_peers@;
        let ghost cache0 = view.cached_enrs@;
        let SubnetPeerView { discovery_started: _, good_peers, cached_enrs } = view;
        let mut cache = cached_enrs;
        let mut filtered: Vec<SubnetDiscovery> = Vec::new();
        let mut i: usize = 0;
        while i < subnets_to_discover.len()
            invariant
                self.wf(),
                o.same_state(self),
                o == *old(self),
                ds == subnets_to_discover@,
                goods == good_peers@,
                i <= ds.len(),
                Network::issued_after(&o, self, subnet_fold(ds, goods, cache0, i as int).0),
                filtered@ == subnet_fold(ds, goods, cache0, i as int).1,
                cache@ == subnet_fold(ds, goods, cache0, i as int).2,
            decreases ds.len() - i,
        {
            let s = subnets_to_discover[i];
            let ghost st = subnet_fold(ds, goods, cache0, i as int);
            if let Some(min_ttl) = s.min_ttl {
                self.emit(Command::PeersExtendOnSubnet { subnet: s.subnet, min_ttl });
                if let Subnet::SyncCommittee(id) = s.subnet {
                    self.emit(Command::PeerManagerAddSyncSubnet { subnet_id: id, min_ttl });
                }
            }
            proof {
                assert(self.commands@ =~= o.commands@ + (st.0 + ttl_cmds(s)));
                assert(self.issued@ =~= o.issued@ + (st.0 + ttl_cmds(s)));
            }
            let good: u64 = if i < good_peers.len() {
                good_peers[i]
            } else {
                0
            };
            if good < TARGET_SUBNET_PEERS as u64 {
                let mut taken: Vec<Enr> = Vec::new();
                std::mem::swap(&mut taken, &mut cache);
                cache = self.dial_cached_enrs_in_subnet(s.subnet, taken);
                filtered.push(s);
                proof {
                    assert(self.commands@ =~= o.commands@ + (st.0 + ttl_cmds(s) + dial_cmds(st.2, s.subnet)));
                    assert(self.issued@ =~= o.issued@ + (st.0 + ttl_cmds(s) + dial_cmds(st.2, s.subnet)));
                }
            }
            i = i + 1;
        }
        let ghost st = subnet_fold(ds, goods, cache0, ds.len() as int);
        if filtered.len() > 0 {
            let ghost fv = filtered;
            self.emit(Command::DiscoverSubnetPeers(filtered));
            proof {
                let cmds = new_commands(&o, self);
                assert(self.commands@ =~= o.commands@ + (st.0 + seq![Command::DiscoverSubnetPeers(fv)]));
                assert(cmds =~= st.0 + seq![Command::DiscoverSubnetPeers(fv)]);
                assert(cmds.take(st.0.len() as int) =~= st.0);
                assert(self.issued@ =~= o.issued@ + cmds);
            }
        } else {
            proof {
                assert(new_commands(&o, self) =~= st.0);
            }
        }
    }

    /// Handles an event of the peer manager.
    pub fn inject_pm_event(&mut self, event: PeerManagerEvent) -> (r: Option<NetworkEvent>)
        requires
            old(self).wf(),
        ensures
            final(self).wf(),
            old(self).same_state(final(self)),
            pm_event_post(old(self), event, final(self), r),
    {
        match event {
            PeerManagerEvent::PeerConnectedIncoming(p) => {
                proof { self.lemma_nothing_issued(); }
                Some(NetworkEvent::PeerConnectedIncoming(p))
            },
            PeerManagerEvent::PeerConnectedOutgoing(p) => {
                proof { self.lemma_nothing_issued(); }
                Some(NetworkEvent::PeerConnectedOutgoing(p))
            },
            PeerManagerEvent::PeerDisconnected(p) => {
                proof { self.lemma_nothing_issued(); }
                Some(NetworkEvent::PeerDisconnected(p))
            },
            PeerManagerEvent::Banned(p, ips) => {
                self.emit(Command::DiscoveryBanPeer { peer_id: p, ips });
                None
            },
            PeerManagerEvent::UnBanned(p, ips) => {
                self.emit(Command::DiscoveryUnbanPeer { peer_id: p, ips });
                None
            },
            PeerManagerEvent::Status(p) => {
                proof { self.lemma_nothing_issued(); }
                Some(NetworkEvent::StatusPeer(p))
            },
            PeerManagerEvent::DiscoverPeers(n) => {
                self.emit(Command::DiscoverPeers(n));
                None
            },
            PeerManagerEvent::DiscoverSubnetPeers(subnets, view) => {
                self.discover_subnet_peers(subnets, view);
                None
            },
            PeerManagerEvent::Ping(p) => {
                self.ping(p);
                None
            },
            PeerManagerEvent::MetaData(p) => {
                self.send_meta_data_request(p);
                None
            },
            PeerManagerEvent::DisconnectPeer(p, reason) => {
                self.emit(Command::RpcShutdown { peer_id: p, id: RequestId::Internal, reason });
                None
            },
        }
    }
}

} // verus!
