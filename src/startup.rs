use vstd::prelude::*;

use crate::command::Command;
use crate::gossip::new_commands;
use crate::gossip_cache::bytes_eq;
use crate::network::{topic_at, Network};
use crate::topics::topics_of;
use crate::types::{AddrProtocol, GossipKind, GossipTopic, Multiaddr, PeerId};

verus! {

broadcast use vstd::seq_lib::group_seq_properties;

/// A boot node: its encoded record, the QUIC and TCP addresses the record
/// gives, and whether the peer database holds it as connected or dialing.
#[derive(Debug, PartialEq, Eq)]
pub struct BootNode {
    pub record: Vec<u8>,
    pub peer_id: PeerId,
    pub quic_addrs: Vec<Multiaddr>,
    pub tcp_addrs: Vec<Multiaddr>,
    pub connected_or_dialing: bool,
}

/// What the node is started with once it listens.
#[derive(Debug, PartialEq, Eq)]
pub struct StartConfig {
    pub trusted_peers: Vec<PeerId>,
    pub disable_quic_support: bool,
    pub libp2p_nodes: Vec<Multiaddr>,
    pub boot_nodes_enr: Vec<BootNode>,
    pub boot_nodes_multiaddr: Vec<Multiaddr>,
    pub topics: Vec<GossipKind>,
}

/// Why the node refused to start.
#[derive(Clone, Copy, Debug, PartialEq, Eq, Hash, Structural)]
pub enum StartError {
    /// Listening on one of the configured addresses failed.
    ListenFailed,
}

/// Which addresses of a list are used.
#[derive(Clone, Copy, Debug, PartialEq, Eq, Hash, Structural)]
pub enum AddrFilter {
    All,
    /// Leave out addresses with a QUIC component.
    NoQuic,
    /// Keep only addresses with a TCP component.
    TcpOnly,
    /// Leave out addresses whose second component is UDP.
    NoUdp,
}

/// One step of the startup sequence, over address components.
pub enum StartStep {
    ExplicitPeer(PeerId),
    Listen(Seq<AddrProtocol>),
    Dial(Seq<AddrProtocol>),
    Subscribe(GossipTopic),
}

/// The address without a trailing peer-id component.
pub open spec fn strip_peer_id(a: Seq<AddrProtocol>) -> Seq<AddrProtocol> {
    if a.len() > 0 && a.last() is P2p {
        a.drop_last()
    } else {
        a
    }
}

pub open spec fn has_quic(a: Seq<AddrProtocol>) -> bool {
    exists|i: int| 0 <= i < a.len() && a[i] is QuicV1
}

pub open spec fn has_tcp(a: Seq<AddrProtocol>) -> bool {
    exists|i: int| 0 <= i < a.len() && a[i] is Tcp
}

pub open spec fn keeps(f: AddrFilter, a: Seq<AddrProtocol>) -> bool {
    match f {
        AddrFilter::All => true,
        AddrFilter::NoQuic => !has_quic(a),
        AddrFilter::TcpOnly => has_tcp(a),
        AddrFilter::NoUdp => !(a.len() >= 2 && a[1] is Udp),
    }
}

/// Listening on, or dialing (without the peer id), each kept address, in order.
pub open spec fn addr_steps(addrs: Seq<Multiaddr>, f: AddrFilter, listen: bool) -> Seq<StartStep>
    decreases addrs.len(),
{
    if addrs.len() == 0 {
        Seq::empty()
    } else {
        let a = addrs.last().protocols@;
        addr_steps(addrs.drop_last(), f, listen) + if keeps(f, a) {
            if listen {
                seq![StartStep::Listen(a)]
            } else {
                seq![StartStep::Dial(strip_peer_id(a))]
            }
        } else {
            Seq::empty()
        }
    }
}

/// The dials of one boot node not yet connected or dialing: its QUIC
/// addresses first (unless QUIC is off), then its TCP addresses, UDP ones
/// left out.
pub open spec fn boot_node_steps(b: BootNode, quic_off: bool) -> Seq<StartStep> {
    if b.connected_or_dialing {
        Seq::empty()
    } else {
        (if quic_off {
            Seq::empty()
        } else {
            addr_steps(b.quic_addrs@, AddrFilter::All, false)
        }) + addr_steps(b.tcp_addrs@, AddrFilter::NoUdp, false)
    }
}

/// Whether the record of node `n` is that of an earlier node.
pub open spec fn repeats(bs: Seq<BootNode>, n: int) -> bool {
    exists|j: int| 0 <= j < n && #[trigger] bs[j].record@ == bs[n].record@
}

/// The dials of the boot nodes, each record counting once.
pub open spec fn boot_steps(bs: Seq<BootNode>, quic_off: bool) -> Seq<StartStep>
    decreases bs.len(),
{
    if bs.len() == 0 {
        Seq::empty()
    } else {
        let n = bs.len() - 1;
        boot_steps(bs.drop_last(), quic_off) + if repeats(bs, n) {
            Seq::empty()
        } else {
            boot_node_steps(bs[n], quic_off)
        }
    }
}

/// The listens of the startup sequence: every address, but those with a
/// QUIC component when QUIC is off.
pub open spec fn listen_steps(listen_addrs: Seq<Multiaddr>, quic_off: bool) -> Seq<StartStep> {
    addr_steps(listen_addrs, if quic_off { AddrFilter::NoQuic } else { AddrFilter::All }, true)
}

/// Whether every listen succeeded.
pub open spec fn all_listening(listen_results: Seq<bool>) -> bool {
    forall|i: int| 0 <= i < listen_results.len() ==> #[trigger] listen_results[i]
}

/// The rest of the startup sequence once the node listens: trusted peers
/// become explicit gossip peers, the node dials the configured peers and
/// boot nodes, and subscribes to its initial topics.
pub open spec fn start_steps(c: StartConfig, digest: [u8; 4]) -> Seq<StartStep> {
    c.trusted_peers@.map_values(|p: PeerId| StartStep::ExplicitPeer(p))
        + addr_steps(c.libp2p_nodes@, AddrFilter::All, false)
        + boot_steps(c.boot_nodes_enr@, c.disable_quic_support)
        + addr_steps(c.boot_nodes_multiaddr@, AddrFilter::TcpOnly, false)
        + topics_of(c.topics@, digest).map_values(|t: GossipTopic| StartStep::Subscribe(t))
}

/// `c` carries out `s`.
pub open spec fn realizes(c: Command, s: StartStep) -> bool {
    match s {
        StartStep::ExplicitPeer(p) => c == Command::GossipAddExplicitPeer(p),
        StartStep::Listen(a) => match c {
            Command::ListenOn(m) => m.protocols@ == a,
            _ => false,
        },
        StartStep::Dial(a) => match c {
            Command::Dial(m) => m.protocols@ == a,
            _ => false,
        },
        StartStep::Subscribe(t) => c == Command::GossipSubscribe(t),
    }
}

/// `cmds` carries out `steps`, one command each, in order.
pub open spec fn realizes_all(cmds: Seq<Command>, steps: Seq<StartStep>) -> bool {
    &&& cmds.len() == steps.len()
    &&& forall|i: int| 0 <= i < cmds.len() ==> realizes(#[trigger] cmds[i], steps[i])
}

/// `o` to `n` carries out `steps`.
pub open spec fn carried_out(o: &Network, n: &Network, steps: Seq<StartStep>) -> bool {
    &&& Network::issued_after(o, n, new_commands(o, n))
    &&& realizes_all(new_commands(o, n), steps)
}

proof fn lemma_carried_out_empty(o: &Network)
    ensures
        carried_out(o, o, Seq::empty()),
{
    assert(new_commands(o, o) =~= Seq::<Command>::empty());
    assert(o.commands@ =~= o.commands@ + Seq::<Command>::empty());
    assert(o.issued@ =~= o.issued@ + Seq::<Command>::empty());
}

proof fn lemma_carried_out_push(o: &Network, m: &Network, n: &Network, steps: Seq<StartStep>, c: Command, s: StartStep)
    requires
        carried_out(o, m, steps),
        Network::issued_after(m, n, seq![c]),
        realizes(c, s),
    ensures
        carried_out(o, n, steps.push(s)),
{
    assert(n.commands@ =~= o.commands@ + new_commands(o, m) + seq![c]);
    assert(new_commands(o, n) =~= new_commands(o, m).push(c));
    assert(n.commands@ =~= o.commands@ + new_commands(o, n));
    assert(n.issued@ =~= o.issued@ + new_commands(o, n));
    let cmds = new_commands(o, n);
    let st = steps.push(s);
    assert forall|i: int| 0 <= i < cmds.len() implies realizes(#[trigger] cmds[i], st[i]) by {
        if i < steps.len() {
            assert(cmds[i] == new_commands(o, m)[i]);
        }
    }
}

proof fn lemma_carried_out_concat(o: &Network, m: &Network, n: &Network, s1: Seq<StartStep>, s2: Seq<StartStep>)
    requires
        carried_out(o, m, s1),
        carried_out(m, n, s2),
    ensures
        carried_out(o, n, s1 + s2),
{
    assert(new_commands(o, n) =~= new_commands(o, m) + new_commands(m, n));
    assert(n.commands@ =~= o.commands@ + new_commands(o, n));
    assert(n.issued@ =~= o.issued@ + new_commands(o, n));
    let cmds = new_commands(o, n);
    let st = s1 + s2;
    assert forall|i: int| 0 <= i < cmds.len() implies realizes(#[trigger] cmds[i], st[i]) by {
        if i < s1.len() {
            assert(cmds[i] == new_commands(o, m)[i]);
        } else {
            assert(cmds[i] == new_commands(m, n)[i - s1.len()]);
        }
    }
}

/// Whether an address has a QUIC component.
fn any_quic(p: &Vec<AddrProtocol>) -> (r: bool)
    ensures
        r == has_quic(p@),
{
    let mut i: usize = 0;
    while i < p.len()
        invariant
            i <= p@.len(),
            forall|j: int| 0 <= j < i ==> !(p@[j] is QuicV1),
        decreases p@.len() - i,
    {
        if let AddrProtocol::QuicV1 = &p[i] {
            return true;
        }
        i = i + 1;
    }
    false
}

/// Whether an address has a TCP component.
fn any_tcp(p: &Vec<AddrProtocol>) -> (r: bool)
    ensures
        r == has_tcp(p@),
{
    let mut i: usize = 0;
    while i < p.len()
        invariant
            i <= p@.len(),
            forall|j: int| 0 <= j < i ==> !(p@[j] is Tcp),
        decreases p@.len() - i,
    {
        if let AddrProtocol::Tcp(_) = &p[i] {
            return true;
        }
        i = i + 1;
    }
    false
}

/// Whether an address passes a filter.
fn addr_kept(f: AddrFilter, m: &Multiaddr) -> (r: bool)
    ensures
        r == keeps(f, m.protocols@),
{
    let p = &m.protocols;
    match f {
        AddrFilter::All => true,
        AddrFilter::NoUdp => !(p.len() >= 2 && match &p[1] {
            AddrProtocol::Udp(_) => true,
            _ => false,
        }),
        AddrFilter::NoQuic => !any_quic(p),
        AddrFilter::TcpOnly => any_tcp(p),
    }
}

/// Whether `record` is among `seen`.
fn seen_before(seen: &Vec<Vec<u8>>, record: &Vec<u8>) -> (r: bool)
    ensures
        r == exists|j: int| 0 <= j < seen@.len() && seen@[j]@ == record@,
{
    let mut i: usize = 0;
    while i < seen.len()
        invariant
            i <= seen@.len(),
            forall|j: int| 0 <= j < i ==> seen@[j]@ != record@,
        decreases seen@.len() - i,
    {
        if bytes_eq(&seen[i], record) {
            return true;
        }
        i = i + 1;
    }
    false
}

/// The address without a trailing peer-id component.
pub fn strip_peer_id_exec(m: Multiaddr) -> (r: Multiaddr)
    ensures
        r.protocols@ == strip_peer_id(m.protocols@),
{
    let mut p = m.protocols;
    let n = p.len();
    if n > 0 {
        let last_is_peer = match &p[n - 1] {
            AddrProtocol::P2p(_) => true,
            _ => false,
        };
        if last_is_peer {
            p.pop();
        }
    }
    Multiaddr { protocols: p }
}

impl Network {
    /// Marks each peer as an explicit gossip peer.
    fn add_explicit_peers(&mut self, peers: &Vec<PeerId>)
        requires
            old(self).wf(),
        ensures
            final(self).wf(),
            old(self).same_state(final(self)),
            carried_out(old(self), final(self), peers@.map_values(|p: PeerId| StartStep::ExplicitPeer(p))),
    {
        let ghost ex = |p: PeerId| StartStep::ExplicitPeer(p);
        let mut i: usize = 0;
        proof {
            lemma_carried_out_empty(self);
            assert(peers@.take(0).map_values(ex) =~= Seq::<StartStep>::empty());
        }
        while i < peers.len()
            invariant
                self.wf(),
                old(self).same_state(self),
                i <= peers@.len(),
                ex == (|p: PeerId| StartStep::ExplicitPeer(p)),
                carried_out(old(self), self, peers@.take(i as int).map_values(ex)),
            decreases peers@.len() - i,
        {
            let p = peers[i];
            let ghost mid = *self;
            self.emit(Command::GossipAddExplicitPeer(p));
            proof {
                lemma_carried_out_push(old(self), &mid, self, peers@.take(i as int).map_values(ex), Command::GossipAddExplicitPeer(p), StartStep::ExplicitPeer(p));
                assert(peers@.take(i as int).map_values(ex).push(ex(p)) =~= peers@.take(i + 1).map_values(ex));
            }
            i = i + 1;
        }
        assert(peers@.take(peers@.len() as int) =~= peers@);
    }

    /// Subscribes to each kind at the current digest, in order.
    fn subscribe_kinds(&mut self, kinds: &Vec<GossipKind>)
        requires
            old(self).wf(),
        ensures
            final(self).wf(),
            final(self).subscription_set() == old(self).subscription_set() + topics_of(kinds@, old(self).digest()).to_set(),
            carried_out(old(self), final(self), topics_of(kinds@, old(self).digest()).map_values(|t: GossipTopic| StartStep::Subscribe(t))),
            final(self).enr_fork_id == old(self).enr_fork_id,
            final(self).gossip_cache == old(self).gossip_cache,
            final(self).local_metadata == old(self).local_metadata,
            final(self).params == old(self).params,
    {
        let ghost sub_step = |t: GossipTopic| StartStep::Subscribe(t);
        let ghost d = self.enr_fork_id.fork_digest;
        let mut j: usize = 0;
        proof {
            lemma_carried_out_empty(self);
            assert(kinds@.take(0) =~= Seq::<GossipKind>::empty());
            assert(topics_of(kinds@.take(0), d).to_set() =~= Set::<GossipTopic>::empty());
            assert(topics_of(kinds@.take(0), d).map_values(sub_step) =~= Seq::<StartStep>::empty());
            assert(old(self).subscription_set() + Set::<GossipTopic>::empty() =~= old(self).subscription_set());
        }
        while j < kinds.len()
            invariant
                self.wf(),
                j <= kinds@.len(),
                sub_step == (|t: GossipTopic| StartStep::Subscribe(t)),
                d == self.enr_fork_id.fork_digest,
                old(self).enr_fork_id == self.enr_fork_id,
                old(self).gossip_cache == self.gossip_cache,
                old(self).local_metadata == self.local_metadata,
                old(self).params == self.params,
                self.subscription_set() == old(self).subscription_set() + topics_of(kinds@.take(j as int), d).to_set(),
                carried_out(old(self), self, topics_of(kinds@.take(j as int), d).map_values(sub_step)),
            decreases kinds@.len() - j,
        {
            let kind = kinds[j];
            let ghost mid = *self;
            self.subscribe_kind(kind);
            proof {
                let t = topic_at(kind, d);
                lemma_carried_out_push(old(self), &mid, self, topics_of(kinds@.take(j as int), d).map_values(sub_step), Command::GossipSubscribe(t), StartStep::Subscribe(t));
                assert(kinds@.take(j + 1) =~= kinds@.take(j as int).push(kind));
                assert(topics_of(kinds@.take(j + 1), d) =~= topics_of(kinds@.take(j as int), d).push(t));
                assert(topics_of(kinds@.take(j as int), d).map_values(sub_step).push(sub_step(t)) =~= topics_of(kinds@.take(j + 1), d).map_values(sub_step));
                topics_of(kinds@.take(j as int), d).lemma_push_to_set_commute(t);
                assert(self.subscription_set() =~= old(self).subscription_set() + topics_of(kinds@.take(j + 1), d).to_set());
            }
            j = j + 1;
        }
        assert(kinds@.take(kinds@.len() as int) =~= kinds@);
    }

    /// Listens on, or dials, each address of `addrs` that `f` keeps.
    fn use_addrs(&mut self, addrs: Vec<Multiaddr>, f: AddrFilter, listen: bool)
        requires
            old(self).wf(),
        ensures
            final(self).wf(),
            old(self).same_state(final(self)),
            carried_out(old(self), final(self), addr_steps(addrs@, f, listen)),
    {
        let ghost orig = addrs@;
        let mut addrs = addrs;
        let n: usize = addrs.len();
        let mut k: usize = 0;
        proof {
            assert(orig.take(0) =~= Seq::<Multiaddr>::empty());
            lemma_carried_out_empty(self);
        }
        while addrs.len() > 0
            invariant
                self.wf(),
                old(self).same_state(self),
                orig.len() == n,
                k <= n,
                k + addrs@.len() == n,
                addrs@ == orig.skip(k as int),
                carried_out(old(self), self, addr_steps(orig.take(k as int), f, listen)),
            decreases addrs@.len(),
        {
            let m = addrs.remove(0);
            proof {
                assert(orig.skip(k as int)[0] == orig[k as int]);
                assert(orig.take(k + 1).drop_last() =~= orig.take(k as int));
                assert(orig.take(k + 1).last() == orig[k as int]);
            }
            if addr_kept(f, &m) {
                let ghost mid = *self;
                if listen {
                    let ghost a = m.protocols@;
                    let ghost mm = m;
                    self.emit(Command::ListenOn(m));
                    proof {
                        lemma_carried_out_push(old(self), &mid, self, addr_steps(orig.take(k as int), f, listen), Command::ListenOn(mm), StartStep::Listen(a));
                    }
                } else {
                    let d = strip_peer_id_exec(m);
                    let ghost dd = d;
                    self.emit(Command::Dial(d));
                    proof {
                        lemma_carried_out_push(old(self), &mid, self, addr_steps(orig.take(k as int), f, listen), Command::Dial(dd), StartStep::Dial(dd.protocols@));
                    }
                }
            } else {
                assert(addr_steps(orig.take(k + 1), f, listen) =~= addr_steps(orig.take(k as int), f, listen));
            }
            k = k + 1;
            proof {
                assert(addrs@ =~= orig.skip(k as int));
            }
        }
        assert(orig.take(k as int) =~= orig);
    }

    /// Dials the boot nodes not yet connected or dialing, each once.
    fn dial_boot_nodes(&mut self, nodes: Vec<BootNode>, quic_off: bool)
        requires
            old(self).wf(),
        ensures
            final(self).wf(),
            old(self).same_state(final(self)),
            carried_out(old(self), final(self), boot_steps(nodes@, quic_off)),
    {
        let ghost orig = nodes@;
        let mut nodes = nodes;
        let n: usize = nodes.len();
        let mut k: usize = 0;
        let mut seen: Vec<Vec<u8>> = Vec::new();
        proof {
            assert(orig.take(0) =~= Seq::<BootNode>::empty());
            lemma_carried_out_empty(self);
        }
        while nodes.len() > 0
            invariant
                self.wf(),
                old(self).same_state(self),
                orig.len() == n,
                k <= n,
                k + nodes@.len() == n,
                nodes@ == orig.skip(k as int),
                seen@.len() == k,
                forall|j: int| 0 <= j < k ==> (#[trigger] seen@[j])@ == orig[j].record@,
                carried_out(old(self), self, boot_steps(orig.take(k as int), quic_off)),
            decreases nodes@.len(),
        {
            let b = nodes.remove(0);
            proof {
                assert(orig.skip(k as int)[0] == orig[k as int]);
                assert(orig.take(k + 1).drop_last() =~= orig.take(k as int));
                assert(orig.take(k + 1)[k as int] == orig[k as int]);
            }
            let duplicate = seen_before(&seen, &b.record);
            proof {
                let t = orig.take(k + 1);
                if duplicate {
                    let j = choose|j: int| 0 <= j < seen@.len() && seen@[j]@ == b.record@;
                    assert(t[j] == orig[j]);
                    assert(t[j].record@ == t[k as int].record@);
                } else {
                    assert forall|j: int| 0 <= j < k implies #[trigger] t[j].record@ != t[k as int].record@ by {
                        assert(t[j] == orig[j]);
                        assert(seen@[j]@ == orig[j].record@);
                    }
                }
                assert(duplicate == repeats(t, k as int));
            }
            let BootNode { record, peer_id: _, quic_addrs, tcp_addrs, connected_or_dialing } = b;
            if duplicate || connected_or_dialing {
                assert(boot_steps(orig.take(k + 1), quic_off) =~= boot_steps(orig.take(k as int), quic_off));
            } else {
                let ghost start = *self;
                let ghost qa = quic_addrs@;
                let ghost ta = tcp_addrs@;
                if !quic_off {
                    self.use_addrs(quic_addrs, AddrFilter::All, false);
                } else {
                    proof { lemma_carried_out_empty(self); }
                }
                let ghost mid = *self;
                self.use_addrs(tcp_addrs, AddrFilter::NoUdp, false);
                proof {
                    let q = if quic_off { Seq::<StartStep>::empty() } else { addr_steps(qa, AddrFilter::All, false) };
                    lemma_carried_out_concat(&start, &mid, self, q, addr_steps(ta, AddrFilter::NoUdp, false));
                    lemma_carried_out_concat(old(self), &start, self, boot_steps(orig.take(k as int), quic_off), q + addr_steps(ta, AddrFilter::NoUdp, false));
                    assert(boot_steps(orig.take(k + 1), quic_off) =~= boot_steps(orig.take(k as int), quic_off) + (q + addr_steps(ta, AddrFilter::NoUdp, false)));
                }
            }
            seen.push(record);
            k = k + 1;
            proof {
                assert(nodes@ =~= orig.skip(k as int));
            }
        }
        assert(orig.take(k as int) =~= orig);
    }

    /// Starts the node: it listens on its addresses, leaving out those with
    /// a QUIC component when QUIC is off. What each listen gave goes to
    /// `complete_start`.
    pub fn start(&mut self, listen_addrs: Vec<Multiaddr>, disable_quic_support: bool)
        requires
            old(self).wf(),
        ensures
            final(self).wf(),
            old(self).same_state(final(self)),
            carried_out(old(self), final(self), listen_steps(listen_addrs@, disable_quic_support)),
    {
        let listen_filter = if disable_quic_support {
            AddrFilter::NoQuic
        } else {
            AddrFilter::All
        };
        self.use_addrs(listen_addrs, listen_filter, true);
    }

    /// Completes the start from the outcome of each listen. If any listen
    /// failed the node refuses to start, and nothing more happens. Otherwise
    /// trusted peers become explicit gossip peers, and the node dials the
    /// configured peers, the boot nodes (QUIC addresses first, each record
    /// once and only if not already connected or dialing) and the TCP boot
    /// addresses, and subscribes to its initial topic kinds.
    pub fn complete_start(&mut self, config: StartConfig, listen_results: &Vec<bool>) -> (r: Result<(), StartError>)
        requires
            old(self).wf(),
        ensures
            final(self).wf(),
            r is Err <==> !all_listening(listen_results@),
            r is Err ==> r == Err::<(), StartError>(StartError::ListenFailed) && old(self).same_state(final(self))
                && Network::issued_after(old(self), final(self), Seq::empty()),
            r is Ok ==> final(self).subscription_set() == old(self).subscription_set() + topics_of(config.topics@, old(self).digest()).to_set()
                && carried_out(old(self), final(self), start_steps(config, old(self).digest())),
            final(self).enr_fork_id == old(self).enr_fork_id,
            final(self).gossip_cache == old(self).gossip_cache,
            final(self).local_metadata == old(self).local_metadata,
            final(self).params == old(self).params,
    {
        let mut i: usize = 0;
        while i < listen_results.len()
            invariant
                self.wf(),
                *self == *old(self),
                i <= listen_results@.len(),
                forall|j: int| 0 <= j < i ==> listen_results@[j],
            decreases listen_results@.len() - i,
        {
            if !listen_results[i] {
                proof { self.lemma_nothing_issued(); }
                return Err(StartError::ListenFailed);
            }
            i = i + 1;
        }
        let ghost c = config;
        let ghost o = *old(self);
        let ghost d = self.enr_fork_id.fork_digest;
        let StartConfig { trusted_peers, disable_quic_support, libp2p_nodes, boot_nodes_enr, boot_nodes_multiaddr, topics } = config;
        let ghost ex = |p: PeerId| StartStep::ExplicitPeer(p);
        self.add_explicit_peers(&trusted_peers);
        let ghost s1 = *self;
        self.use_addrs(libp2p_nodes, AddrFilter::All, false);
        let ghost s2 = *self;
        self.dial_boot_nodes(boot_nodes_enr, disable_quic_support);
        let ghost s3 = *self;
        self.use_addrs(boot_nodes_multiaddr, AddrFilter::TcpOnly, false);
        let ghost s4 = *self;
        let ghost p1 = c.trusted_peers@.map_values(ex);
        let ghost p2 = p1 + addr_steps(c.libp2p_nodes@, AddrFilter::All, false);
        let ghost p3 = p2 + boot_steps(c.boot_nodes_enr@, disable_quic_support);
        let ghost prefix = p3 + addr_steps(c.boot_nodes_multiaddr@, AddrFilter::TcpOnly, false);
        proof {
            lemma_carried_out_concat(&o, &s1, &s2, p1, addr_steps(c.libp2p_nodes@, AddrFilter::All, false));
            lemma_carried_out_concat(&o, &s2, &s3, p2, boot_steps(c.boot_nodes_enr@, disable_quic_support));
            lemma_carried_out_concat(&o, &s3, &s4, p3, addr_steps(c.boot_nodes_multiaddr@, AddrFilter::TcpOnly, false));
        }
        let ghost sub_step = |t: GossipTopic| StartStep::Subscribe(t);
        self.subscribe_kinds(&topics);
        proof {
            lemma_carried_out_concat(&o, &s4, self, prefix, topics_of(c.topics@, d).map_values(sub_step));
            assert(prefix + topics_of(c.topics@, d).map_values(sub_step) =~= start_steps(c, d));
        }
        Ok(())
    }
}

} // verus!
