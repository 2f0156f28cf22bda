use vstd::prelude::*;

verus! {

/// Identity of a remote node: a handle that the transport maps one for one to
/// its peer id.
#[derive(Clone, Copy, Debug, PartialEq, Eq, Hash, Structural)]
pub struct PeerId(pub u64);

/// A consensus fork, in activation order.
#[derive(Clone, Copy, Debug, PartialEq, Eq, Hash, Structural)]
pub enum ForkName {
    Base,
    Altair,
    Bellatrix,
    Capella,
    Deneb,
    Electra,
    Fulu,
}

/// What a gossip topic carries. Subnet-indexed kinds hold their subnet id.
#[derive(Clone, Copy, Debug, PartialEq, Eq, Hash, Structural)]
pub enum GossipKind {
    BeaconBlock,
    BeaconAggregateAndProof,
    Attestation(u64),
    SyncCommitteeMessage(u64),
    SignedContributionAndProof,
    VoluntaryExit,
    ProposerSlashing,
    AttesterSlashing,
    BlsToExecutionChange,
    BlobSidecar(u64),
    DataColumnSidecar(u64),
    LightClientFinalityUpdate,
    LightClientOptimisticUpdate,
}

/// The encoding applied to gossip payloads.
#[derive(Clone, Copy, Debug, PartialEq, Eq, Hash, Structural)]
pub enum GossipEncoding {
    SszSnappy,
}

/// A sharded topic domain, indexed by subnet id.
#[derive(Clone, Copy, Debug, PartialEq, Eq, Hash, Structural)]
pub enum Subnet {
    Attestation(u64),
    SyncCommittee(u64),
    DataColumn(u64),
}

/// A gossip topic: a kind, an encoding and the fork digest it is scoped to.
#[derive(Clone, Copy, Debug, Eq, Hash)]
pub struct GossipTopic {
    pub kind: GossipKind,
    pub encoding: GossipEncoding,
    pub fork_digest: [u8; 4],
}

impl GossipTopic {
    pub fn new(kind: GossipKind, encoding: GossipEncoding, fork_digest: [u8; 4]) -> (r: GossipTopic)
        ensures
            r == (GossipTopic { kind, encoding, fork_digest }),
    {
        GossipTopic { kind, encoding, fork_digest }
    }

    pub fn kind(&self) -> (r: GossipKind)
        ensures
            r == self.kind,
    {
        self.kind
    }

    /// The subnet a topic belongs to, for attestation and sync-committee topics.
    pub open spec fn spec_subnet_id(self) -> Option<Subnet> {
        match self.kind {
            GossipKind::Attestation(i) => Some(Subnet::Attestation(i)),
            GossipKind::SyncCommitteeMessage(i) => Some(Subnet::SyncCommittee(i)),
            _ => None,
        }
    }

    pub fn subnet_id(&self) -> (r: Option<Subnet>)
        ensures
            r == self.spec_subnet_id(),
    {
        match self.kind {
            GossipKind::Attestation(i) => Some(Subnet::Attestation(i)),
            GossipKind::SyncCommitteeMessage(i) => Some(Subnet::SyncCommittee(i)),
            _ => None,
        }
    }
}

/// Whether two fork digests are equal, byte by byte.
pub fn digest_eq(a: &[u8; 4], b: &[u8; 4]) -> (r: bool)
    ensures
        r == (*a == *b),
{
    let r = a[0] == b[0] && a[1] == b[1] && a[2] == b[2] && a[3] == b[3];
    proof {
        if r {
            assert(a@ =~= b@);
            assert(*a =~= *b);
        }
    }
    r
}

impl PartialEq for GossipTopic {
    fn eq(&self, o: &GossipTopic) -> (r: bool) {
        self.kind == o.kind && self.encoding == o.encoding && digest_eq(&self.fork_digest, &o.fork_digest)
    }
}

impl vstd::std_specs::cmp::PartialEqSpecImpl for GossipTopic {
    open spec fn obeys_eq_spec() -> bool {
        true
    }

    open spec fn eq_spec(&self, o: &GossipTopic) -> bool {
        *self == *o
    }
}

/// The fork identity advertised in the local node record.
#[derive(Clone, Copy, Debug, PartialEq, Eq, Hash)]
pub struct EnrForkId {
    pub fork_digest: [u8; 4],
    pub next_fork_version: [u8; 4],
    pub next_fork_epoch: u64,
}

/// A node record as far as this layer reads it: its peer, the subnets its
/// bitfields advertise, and its encoded form.
#[derive(Clone, Debug, PartialEq, Eq)]
pub struct Enr {
    pub peer_id: PeerId,
    pub subnets: Vec<Subnet>,
    pub record: Vec<u8>,
}

/// An IP address of a peer.
#[derive(Clone, Copy, Debug, PartialEq, Eq, Hash)]
pub enum IpAddr {
    V4([u8; 4]),
    V6([u8; 16]),
}

/// One component of a multiaddress.
#[derive(Clone, Debug, PartialEq, Eq)]
pub enum AddrProtocol {
    Ip4([u8; 4]),
    Ip6([u8; 16]),
    Tcp(u16),
    Udp(u16),
    QuicV1,
    P2p(PeerId),
    /// Any other component, in its binary encoding.
    Other(Vec<u8>),
}

/// A multiaddress, as its list of components.
#[derive(Clone, Debug, PartialEq, Eq)]
pub struct Multiaddr {
    pub protocols: Vec<AddrProtocol>,
}

/// A request to find peers on a subnet, kept for at least `min_ttl` (an instant).
#[derive(Clone, Copy, Debug, PartialEq, Eq)]
pub struct SubnetDiscovery {
    pub subnet: Subnet,
    pub min_ttl: Option<u64>,
}

/// The local node's metadata, as advertised to peers. Bit `i` of a bitfield
/// is set when the node serves subnet `i`.
#[derive(Clone, Copy, Debug, PartialEq, Eq, Hash, Structural)]
pub struct MetaData {
    pub seq_number: u64,
    pub attnets: u64,
    /// Absent in the first metadata version.
    pub syncnets: Option<u8>,
    /// Present only where peer-DAS is scheduled.
    pub custody_group_count: Option<u64>,
}

/// The verdict of the application on a gossip message.
#[derive(Clone, Copy, Debug, PartialEq, Eq, Hash, Structural)]
pub enum MessageAcceptance {
    Accept,
    Ignore,
    Reject,
}

/// The weight of a reputation report.
#[derive(Clone, Copy, Debug, PartialEq, Eq, Hash, Structural)]
pub enum PeerAction {
    Fatal,
    LowToleranceError,
    MidToleranceError,
    HighToleranceError,
}

/// The subsystem a reputation report comes from.
#[derive(Clone, Copy, Debug, PartialEq, Eq, Hash, Structural)]
pub enum ReportSource {
    Gossipsub,
    RPC,
    Processor,
    SyncService,
    PeerManager,
}

/// The reason given in a Goodbye message.
#[derive(Clone, Copy, Debug, PartialEq, Eq, Hash, Structural)]
pub enum GoodbyeReason {
    ClientShutdown,
    IrrelevantNetwork,
    Fault,
    UnableToVerifyNetwork,
    TooManyPeers,
    BadScore,
    Banned,
    BannedIP,
    Unknown,
}

/// The direction of the stream on which an RPC error happened.
#[derive(Clone, Copy, Debug, PartialEq, Eq, Hash, Structural)]
pub enum ConnectionDirection {
    Incoming,
    Outgoing,
}

} // verus!
