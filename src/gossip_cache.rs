use vstd::prelude::*;

use crate::types::{GossipKind, GossipTopic};

verus! {

broadcast use vstd::seq_lib::group_seq_properties;

/// How long each kind of message is kept for a later retry, in milliseconds.
/// `None` means that the kind is never kept.
#[derive(Clone, Copy, Debug, PartialEq, Eq)]
pub struct CacheTimeouts {
    pub beacon_block: Option<u64>,
    pub aggregates: Option<u64>,
    pub attestation: Option<u64>,
    pub voluntary_exit: Option<u64>,
    pub proposer_slashing: Option<u64>,
    pub attester_slashing: Option<u64>,
    pub signed_contribution_and_proof: Option<u64>,
    pub sync_committee_message: Option<u64>,
    pub bls_to_execution_change: Option<u64>,
    pub blob_sidecar: Option<u64>,
    pub data_column_sidecar: Option<u64>,
    pub light_client_finality_update: Option<u64>,
    pub light_client_optimistic_update: Option<u64>,
}

impl CacheTimeouts {
    pub open spec fn spec_timeout(self, kind: GossipKind) -> Option<u64> {
        match kind {
            GossipKind::BeaconBlock => self.beacon_block,
            GossipKind::BeaconAggregateAndProof => self.aggregates,
            GossipKind::Attestation(_) => self.attestation,
            GossipKind::SyncCommitteeMessage(_) => self.sync_committee_message,
            GossipKind::SignedContributionAndProof => self.signed_contribution_and_proof,
            GossipKind::VoluntaryExit => self.voluntary_exit,
            GossipKind::ProposerSlashing => self.proposer_slashing,
            GossipKind::AttesterSlashing => self.attester_slashing,
            GossipKind::BlsToExecutionChange => self.bls_to_execution_change,
            GossipKind::BlobSidecar(_) => self.blob_sidecar,
            GossipKind::DataColumnSidecar(_) => self.data_column_sidecar,
            GossipKind::LightClientFinalityUpdate => self.light_client_finality_update,
            GossipKind::LightClientOptimisticUpdate => self.light_client_optimistic_update,
        }
    }

    /// The retention time configured for a kind.
    pub fn timeout(&self, kind: GossipKind) -> (r: Option<u64>)
        ensures
            r == self.spec_timeout(kind),
    {
        match kind {
            GossipKind::BeaconBlock => self.beacon_block,
            GossipKind::BeaconAggregateAndProof => self.aggregates,
            GossipKind::Attestation(_) => self.attestation,
            GossipKind::SyncCommitteeMessage(_) => self.sync_committee_message,
            GossipKind::SignedContributionAndProof => self.signed_contribution_and_proof,
            GossipKind::VoluntaryExit => self.voluntary_exit,
            GossipKind::ProposerSlashing => self.proposer_slashing,
            GossipKind::AttesterSlashing => self.attester_slashing,
            GossipKind::BlsToExecutionChange => self.bls_to_execution_change,
            GossipKind::BlobSidecar(_) => self.blob_sidecar,
            GossipKind::DataColumnSidecar(_) => self.data_column_sidecar,
            GossipKind::LightClientFinalityUpdate => self.light_client_finality_update,
            GossipKind::LightClientOptimisticUpdate => self.light_client_optimistic_update,
        }
    }
}

/// A payload waiting for a retry, as a mathematical value.
pub struct CachedMessage {
    pub topic: GossipTopic,
    pub data: Seq<u8>,
    pub expires_at: u64,
}

/// A payload waiting for a retry.
#[derive(Debug)]
pub struct CacheEntry {
    pub topic: GossipTopic,
    pub data: Vec<u8>,
    /// The instant (in milliseconds) from which the entry is expired.
    pub expires_at: u64,
}

impl View for CacheEntry {
    type V = CachedMessage;

    open spec fn view(&self) -> CachedMessage {
        CachedMessage { topic: self.topic, data: self.data@, expires_at: self.expires_at }
    }
}

impl CacheEntry {
    fn copy(&self) -> (r: CacheEntry)
        ensures
            r@ == self@,
    {
        let data = self.data.clone();
        assert(data@ =~= self.data@);
        CacheEntry { topic: self.topic, data, expires_at: self.expires_at }
    }
}

/// Whether two byte strings are equal.
pub fn bytes_eq(a: &Vec<u8>, b: &Vec<u8>) -> (r: bool)
    ensures
        r == (a@ == b@),
{
    if a.len() != b.len() {
        return false;
    }
    let mut i: usize = 0;
    while i < a.len()
        invariant
            a@.len() == b@.len(),
            i <= a@.len(),
            forall|j: int| 0 <= j < i ==> a@[j] == b@[j],
        decreases a@.len() - i,
    {
        if a[i] != b[i] {
            return false;
        }
        i = i + 1;
    }
    assert(a@ =~= b@);
    true
}

/// The instant at which an entry made at `now` with retention `ttl` expires
/// (saturating at the largest instant).
pub open spec fn expiry(now: u64, ttl: u64) -> u64 {
    if now + ttl <= u64::MAX {
        (now + ttl) as u64
    } else {
        u64::MAX
    }
}

/// An entry that has not expired at `now`.
pub open spec fn is_live(e: CachedMessage, now: u64) -> bool {
    now < e.expires_at
}

/// The entries of `s` on another topic than `topic`.
pub open spec fn without_topic(s: Seq<CachedMessage>, topic: GossipTopic) -> Seq<CachedMessage> {
    s.filter(|e: CachedMessage| e.topic != topic)
}

/// The payloads of the live entries of `s` on `topic`, in order.
pub open spec fn live_payloads(s: Seq<CachedMessage>, topic: GossipTopic, now: u64) -> Seq<Seq<u8>> {
    s.filter_map(
        |e: CachedMessage|
            if e.topic == topic && is_live(e, now) {
                Some(e.data)
            } else {
                None
            },
    )
}

/// The entries of `s` still live at `now`.
pub open spec fn live_entries(s: Seq<CachedMessage>, now: u64) -> Seq<CachedMessage> {
    s.filter(|e: CachedMessage| is_live(e, now))
}

/// The topics of the entries of `s` that are expired at `now`, in order.
pub open spec fn expired_topics(s: Seq<CachedMessage>, now: u64) -> Seq<GossipTopic> {
    s.filter_map(|e: CachedMessage| if is_live(e, now) { None } else { Some(e.topic) })
}

/// The number of entries of `s` on `topic`.
pub open spec fn count_on_topic(s: Seq<CachedMessage>, topic: GossipTopic) -> nat {
    s.filter(|e: CachedMessage| e.topic == topic).len()
}

/// Whether `s` holds an entry for this topic and payload.
pub open spec fn holds_key(s: Seq<CachedMessage>, topic: GossipTopic, data: Seq<u8>) -> bool {
    exists|i: int| 0 <= i < s.len() && s[i].topic == topic && s[i].data == data
}

/// The cache after keeping `data` on `topic` with retention `ttl` at `now`: an
/// equal payload on the same topic gets the new expiry in place, another one
/// is appended.
pub open spec fn spec_insert(
    s: Seq<CachedMessage>,
    topic: GossipTopic,
    data: Seq<u8>,
    ttl: u64,
    now: u64,
) -> Seq<CachedMessage> {
    let e = CachedMessage { topic, data, expires_at: expiry(now, ttl) };
    if holds_key(s, topic, data) {
        let i = choose|i: int| 0 <= i < s.len() && s[i].topic == topic && s[i].data == data;
        s.update(i, e)
    } else {
        s.push(e)
    }
}

/// No two entries of `s` hold the same payload on the same topic.
pub open spec fn unique_keys(s: Seq<CachedMessage>) -> bool {
    forall|i: int, j: int|
        0 <= i < j < s.len() ==> !(#[trigger] s[i].topic == #[trigger] s[j].topic && s[i].data
            == s[j].data)
}

/// Every element of `t` is among the first `n` elements of `s`.
pub open spec fn drawn_from(t: Seq<CachedMessage>, s: Seq<CachedMessage>, n: int) -> bool {
    forall|k: int| 0 <= k < t.len() ==> exists|j: int| 0 <= j < n && #[trigger] t[k] == s[j]
}

/// Appending an element of `s` that comes after everything `t` was drawn from
/// keeps the keys of `t` unique.
proof fn lemma_push_unique(t: Seq<CachedMessage>, s: Seq<CachedMessage>, i: int)
    requires
        unique_keys(s),
        unique_keys(t),
        drawn_from(t, s, i),
        0 <= i < s.len(),
    ensures
        unique_keys(t.push(s[i])),
        drawn_from(t.push(s[i]), s, i + 1),
{
    let u = t.push(s[i]);
    assert forall|a: int, b: int| 0 <= a < b < u.len() implies !(#[trigger] u[a].topic
        == #[trigger] u[b].topic && u[a].data == u[b].data) by {
        if b == t.len() {
            let j = choose|j: int| 0 <= j < i && #[trigger] t[a] == s[j];
            assert(u[a] == s[j]);
            assert(!(s[j].topic == s[i].topic && s[j].data == s[i].data));
        } else {
            assert(u[a] == t[a] && u[b] == t[b]);
        }
    }
    assert forall|k: int| 0 <= k < u.len() implies exists|j: int|
        0 <= j < i + 1 && #[trigger] u[k] == s[j] by {
        if k == t.len() {
            assert(u[k] == s[i]);
        } else {
            let j = choose|j: int| 0 <= j < i && #[trigger] t[k] == s[j];
            assert(u[k] == s[j]);
        }
    }
}

/// Messages that failed to publish for lack of peers, kept per topic until
/// they are retried or expire.
#[derive(Debug)]
pub struct GossipCache {
    pub timeouts: CacheTimeouts,
    pub entries: Vec<CacheEntry>,
}

impl View for GossipCache {
    type V = Seq<CachedMessage>;

    open spec fn view(&self) -> Seq<CachedMessage> {
        self.entries@.map_values(|e: CacheEntry| e@)
    }
}

impl GossipCache {
    /// No two entries hold the same payload on the same topic.
    pub open spec fn wf(&self) -> bool {
        unique_keys(self@)
    }

    pub fn new(timeouts: CacheTimeouts) -> (r: GossipCache)
        ensures
            r.wf(),
            r@ == Seq::<CachedMessage>::empty(),
            r.timeouts == timeouts,
    {
        let r = GossipCache { timeouts, entries: Vec::new() };
        assert(r@ =~= Seq::<CachedMessage>::empty());
        r
    }

    pub fn len(&self) -> (r: usize)
        ensures
            r == self@.len(),
    {
        self.entries.len()
    }

    /// Keeps `data` for a retry on `topic` if the topic's kind has a retention
    /// time; drops it otherwise.
    pub fn insert(&mut self, topic: GossipTopic, data: Vec<u8>, now: u64)
        requires
            old(self).wf(),
        ensures
            final(self).wf(),
            final(self).timeouts == old(self).timeouts,
            match old(self).timeouts.spec_timeout(topic.kind) {
                None => final(self)@ == old(self)@,
                Some(ttl) => final(self)@ == spec_insert(old(self)@, topic, data@, ttl, now),
            },
    {
        let ttl = match self.timeouts.timeout(topic.kind) {
            None => return ,
            Some(t) => t,
        };
        let expires_at = if now <= u64::MAX - ttl {
            now + ttl
        } else {
            u64::MAX
        };
        let ghost s = self@;
        let mut found: Option<usize> = None;
        let mut i: usize = 0;
        while i < self.entries.len()
            invariant
                s == self@,
                i <= self@.len(),
                found.is_none() ==> forall|j: int|
                    0 <= j < i ==> !(self@[j].topic == topic && self@[j].data == data@),
                found.is_some() ==> ({
                    let k = found.unwrap() as int;
                    0 <= k < i && self@[k].topic == topic && self@[k].data == data@
                }),
            decreases self@.len() - i,
        {
            if found.is_none() && self.entries[i].topic == topic && bytes_eq(
                &self.entries[i].data,
                &data,
            ) {
                found = Some(i);
            }
            i = i + 1;
        }
        let ghost e = CachedMessage { topic, data: data@, expires_at };
        match found {
            Some(k) => {
                proof {
                    let c = choose|c: int|
                        0 <= c < s.len() && s[c].topic == topic && s[c].data == data@;
                    if c != k as int {
                        if c < k as int {
                            assert(s[c].topic == s[k as int].topic);
                        } else {
                            assert(s[k as int].topic == s[c].topic);
                        }
                    }
                }
                self.entries.set(k, CacheEntry { topic, data, expires_at });
                assert(self@ =~= s.update(k as int, e));
            },
            None => {
                self.entries.push(CacheEntry { topic, data, expires_at });
                assert(self@ =~= s.push(e));
                assert(!holds_key(s, topic, e.data));
            },
        }
    }

    /// Takes every entry of `topic` out of the cache and returns the payloads
    /// of those still live at `now`, in insertion order.
    pub fn retrieve(&mut self, topic: &GossipTopic, now: u64) -> (r: Vec<Vec<u8>>)
        requires
            old(self).wf(),
        ensures
            final(self).wf(),
            final(self).timeouts == old(self).timeouts,
            final(self)@ == without_topic(old(self)@, *topic),
            r@.map_values(|v: Vec<u8>| v@) == live_payloads(old(self)@, *topic, now),
    {
        let ghost s = self@;
        let mut kept: Vec<CacheEntry> = Vec::new();
        let mut out: Vec<Vec<u8>> = Vec::new();
        let mut i: usize = 0;
        while i < self.entries.len()
            invariant
                s == self@,
                i <= s.len(),
                unique_keys(s),
                unique_keys(kept@.map_values(|e: CacheEntry| e@)),
                drawn_from(kept@.map_values(|e: CacheEntry| e@), s, i as int),
                kept@.map_values(|e: CacheEntry| e@) == without_topic(s.take(i as int), *topic),
                out@.map_values(|v: Vec<u8>| v@) == live_payloads(s.take(i as int), *topic, now),
            decreases s.len() - i,
        {
            let ghost p = |e: CachedMessage| e.topic != *topic;
            let ghost f = |e: CachedMessage|
                if e.topic == *topic && is_live(e, now) {
                    Some(e.data)
                } else {
                    None
                };
            proof {
                assert(s.take(i + 1) =~= s.take(i as int).push(s[i as int]));
                s.take(i as int).lemma_filter_push(s[i as int], p);
                s.lemma_filter_map_take_succ(f, i as int);
            }
            let e = &self.entries[i];
            if e.topic != *topic {
                proof {
                    lemma_push_unique(kept@.map_values(|e: CacheEntry| e@), s, i as int);
                }
                kept.push(e.copy());
                assert(kept@.map_values(|e: CacheEntry| e@) =~= without_topic(
                    s.take(i as int),
                    *topic,
                ).push(s[i as int]));
            } else if now < e.expires_at {
                let d = e.data.clone();
                assert(d@ =~= e.data@);
                out.push(d);
                assert(out@.map_values(|v: Vec<u8>| v@) =~= live_payloads(
                    s.take(i as int),
                    *topic,
                    now,
                ).push(s[i as int].data));
            }
            i = i + 1;
        }
        assert(s.take(s.len() as int) =~= s);
        self.entries = kept;
        out
    }

    /// Drops the entries expired at `now` and returns their topics, in
    /// insertion order.
    pub fn expire(&mut self, now: u64) -> (r: Vec<GossipTopic>)
        requires
            old(self).wf(),
        ensures
            final(self).wf(),
            final(self).timeouts == old(self).timeouts,
            final(self)@ == live_entries(old(self)@, now),
            r@ == expired_topics(old(self)@, now),
    {
        let ghost s = self@;
        let mut kept: Vec<CacheEntry> = Vec::new();
        let mut out: Vec<GossipTopic> = Vec::new();
        let mut i: usize = 0;
        while i < self.entries.len()
            invariant
                s == self@,
                i <= s.len(),
                unique_keys(s),
                unique_keys(kept@.map_values(|e: CacheEntry| e@)),
                drawn_from(kept@.map_values(|e: CacheEntry| e@), s, i as int),
                kept@.map_values(|e: CacheEntry| e@) == live_entries(s.take(i as int), now),
                out@ == expired_topics(s.take(i as int), now),
            decreases s.len() - i,
        {
            let ghost p = |e: CachedMessage| is_live(e, now);
            let ghost f = |e: CachedMessage|
                if is_live(e, now) {
                    None
                } else {
                    Some(e.topic)
                };
            proof {
                assert(s.take(i + 1) =~= s.take(i as int).push(s[i as int]));
                s.take(i as int).lemma_filter_push(s[i as int], p);
                s.lemma_filter_map_take_succ(f, i as int);
            }
            let e = &self.entries[i];
            if now < e.expires_at {
                proof {
                    lemma_push_unique(kept@.map_values(|e: CacheEntry| e@), s, i as int);
                }
                kept.push(e.copy());
                assert(kept@.map_values(|e: CacheEntry| e@) =~= live_entries(
                    s.take(i as int),
                    now,
                ).push(s[i as int]));
            } else {
                out.push(e.topic);
                assert(out@ =~= expired_topics(s.take(i as int), now).push(s[i as int].topic));
            }
            i = i + 1;
        }
        assert(s.take(s.len() as int) =~= s);
        self.entries = kept;
        out
    }
}

} // verus!
