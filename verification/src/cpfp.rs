//! Fee bumping of force-closed channels: which attempts are tracked, and what is done for each.

use vstd::prelude::*;
use vstd::string::*;

use crate::spending::{is_transaction, transaction_id, txid_of};
use crate::text::{copy, copy_opt, join5, same, text};

verus! {

/// How many attempts a node keeps track of.
pub const MAX_TRACKED_CPFP_ATTEMPTS_PER_NODE: usize = 64;

/// One fee-bumping attempt for a closed channel.
#[derive(Clone, Debug, PartialEq, Eq)]
pub struct ChannelCloseBumpRecord {
    pub backend: String,
    pub channel_id: String,
    pub child_txid: Option<String>,
    pub claim_id: String,
    pub commitment_txid: String,
    pub created_at: u64,
    pub last_error: Option<String>,
    pub peer_pubkey: String,
    pub status: String,
    pub target_feerate_sat_per_1000_weight: u32,
    pub updated_at: u64,
}

impl ChannelCloseBumpRecord {
    /// A copy of the record.
    pub fn duplicate(&self) -> (r: Self)
        ensures
            r == *self,
    {
        ChannelCloseBumpRecord {
            backend: copy(&self.backend),
            channel_id: copy(&self.channel_id),
            child_txid: copy_opt(&self.child_txid),
            claim_id: copy(&self.claim_id),
            commitment_txid: copy(&self.commitment_txid),
            created_at: self.created_at,
            last_error: copy_opt(&self.last_error),
            peer_pubkey: copy(&self.peer_pubkey),
            status: copy(&self.status),
            target_feerate_sat_per_1000_weight: self.target_feerate_sat_per_1000_weight,
            updated_at: self.updated_at,
        }
    }
}

/// A record under the key of its attempt.
pub type Attempt = (String, ChannelCloseBumpRecord);

/// The characters of an attempt's key.
pub open spec fn key_of(channel_id: Seq<char>, commitment_txid: Seq<char>, claim_id: Seq<char>) -> Seq<
    char,
> {
    channel_id + ":"@ + commitment_txid + ":"@ + claim_id
}

/// The key under which an attempt is tracked.
pub fn attempt_key(channel_id: &str, commitment_txid: &str, claim_id: &str) -> (r: String)
    ensures
        r@ == key_of(channel_id@, commitment_txid@, claim_id@),
{
    join5(channel_id, ":", commitment_txid, ":", claim_id)
}

// ---------------------------------------------------------------------------------------------
// The table of attempts
// ---------------------------------------------------------------------------------------------

/// No attempt is tracked twice.
pub open spec fn unique(s: Seq<Attempt>) -> bool {
    forall|i: int, j: int| 0 <= i < j < s.len() ==> (#[trigger] s[i]).0@ != (#[trigger] s[j]).0@
}

/// Whether an attempt is tracked.
pub open spec fn tracks(s: Seq<Attempt>, key: Seq<char>) -> bool {
    exists|i: int| 0 <= i < s.len() && (#[trigger] s[i]).0@ == key
}

/// Where an attempt stands in the table; the table's length where it does not.
pub open spec fn index_of(s: Seq<Attempt>, key: Seq<char>) -> int
    decreases s.len(),
{
    if s.len() == 0 {
        0
    } else if s[0].0@ == key {
        0
    } else {
        1 + index_of(s.drop_first(), key)
    }
}

proof fn lemma_index_of(s: Seq<Attempt>, key: Seq<char>)
    ensures
        0 <= index_of(s, key) <= s.len(),
        index_of(s, key) < s.len() ==> s[index_of(s, key)].0@ == key,
        forall|i: int| 0 <= i < index_of(s, key) ==> (#[trigger] s[i]).0@ != key,
        tracks(s, key) <==> index_of(s, key) < s.len(),
    decreases s.len(),
{
    if s.len() > 0 && s[0].0@ != key {
        lemma_index_of(s.drop_first(), key);
        assert forall|i: int| 0 <= i < index_of(s, key) implies (#[trigger] s[i]).0@ != key by {
            if i > 0 {
                assert(s[i] == s.drop_first()[i - 1]);
            }
        }
    }
}

fn find(records: &Vec<Attempt>, key: &str) -> (r: usize)
    ensures
        r == index_of(records@, key@),
        r <= records.len(),
{
    let mut i: usize = 0;
    while i < records.len() && !same(records[i].0.as_str(), key)
        invariant
            i <= records.len(),
            forall|k: int| 0 <= k < i ==> (#[trigger] records@[k]).0@ != key@,
        decreases records.len() - i,
    {
        i = i + 1;
    }
    proof {
        lemma_index_of(records@, key@);
        let n = index_of(records@, key@);
        if n < i {
            assert(records@[n].0@ != key@);
        }
    }
    i
}

/// Copies a table.
pub fn copy_records(records: &Vec<Attempt>) -> (r: Vec<Attempt>)
    ensures
        r@ == records@,
{
    let mut out: Vec<Attempt> = Vec::new();
    let mut i: usize = 0;
    while i < records.len()
        invariant
            i <= records.len(),
            out@ == records@.take(i as int),
        decreases records.len() - i,
    {
        out.push((copy(&records[i].0), records[i].1.duplicate()));
        i = i + 1;
        assert(records@.take(i as int) =~= records@.take(i - 1).push(records@[i - 1]));
    }
    assert(records@.take(i as int) =~= records@);
    out
}

// ---------------------------------------------------------------------------------------------
// Pruning
// ---------------------------------------------------------------------------------------------

/// Whether a record is older than another: by its last update, then by its creation.
pub open spec fn older(a: ChannelCloseBumpRecord, b: ChannelCloseBumpRecord) -> bool {
    a.updated_at < b.updated_at || (a.updated_at == b.updated_at && a.created_at < b.created_at)
}

/// Whether an attempt is the protected one.
pub open spec fn is_protected(t: Attempt, protected_key: Option<Seq<char>>) -> bool {
    protected_key == Some(t.0@)
}

/// The first of the oldest records that are not protected.
pub open spec fn oldest(s: Seq<Attempt>, protected_key: Option<Seq<char>>) -> Option<int>
    decreases s.len(),
{
    if s.len() == 0 {
        None
    } else {
        let rest = oldest(s.drop_last(), protected_key);
        if is_protected(s.last(), protected_key) {
            rest
        } else {
            match rest {
                None => Some(s.len() - 1),
                Some(i) => if older(s.last().1, s[i].1) {
                    Some(s.len() - 1)
                } else {
                    Some(i)
                },
            }
        }
    }
}

/// The table with its oldest records dropped until it is small enough; the protected attempt is
/// never dropped.
pub open spec fn pruned(s: Seq<Attempt>, protected_key: Option<Seq<char>>) -> Seq<Attempt>
    decreases s.len(),
{
    if s.len() <= MAX_TRACKED_CPFP_ATTEMPTS_PER_NODE {
        s
    } else {
        match oldest(s, protected_key) {
            Some(i) => if 0 <= i < s.len() {
                pruned(s.remove(i), protected_key)
            } else {
                s
            },
            None => s,
        }
    }
}

proof fn lemma_oldest(s: Seq<Attempt>, protected_key: Option<Seq<char>>)
    ensures
        match oldest(s, protected_key) {
            None => forall|k: int| 0 <= k < s.len() ==> is_protected(#[trigger] s[k], protected_key),
            Some(i) => {
                &&& 0 <= i < s.len()
                &&& !is_protected(s[i], protected_key)
                &&& forall|k: int|
                    0 <= k < s.len() && !is_protected(#[trigger] s[k], protected_key) ==> !older(
                        s[k].1,
                        s[i].1,
                    )
            },
        },
    decreases s.len(),
{
    if s.len() > 0 {
        let rest = s.drop_last();
        lemma_oldest(rest, protected_key);
        assert forall|k: int| 0 <= k < s.len() - 1 implies s[k] == #[trigger] rest[k] by {}
        match oldest(s, protected_key) {
            None => {
                assert forall|k: int| 0 <= k < s.len() implies is_protected(
                    #[trigger] s[k],
                    protected_key,
                ) by {
                    if k < s.len() - 1 {
                        assert(rest[k] == s[k]);
                    }
                }
            },
            Some(i) => {
                assert forall|k: int|
                    0 <= k < s.len() && !is_protected(
                        #[trigger] s[k],
                        protected_key,
                    ) implies !older(s[k].1, s[i].1) by {
                    if k < s.len() - 1 {
                        assert(rest[k] == s[k]);
                    }
                }
            },
        }
    }
}

fn find_oldest(records: &Vec<Attempt>, protected_key: Option<&str>) -> (r: Option<usize>)
    ensures
        match r {
            Some(i) => oldest(records@, key_view(protected_key)) == Some(i as int) && i
                < records.len(),
            None => oldest(records@, key_view(protected_key)) is None,
        },
{
    let mut best: Option<usize> = None;
    let mut i: usize = 0;
    while i < records.len()
        invariant
            i <= records.len(),
            match best {
                Some(b) => b < i && oldest(records@.take(i as int), key_view(protected_key)) == Some(
                    b as int,
                ),
                None => oldest(records@.take(i as int), key_view(protected_key)) is None,
            },
        decreases records.len() - i,
    {
        assert(records@.take(i + 1).drop_last() =~= records@.take(i as int));
        assert(records@.take(i + 1).last() == records@[i as int]);
        let protected = match protected_key {
            Some(key) => same(records[i].0.as_str(), key),
            None => false,
        };
        if !protected {
            match best {
                None => {
                    best = Some(i);
                },
                Some(b) => {
                    let a = &records[i].1;
                    let c = &records[b].1;
                    assert(records@.take(i + 1)[b as int] == records@[b as int]);
                    if a.updated_at < c.updated_at || (a.updated_at == c.updated_at && a.created_at
                        < c.created_at) {
                        best = Some(i);
                    }
                },
            }
        }
        i = i + 1;
    }
    assert(records@.take(i as int) =~= records@);
    best
}

/// The characters of an optional key.
pub open spec fn key_view(key: Option<&str>) -> Option<Seq<char>> {
    match key {
        Some(k) => Some(k@),
        None => None,
    }
}

/// Drops the oldest attempts until no more than [`MAX_TRACKED_CPFP_ATTEMPTS_PER_NODE`] are left;
/// the protected one stays.
pub fn prune_records(records: &mut Vec<Attempt>, protected_key: Option<&str>)
    ensures
        final(records)@ == pruned(old(records)@, key_view(protected_key)),
{
    let ghost goal = pruned(records@, key_view(protected_key));
    while records.len() > MAX_TRACKED_CPFP_ATTEMPTS_PER_NODE
        invariant
            goal == pruned(records@, key_view(protected_key)),
            goal == pruned(old(records)@, key_view(protected_key)),
        decreases records.len(),
    {
        match find_oldest(records, protected_key) {
            Some(i) => {
                let _ = records.remove(i);
            },
            None => {
                return;
            },
        }
    }
}

proof fn lemma_remove_keeps(s: Seq<Attempt>, i: int, key: Seq<char>)
    requires
        0 <= i < s.len(),
    ensures
        unique(s) ==> unique(s.remove(i)),
        tracks(s, key) && s[i].0@ != key ==> tracks(s.remove(i), key),
{
    let t = s.remove(i);
    if unique(s) {
        assert forall|a: int, b: int| 0 <= a < b < t.len() implies (#[trigger] t[a]).0@ != (
        #[trigger] t[b]).0@ by {
            let sa = if a < i { a } else { a + 1 };
            let sb = if b < i { b } else { b + 1 };
            assert(t[a] == s[sa] && t[b] == s[sb]);
        }
    }
    if tracks(s, key) && s[i].0@ != key {
        let k = choose|k: int| 0 <= k < s.len() && (#[trigger] s[k]).0@ == key;
        let tk = if k < i { k } else { k - 1 };
        assert(t[tk].0@ == key);
    }
}

/// The table never stays larger than the limit, keeps one record an attempt, and never loses the
/// protected attempt.
pub proof fn law_pruning_is_bounded_and_keeps_the_protected(
    s: Seq<Attempt>,
    protected_key: Option<Seq<char>>,
)
    requires
        unique(s),
    ensures
        pruned(s, protected_key).len() <= MAX_TRACKED_CPFP_ATTEMPTS_PER_NODE,
        unique(pruned(s, protected_key)),
        protected_key is Some && tracks(s, protected_key->0) ==> tracks(
            pruned(s, protected_key),
            protected_key->0,
        ),
    decreases s.len(),
{
    if s.len() > MAX_TRACKED_CPFP_ATTEMPTS_PER_NODE {
        lemma_oldest(s, protected_key);
        match oldest(s, protected_key) {
            Some(i) => {
                lemma_remove_keeps(
                    s,
                    i,
                    match protected_key {
                        Some(key) => key,
                        None => s[0].0@,
                    },
                );
                law_pruning_is_bounded_and_keeps_the_protected(s.remove(i), protected_key);
            },
            None => {
                assert(is_protected(s[0], protected_key));
                assert(is_protected(s[1], protected_key));
            },
        }
    }
}

/// A pruned record is never younger than a kept one that was not protected.
pub proof fn law_pruning_drops_the_oldest(
    s: Seq<Attempt>,
    protected_key: Option<Seq<char>>,
    dropped: int,
    kept: int,
)
    requires
        unique(s),
        0 <= dropped < s.len(),
        0 <= kept < s.len(),
        !tracks(pruned(s, protected_key), s[dropped].0@),
        tracks(pruned(s, protected_key), s[kept].0@),
        !is_protected(s[kept], protected_key),
    ensures
        !older(s[kept].1, s[dropped].1),
    decreases s.len(),
{
    if s.len() > MAX_TRACKED_CPFP_ATTEMPTS_PER_NODE {
        lemma_oldest(s, protected_key);
        match oldest(s, protected_key) {
            Some(i) => {
                if i != dropped {
                    let t = s.remove(i);
                    lemma_remove_keeps(s, i, s[0].0@);
                    if kept == i {
                        lemma_pruned_is_subset(t, protected_key, s[i].0@);
                        assert(tracks(t, s[i].0@));
                        let k = choose|k: int| 0 <= k < t.len() && (#[trigger] t[k]).0@ == s[i].0@;
                        let sk = if k < i { k } else { k + 1 };
                        assert(s[sk] == t[k]);
                        assert(false);
                    }
                    let td = if dropped < i { dropped } else { dropped - 1 };
                    let tk = if kept < i { kept } else { kept - 1 };
                    assert(t[td] == s[dropped] && t[tk] == s[kept]);
                    law_pruning_drops_the_oldest(t, protected_key, td, tk);
                }
            },
            None => {
                assert(tracks(s, s[dropped].0@));
            },
        }
    } else {
        assert(tracks(s, s[dropped].0@));
    }
}

proof fn lemma_pruned_is_subset(s: Seq<Attempt>, protected_key: Option<Seq<char>>, key: Seq<char>)
    requires
        tracks(pruned(s, protected_key), key),
    ensures
        tracks(s, key),
    decreases s.len(),
{
    if s.len() > MAX_TRACKED_CPFP_ATTEMPTS_PER_NODE {
        lemma_oldest(s, protected_key);
        match oldest(s, protected_key) {
            Some(i) => {
                let t = s.remove(i);
                lemma_pruned_is_subset(t, protected_key, key);
                let k = choose|k: int| 0 <= k < t.len() && (#[trigger] t[k]).0@ == key;
                let sk = if k < i { k } else { k + 1 };
                assert(s[sk] == t[k]);
            },
            None => {},
        }
    }
}

// ---------------------------------------------------------------------------------------------
// Events and packages
// ---------------------------------------------------------------------------------------------

/// Why no package can be submitted over an indexer.
pub open spec fn package_unavailable_reason() -> Seq<char> {
    "anchor CPFP requires a package-capable backend; indexer-backed package submission is deferred"@
}

/// A channel close that asks for a fee bump.
#[derive(Debug, PartialEq, Eq)]
pub struct ChannelCloseEvent {
    pub channel_id: String,
    pub counterparty_node_id: String,
    pub claim_id: String,
    pub commitment_txid: String,
    pub package_target_feerate_sat_per_1000_weight: u32,
}

impl ChannelCloseEvent {
    pub open spec fn key(self) -> Seq<char> {
        key_of(self.channel_id@, self.commitment_txid@, self.claim_id@)
    }

    /// The event of a closing channel, by its commitment transaction; `None` where the bytes are no
    /// transaction.
    pub fn new(
        channel_id: String,
        counterparty_node_id: String,
        claim_id: String,
        commitment_tx: &Vec<u8>,
        package_target_feerate_sat_per_1000_weight: u32,
    ) -> (r: Option<Self>)
        ensures
            r is Some <==> is_transaction(commitment_tx@),
            r matches Some(e) ==> {
                &&& e.commitment_txid@ == transaction_id(commitment_tx@)
                &&& e == (ChannelCloseEvent {
                    channel_id,
                    counterparty_node_id,
                    claim_id,
                    commitment_txid: e.commitment_txid,
                    package_target_feerate_sat_per_1000_weight,
                })
            },
    {
        match txid_of(commitment_tx) {
            Some(commitment_txid) => Some(
                ChannelCloseEvent {
                    channel_id,
                    counterparty_node_id,
                    claim_id,
                    commitment_txid,
                    package_target_feerate_sat_per_1000_weight,
                },
            ),
            None => None,
        }
    }

    /// The key of the attempt that the event starts or repeats.
    pub fn attempt(&self) -> (r: String)
        ensures
            r@ == self.key(),
    {
        attempt_key(
            self.channel_id.as_str(),
            self.commitment_txid.as_str(),
            self.claim_id.as_str(),
        )
    }

    /// A copy of the event.
    pub fn duplicate(&self) -> (r: Self)
        ensures
            r == *self,
    {
        ChannelCloseEvent {
            channel_id: copy(&self.channel_id),
            counterparty_node_id: copy(&self.counterparty_node_id),
            claim_id: copy(&self.claim_id),
            commitment_txid: copy(&self.commitment_txid),
            package_target_feerate_sat_per_1000_weight: self.package_target_feerate_sat_per_1000_weight,
        }
    }
}

/// A transaction of a package, in its consensus encoding.
#[derive(Clone, Debug, PartialEq, Eq)]
pub struct PackageTx {
    pub raw: Vec<u8>,
}

/// A built package that was not accepted yet.
#[derive(Debug)]
pub struct PendingPackage {
    pub key: String,
    pub target: u32,
    pub txs: Vec<PackageTx>,
}

/// The node's fee-bumping state.
#[derive(Debug)]
pub struct CpfpState {
    pub backend: String,
    pub package_capable: bool,
    pub records: Vec<Attempt>,
    /// The events of the attempts that were registered since the start.
    pub events: Vec<ChannelCloseEvent>,
    pub pending_packages: Vec<PendingPackage>,
}

/// The record of an attempt after an event: a new one, or the known one with what the event says.
pub open spec fn is_registered(
    r: ChannelCloseBumpRecord,
    before: Option<ChannelCloseBumpRecord>,
    backend: Seq<char>,
    event: ChannelCloseEvent,
    now: u64,
) -> bool {
    &&& r.backend@ == backend
    &&& r.claim_id@ == event.claim_id@
    &&& r.commitment_txid@ == event.commitment_txid@
    &&& r.peer_pubkey@ == event.counterparty_node_id@
    &&& r.target_feerate_sat_per_1000_weight == event.package_target_feerate_sat_per_1000_weight
    &&& r.updated_at == now
    &&& match before {
        Some(b) => r.channel_id == b.channel_id && r.child_txid == b.child_txid && r.created_at
            == b.created_at && r.last_error == b.last_error && r.status == b.status,
        None => r.channel_id@ == event.channel_id@ && r.child_txid is None && r.created_at == now
            && r.last_error is None && r.status@ == "pending"@,
    }
}

/// The table before pruning: the attempt's record replaced, or appended.
pub open spec fn is_upserted(
    t: Seq<Attempt>,
    s: Seq<Attempt>,
    backend: Seq<char>,
    event: ChannelCloseEvent,
    now: u64,
) -> bool {
    let i = index_of(s, event.key());
    if i < s.len() {
        &&& t == s.update(i, (s[i].0, t[i].1))
        &&& is_registered(t[i].1, Some(s[i].1), backend, event, now)
    } else {
        &&& t.len() == s.len() + 1
        &&& t == s.push(t.last())
        &&& t.last().0@ == event.key()
        &&& is_registered(t.last().1, None, backend, event, now)
    }
}

/// The table that registering an event leads to.
pub open spec fn is_registration(
    next: Seq<Attempt>,
    s: Seq<Attempt>,
    backend: Seq<char>,
    event: ChannelCloseEvent,
    now: u64,
) -> bool {
    exists|t: Seq<Attempt>| #[trigger]
        is_upserted(t, s, backend, event, now) && next == pruned(t, Some(event.key()))
}

/// The characters of an optional text.
pub open spec fn text_of(s: Option<String>) -> Option<Seq<char>> {
    match s {
        Some(s) => Some(s@),
        None => None,
    }
}

/// The table that an update of a tracked attempt leads to.
pub open spec fn is_update(
    t: Seq<Attempt>,
    s: Seq<Attempt>,
    key: Seq<char>,
    status: Seq<char>,
    child: Option<Seq<char>>,
    error: Option<Seq<char>>,
    now: u64,
) -> bool {
    let i = index_of(s, key);
    &&& t == s.update(i, (s[i].0, t[i].1))
    &&& t[i].1.status@ == status
    &&& text_of(t[i].1.child_txid) == child
    &&& text_of(t[i].1.last_error) == error
    &&& t[i].1 == (ChannelCloseBumpRecord {
        child_txid: t[i].1.child_txid,
        last_error: t[i].1.last_error,
        status: t[i].1.status,
        updated_at: now,
        ..s[i].1
    })
}

/// What a state becomes when a registration is taken over.
pub open spec fn takes_over(
    before: CpfpState,
    after: CpfpState,
    event: ChannelCloseEvent,
    next: Vec<Attempt>,
) -> bool {
    &&& after.records == next
    &&& after.events@ == other_events(before.events@, next@, event.key()).push(event)
    &&& after.pending_packages@ == retained(before.pending_packages@, next@)
    &&& packages_tracked(after.pending_packages@, next@)
    &&& after.backend == before.backend
    &&& after.package_capable == before.package_capable
}

/// Whether two states are the same but for their packages.
pub open spec fn same_but_packages(before: CpfpState, after: CpfpState) -> bool {
    &&& after.records == before.records
    &&& after.events == before.events
    &&& after.backend == before.backend
    &&& after.package_capable == before.package_capable
}

/// What a state becomes when the package of an attempt is forgotten.
pub open spec fn forgets_package(before: CpfpState, after: CpfpState, key: Seq<char>) -> bool {
    same_but_packages(before, after) && after.pending_packages@ == other_packages(
        before.pending_packages@,
        key,
    )
}

/// What a state becomes when a package was built for an attempt: one with a child is remembered.
pub open spec fn remembers_package(
    before: CpfpState,
    after: CpfpState,
    key: Seq<char>,
    target: u32,
    txs: Seq<PackageTx>,
) -> bool {
    &&& same_but_packages(before, after)
    &&& if txs.len() > 1 {
        let p = after.pending_packages@;
        &&& p.len() > 0
        &&& p.drop_last() == other_packages(before.pending_packages@, key)
        &&& p.last().key@ == key
        &&& p.last().target == target
        &&& same_txs(p.last().txs@, txs)
    } else {
        after.pending_packages == before.pending_packages
    }
}

/// Whether a plan is the one for a registered attempt.
pub open spec fn is_plan(state: CpfpState, key: Seq<char>, target: u32, r: AttemptPlan) -> bool {
    if !state.package_capable {
        r is BroadcastCommitment
    } else {
        match package_of(state.pending_packages@, key) {
            Some(p) => if p.target == target {
                r matches AttemptPlan::Resubmit(txs) && same_txs(txs@, p.txs@)
            } else {
                r is Construct
            },
            None => r is Construct,
        }
    }
}

/// The same attempts in the same order.
pub open spec fn same_keys(a: Seq<Attempt>, b: Seq<Attempt>) -> bool {
    &&& a.len() == b.len()
    &&& forall|i: int| 0 <= i < a.len() ==> (#[trigger] a[i]).0 == b[i].0
}

/// The event that is kept for an attempt.
pub open spec fn event_of(events: Seq<ChannelCloseEvent>, key: Seq<char>) -> Option<
    ChannelCloseEvent,
>
    decreases events.len(),
{
    if events.len() == 0 {
        None
    } else if events.last().key() == key {
        Some(events.last())
    } else {
        event_of(events.drop_last(), key)
    }
}

/// The events of the tracked attempts other than the given one.
pub open spec fn other_events(
    events: Seq<ChannelCloseEvent>,
    s: Seq<Attempt>,
    key: Seq<char>,
) -> Seq<ChannelCloseEvent> {
    events.filter(|e: ChannelCloseEvent| tracks(s, e.key()) && e.key() != key)
}

/// Whether every event belongs to a tracked attempt.
pub open spec fn events_tracked(events: Seq<ChannelCloseEvent>, s: Seq<Attempt>) -> bool {
    forall|i: int| 0 <= i < events.len() ==> tracks(s, (#[trigger] events[i]).key())
}

/// Whether every pending package belongs to a tracked attempt.
pub open spec fn packages_tracked(p: Seq<PendingPackage>, s: Seq<Attempt>) -> bool {
    forall|i: int| 0 <= i < p.len() ==> tracks(s, (#[trigger] p[i]).key@)
}

fn keep_other_events(events: &mut Vec<ChannelCloseEvent>, next: &Vec<Attempt>, key: &str)
    ensures
        final(events)@ == other_events(old(events)@, next@, key@),
{
    reveal(Seq::filter);
    let ghost all = events@;
    let ghost keep = |e: ChannelCloseEvent| tracks(next@, e.key()) && e.key() != key@;
    let mut kept: Vec<ChannelCloseEvent> = Vec::new();
    let mut rest: Vec<ChannelCloseEvent> = Vec::new();
    std::mem::swap(&mut rest, events);
    let ghost mut seen = Seq::<ChannelCloseEvent>::empty();
    while rest.len() > 0
        invariant
            keep == (|e: ChannelCloseEvent| tracks(next@, e.key()) && e.key() != key@),
            seen + rest@ =~= all,
            kept@ == seen.filter(keep),
        decreases rest@.len(),
    {
        reveal(Seq::filter);
        let ghost before = rest@;
        let event = rest.remove(0);
        assert(seen + before =~= seen.push(event) + rest@);
        let ghost longer = seen.push(event);
        assert(longer.drop_last() =~= seen);
        let attempt = event.attempt();
        let at: usize = find(next, attempt.as_str());
        proof {
            lemma_index_of(next@, event.key());
        }
        if at < next.len() && !same(attempt.as_str(), key) {
            kept.push(event);
        }
        proof {
            seen = longer;
        }
    }
    assert(seen =~= all);
    *events = kept;
}

/// The pending packages of tracked attempts.
pub open spec fn retained(p: Seq<PendingPackage>, s: Seq<Attempt>) -> Seq<PendingPackage> {
    p.filter(|x: PendingPackage| tracks(s, x.key@))
}

proof fn lemma_other_events(events: Seq<ChannelCloseEvent>, s: Seq<Attempt>, key: Seq<char>)
    ensures
        events_tracked(other_events(events, s, key), s),
    decreases events.len(),
{
    reveal(Seq::filter);
    if events.len() > 0 {
        lemma_other_events(events.drop_last(), s, key);
    }
}

proof fn lemma_retained(p: Seq<PendingPackage>, s: Seq<Attempt>)
    ensures
        packages_tracked(retained(p, s), s),
    decreases p.len(),
{
    reveal(Seq::filter);
    if p.len() > 0 {
        lemma_retained(p.drop_last(), s);
    }
}

/// The event to repeat for a channel on a peer's behalf.
pub open spec fn is_event_for(
    job: CpfpState,
    channel_id: Seq<char>,
    peer_pubkey: Seq<char>,
    r: Option<ChannelCloseEvent>,
) -> bool {
    &&& r == (match latest(job.records@, channel_id) {
                Some(record) => if record.peer_pubkey@ == peer_pubkey {
                    event_of(
                        job.events@,
                        key_of(record.channel_id@, record.commitment_txid@, record.claim_id@),
                    )
                } else {
                    None
                },
                None => None,
            })
}

/// What a written registration makes of the state, and how it is answered.
pub open spec fn is_taken_over(
    before: CpfpState,
    event: ChannelCloseEvent,
    next: Vec<Attempt>,
    written: Result<(), String>,
    after: CpfpState,
    r: Result<(), String>,
) -> bool {
    &&& r == written
    &&& written is Err ==> after == before
    &&& written is Ok ==> takes_over(before, after, event, next)
}

/// What a written update makes of the state, and how it is answered.
pub open spec fn is_update_taken(
    before: CpfpState,
    next: Vec<Attempt>,
    written: Result<(), String>,
    after: CpfpState,
    r: Result<
        (),
        String,
    >,
) -> bool {
    &&& r == written
    &&& written is Err ==> after == before
    &&& written is Ok ==> after == (CpfpState { records: next, ..before })
}

impl CpfpState {
    /// One record an attempt, no more attempts than are tracked, and events of tracked attempts only.
    pub open spec fn wf(self) -> bool {
        &&& unique(self.records@)
        &&& self.records@.len() <= MAX_TRACKED_CPFP_ATTEMPTS_PER_NODE
        &&& events_tracked(self.events@, self.records@)
    }

    /// The state that a stored table is loaded into: every record under the key of its own attempt,
    /// later ones replacing earlier ones, pruned.
    pub fn load(
        stored: Vec<ChannelCloseBumpRecord>,
        package_capable: bool,
        backend: &str,
    ) -> (r: Self)
        ensures
            r.wf(),
            r.package_capable == package_capable,
            r.backend@ == backend@,
            r.events@.len() == 0,
            r.pending_packages@.len() == 0,
            exists|t: Seq<Attempt>| #[trigger]
                table(t) == rekeyed(stored@) && r.records@ == pruned(t, None),
    {
        let mut records: Vec<Attempt> = Vec::new();
        let mut i: usize = 0;
        assert(table(records@) =~= rekeyed(stored@.take(0)));
        while i < stored.len()
            invariant
                i <= stored.len(),
                table(records@) == rekeyed(stored@.take(i as int)),
                unique(records@),
            decreases stored.len() - i,
        {
            let record = stored[i].duplicate();
            let key = attempt_key(
                record.channel_id.as_str(),
                record.commitment_txid.as_str(),
                record.claim_id.as_str(),
            );
            let at: usize = find(&records, key.as_str());
            let ghost before = records@;
            proof {
                lemma_index_of(before, key@);
                assert(stored@.take(i + 1).drop_last() =~= stored@.take(i as int));
                assert(stored@.take(i + 1).last() == record);
            }
            if at < records.len() {
                records.remove(at);
                proof {
                    lemma_remove_keeps(before, at as int, key@);
                    assert forall|k: int| 0 <= k < records@.len() implies (#[trigger] records@[k]).0@
                        != key@ by {
                        let bk = if k < at { k } else { k + 1 };
                        assert(records@[k] == before[bk]);
                        if bk > at {
                            assert(before[at as int].0@ != before[bk].0@);
                        }
                    }
                }
            }
            let ghost without = records@;
            records.push((key, record));
            proof {
                assert(unique(records@)) by {
                    assert forall|a: int, b: int| 0 <= a < b < records@.len() implies (
                    #[trigger] records@[a]).0@ != (#[trigger] records@[b]).0@ by {
                        assert(records@[a] == without[a]);
                        if b < without.len() {
                            assert(records@[b] == without[b]);
                        }
                    }
                }
                lemma_filter_key(before, records@.last().0@);
                assert(table(records@) =~= table(without).push(
                    (records@.last().0@, records@.last().1),
                ));
                assert(table(records@) =~= rekeyed(stored@.take(i + 1)));
            }
            i = i + 1;
        }
        assert(stored@.take(i as int) =~= stored@);
        let ghost t = records@;
        assert(table(t) == rekeyed(stored@));
        prune_records(&mut records, None);
        proof {
            law_pruning_is_bounded_and_keeps_the_protected(t, None);
        }
        CpfpState {
            backend: text(backend),
            package_capable,
            records,
            events: Vec::new(),
            pending_packages: Vec::new(),
        }
    }

    /// The latest record of a channel: of those last updated at the same time, the one that came
    /// last.
    pub fn record_for(&self, channel_id: &str) -> (r: Option<ChannelCloseBumpRecord>)
        ensures
            r == latest(self.records@, channel_id@),
    {
        let mut best: Option<usize> = None;
        let mut i: usize = 0;
        while i < self.records.len()
            invariant
                i <= self.records.len(),
                match best {
                    Some(b) => b < i && latest(self.records@.take(i as int), channel_id@) == Some(
                        self.records@[b as int].1,
                    ),
                    None => latest(self.records@.take(i as int), channel_id@) is None,
                },
            decreases self.records.len() - i,
        {
            assert(self.records@.take(i + 1).drop_last() =~= self.records@.take(i as int));
            assert(self.records@.take(i + 1).last() == self.records@[i as int]);
            if same(self.records[i].1.channel_id.as_str(), channel_id) {
                match best {
                    None => {
                        best = Some(i);
                    },
                    Some(b) => {
                        if self.records[i].1.updated_at >= self.records[b].1.updated_at {
                            best = Some(i);
                        }
                    },
                }
            }
            i = i + 1;
        }
        assert(self.records@.take(i as int) =~= self.records@);
        match best {
            Some(b) => Some(self.records[b].1.duplicate()),
            None => None,
        }
    }

    /// The event to repeat for a channel on a peer's behalf: that of the channel's latest record, if
    /// it belongs to the peer and was registered since the start.
    pub fn event_for(&self, channel_id: &str, peer_pubkey: &str) -> (r: Option<ChannelCloseEvent>)
        ensures
            is_event_for(*self, channel_id@, peer_pubkey@, r),
    {
        let record = match self.record_for(channel_id) {
            Some(record) => record,
            None => {
                return None;
            },
        };
        if !same(record.peer_pubkey.as_str(), peer_pubkey) {
            return None;
        }
        let key = attempt_key(
            record.channel_id.as_str(),
            record.commitment_txid.as_str(),
            record.claim_id.as_str(),
        );
        let mut i: usize = self.events.len();
        assert(self.events@.take(i as int) =~= self.events@);
        while i > 0
            invariant
                i <= self.events@.len(),
                event_of(self.events@, key@) == event_of(self.events@.take(i as int), key@),
                latest(self.records@, channel_id@) == Some(record),
                record.peer_pubkey@ == peer_pubkey@,
                key@ == key_of(record.channel_id@, record.commitment_txid@, record.claim_id@),
            decreases i,
        {
            assert(self.events@.take(i as int).last() == self.events@[i - 1]);
            assert(self.events@.take(i as int).drop_last() =~= self.events@.take(i - 1));
            let attempt = self.events[i - 1].attempt();
            if same(attempt.as_str(), key.as_str()) {
                return Some(self.events[i - 1].duplicate());
            }
            i = i - 1;
        }
        None
    }

    /// The table that registering an event leads to; it is persisted before it is taken over.
    pub fn propose_registration(&self, event: &ChannelCloseEvent, now: u64) -> (r: Vec<Attempt>)
        requires
            self.wf(),
        ensures
            is_registration(r@, self.records@, self.backend@, *event, now),
            unique(r@),
            r@.len() <= MAX_TRACKED_CPFP_ATTEMPTS_PER_NODE,
            tracks(r@, event.key()),
    {
        let key = event.attempt();
        let mut next = copy_records(&self.records);
        let at: usize = find(&next, key.as_str());
        let ghost s = self.records@;
        proof {
            lemma_index_of(s, key@);
        }
        if at < next.len() {
            let (k, mut record) = next.remove(at);
            record.backend = copy(&self.backend);
            record.claim_id = copy(&event.claim_id);
            record.commitment_txid = copy(&event.commitment_txid);
            record.peer_pubkey = copy(&event.counterparty_node_id);
            record.target_feerate_sat_per_1000_weight =
            event.package_target_feerate_sat_per_1000_weight;
            record.updated_at = now;
            next.insert(at, (k, record));
            proof {
                assert(next@ =~= s.update(at as int, (s[at as int].0, next@[at as int].1)));
                assert(next@[at as int].0@ == event.key());
                assert(unique(next@)) by {
                    assert forall|a: int, b: int| 0 <= a < b < next@.len() implies (
                    #[trigger] next@[a]).0@ != (#[trigger] next@[b]).0@ by {
                        assert(next@[a].0 == s[a].0 && next@[b].0 == s[b].0);
                        assert(s[a].0@ != s[b].0@);
                    }
                }
            }
        } else {
            let record = ChannelCloseBumpRecord {
                backend: copy(&self.backend),
                channel_id: copy(&event.channel_id),
                child_txid: None,
                claim_id: copy(&event.claim_id),
                commitment_txid: copy(&event.commitment_txid),
                created_at: now,
                last_error: None,
                peer_pubkey: copy(&event.counterparty_node_id),
                status: text("pending"),
                target_feerate_sat_per_1000_weight: event.package_target_feerate_sat_per_1000_weight,
                updated_at: now,
            };
            next.push((copy(&key), record));
            proof {
                assert(next@ =~= s.push(next@.last()));
                assert(next@[s.len() as int].0@ == event.key());
                assert(unique(next@)) by {
                    assert forall|a: int, b: int| 0 <= a < b < next@.len() implies (
                    #[trigger] next@[a]).0@ != (#[trigger] next@[b]).0@ by {
                        assert(next@[a] == s[a]);
                        if b < s.len() {
                            assert(next@[b] == s[b]);
                        }
                    }
                }
            }
        }
        let ghost t = next@;
        assert(is_upserted(t, s, self.backend@, *event, now));
        assert(tracks(t, event.key()));
        prune_records(&mut next, Some(key.as_str()));
        proof {
            law_pruning_is_bounded_and_keeps_the_protected(t, Some(event.key()));
        }
        next
    }

    fn retain_packages(&mut self, next: &Vec<Attempt>)
        ensures
            final(self).records == old(self).records,
            final(self).events == old(self).events,
            final(self).pending_packages@ == retained(old(self).pending_packages@, next@),
            final(self).backend == old(self).backend,
            final(self).package_capable == old(self).package_capable,
    {
        let ghost before = self.pending_packages@;
        let ghost keep = |x: PendingPackage| tracks(next@, x.key@);
        let mut i: usize = 0;
        let ghost mut seen: int = 0;
        assert(before.take(0).filter(keep) =~= Seq::<PendingPackage>::empty()) by {
            reveal(Seq::filter);
        }
        while i < self.pending_packages.len()
            invariant
                0 <= seen <= before.len(),
                i <= self.pending_packages.len(),
                keep == (|x: PendingPackage| tracks(next@, x.key@)),
                self.pending_packages@.take(i as int) == before.take(seen).filter(keep),
                self.pending_packages@.skip(i as int) == before.skip(seen),
                self.records == old(self).records,
                self.events == old(self).events,
                self.backend == old(self).backend,
                self.package_capable == old(self).package_capable,
            decreases before.len() - seen,
        {
            let ghost p = self.pending_packages@;
            let at: usize = find(next, self.pending_packages[i].key.as_str());
            proof {
                lemma_index_of(next@, p[i as int].key@);
                assert(p.skip(i as int).len() == before.skip(seen).len());
                assert(p.skip(i as int)[0] == before.skip(seen)[0]);
                assert(before[seen] == p[i as int]);
                assert(before.take(seen + 1).drop_last() =~= before.take(seen));
                assert(before.take(seen + 1).last() == before[seen]);
                reveal(Seq::filter);
            }
            if at < next.len() {
                i = i + 1;
                assert(p.take(i as int) =~= p.take(i - 1).push(p[i - 1]));
                assert(p.skip(i as int) =~= p.skip(i - 1).drop_first());
                assert(before.skip(seen + 1) =~= before.skip(seen).drop_first());
            } else {
                self.pending_packages.remove(i);
                assert(self.pending_packages@.take(i as int) =~= p.take(i as int));
                assert(self.pending_packages@.skip(i as int) =~= p.skip(i as int).drop_first());
                assert(before.skip(seen + 1) =~= before.skip(seen).drop_first());
            }
            proof {
                seen = seen + 1;
            }
        }
        proof {
            assert(self.pending_packages@.skip(i as int).len() == 0);
            assert(before.skip(seen).len() == 0);
            assert(before.take(seen) =~= before);
            assert(self.pending_packages@.take(i as int) =~= self.pending_packages@);
        }
    }

    /// Takes a registration over once it was written: the event is kept for the attempt, and what
    /// belongs to attempts that are no longer tracked goes. One that could not be written changes
    /// nothing.
    pub fn register_event(
        &mut self,
        event: &ChannelCloseEvent,
        next: Vec<Attempt>,
        written: Result<(), String>,
    ) -> (r: Result<(), String>)
        requires
            old(self).wf(),
            unique(next@),
            next@.len() <= MAX_TRACKED_CPFP_ATTEMPTS_PER_NODE,
            tracks(next@, event.key()),
        ensures
            final(self).wf(),
            is_taken_over(*old(self), *event, next, written, *final(self), r),
    {
        if written.is_err() {
            return written;
        }
        let key = event.attempt();
        keep_other_events(&mut self.events, &next, key.as_str());
        self.retain_packages(&next);
        proof {
            lemma_other_events(old(self).events@, next@, event.key());
            lemma_retained(old(self).pending_packages@, next@);
        }
        self.events.push(event.duplicate());
        self.records = next;
        written
    }

    /// Takes an update over once it was written; one that could not be written changes nothing.
    pub fn update(&mut self, next: Vec<Attempt>, written: Result<(), String>) -> (r: Result<
        (),
        String,
    >)
        requires
            old(self).wf(),
            unique(next@),
            same_keys(next@, old(self).records@),
        ensures
            final(self).wf(),
            is_update_taken(*old(self), next, written, *final(self), r),
    {
        if written.is_ok() {
            proof {
                assert forall|i: int| 0 <= i < self.events@.len() implies tracks(
                    next@,
                    (#[trigger] self.events@[i]).key(),
                ) by {
                    let key = self.events@[i].key();
                    assert(tracks(self.records@, key));
                    let k = choose|k: int|
                        0 <= k < self.records@.len() && (#[trigger] self.records@[k]).0@ == key;
                    assert(next@[k].0 == self.records@[k].0);
                }
            }
            self.records = next;
        }
        written
    }

    /// The table that an update of an attempt leads to; `None` where the attempt is not tracked.
    pub fn propose_update(
        &self,
        key: &str,
        status: &str,
        child: Option<String>,
        error: Option<String>,
        now: u64,
    ) -> (r: Option<Vec<Attempt>>)
        requires
            self.wf(),
        ensures
            r is Some <==> tracks(self.records@, key@),
            r matches Some(t) ==> {
                &&& is_update(
                    t@,
                    self.records@,
                    key@,
                    status@,
                    text_of(child),
                    text_of(error),
                    now,
                )
                &&& unique(t@)
                &&& same_keys(t@, self.records@)
            },
    {
        let mut next = copy_records(&self.records);
        let at: usize = find(&next, key);
        let ghost s = self.records@;
        proof {
            lemma_index_of(s, key@);
        }
        if at == next.len() {
            return None;
        }
        let (k, mut record) = next.remove(at);
        record.child_txid = child;
        record.last_error = error;
        record.status = text(status);
        record.updated_at = now;
        next.insert(at, (k, record));
        proof {
            assert(next@ =~= s.update(at as int, (s[at as int].0, next@[at as int].1)));
            assert(unique(next@)) by {
                assert forall|a: int, b: int| 0 <= a < b < next@.len() implies (
                #[trigger] next@[a]).0@ != (#[trigger] next@[b]).0@ by {
                    assert(next@[a].0 == s[a].0 && next@[b].0 == s[b].0);
                    assert(s[a].0@ != s[b].0@);
                }
            }
        }
        Some(next)
    }
}

/// The latest record of a channel.
pub open spec fn latest(s: Seq<Attempt>, channel_id: Seq<char>) -> Option<ChannelCloseBumpRecord>
    decreases s.len(),
{
    if s.len() == 0 {
        None
    } else {
        let rest = latest(s.drop_last(), channel_id);
        let r = s.last().1;
        if r.channel_id@ != channel_id {
            rest
        } else {
            match rest {
                Some(b) => if r.updated_at >= b.updated_at {
                    Some(r)
                } else {
                    Some(b)
                },
                None => Some(r),
            }
        }
    }
}

/// The characters of the keys of a table, with their records.
pub open spec fn table(s: Seq<Attempt>) -> Seq<(Seq<char>, ChannelCloseBumpRecord)> {
    s.map_values(|a: Attempt| (a.0@, a.1))
}

/// The stored records under the keys of their own attempts, later ones replacing earlier ones.
pub open spec fn rekeyed(stored: Seq<ChannelCloseBumpRecord>) -> Seq<
    (Seq<char>, ChannelCloseBumpRecord),
>
    decreases stored.len(),
{
    if stored.len() == 0 {
        seq![]
    } else {
        let r = stored.last();
        let key = key_of(r.channel_id@, r.commitment_txid@, r.claim_id@);
        rekeyed(stored.drop_last()).filter(
            |e: (Seq<char>, ChannelCloseBumpRecord)| e.0 != key,
        ).push((key, r))
    }
}

/// In a table without duplicates, dropping a key drops at most one entry.
proof fn lemma_filter_key(s: Seq<Attempt>, key: Seq<char>)
    requires
        unique(s),
    ensures
        table(s).filter(|e: (Seq<char>, ChannelCloseBumpRecord)| e.0 != key) == table(
            if index_of(s, key) < s.len() {
                s.remove(index_of(s, key))
            } else {
                s
            },
        ),
    decreases s.len(),
{
    let keep = |e: (Seq<char>, ChannelCloseBumpRecord)| e.0 != key;
    reveal(Seq::filter);
    lemma_index_of(s, key);
    if s.len() > 0 {
        let rest = s.drop_last();
        assert(unique(rest)) by {
            assert forall|a: int, b: int| 0 <= a < b < rest.len() implies (#[trigger] rest[a]).0@
                != (#[trigger] rest[b]).0@ by {
                assert(rest[a] == s[a] && rest[b] == s[b]);
            }
        }
        lemma_filter_key(rest, key);
        lemma_index_of(rest, key);
        assert(table(s).drop_last() =~= table(rest));
        assert(table(s).last() == (s.last().0@, s.last().1));
        let i = index_of(s, key);
        let j = index_of(rest, key);
        if s.last().0@ == key {
            if j < rest.len() {
                assert(rest[j] == s[j]);
                assert(s[j].0@ != s[s.len() - 1].0@);
            }
            if i < s.len() - 1 {
                assert(s[i].0@ != s[s.len() - 1].0@);
            }
            assert(i == s.len() - 1) by {
                if i >= s.len() {
                    assert(tracks(s, key)) by {
                        assert(s[s.len() - 1].0@ == key);
                    }
                }
            }
            assert(s.remove(i) =~= rest);
        } else {
            if j < rest.len() {
                assert(s[j].0@ == key) by {
                    assert(rest[j] == s[j]);
                }
                assert(i == j) by {
                    if i < j {
                        assert(rest[i] == s[i]);
                    }
                }
                assert(s.remove(i) =~= rest.remove(i).push(s.last()));
                assert(table(s.remove(i)) =~= table(rest.remove(i)).push((s.last().0@, s.last().1)));
            } else {
                assert(i == s.len()) by {
                    if i < s.len() {
                        assert(i < rest.len());
                        assert(rest[i] == s[i]);
                        assert(tracks(rest, key));
                    }
                }
                assert(table(s) =~= table(rest).push((s.last().0@, s.last().1)));
            }
        }
    } else {
        assert(table(s) =~= Seq::<(Seq<char>, ChannelCloseBumpRecord)>::empty());
    }
}

// ---------------------------------------------------------------------------------------------
// One attempt
// ---------------------------------------------------------------------------------------------

/// What is done for a channel close once its registration is persisted.
#[derive(Debug)]
pub enum AttemptPlan {
    /// The backend takes no packages: the commitment is broadcast alone, and the attempt marked as
    /// unavailable.
    BroadcastCommitment,
    /// A package for the same feerate is at hand and is submitted again.
    Resubmit(Vec<PackageTx>),
    /// A package has to be built.
    Construct,
}

/// How an attempt went, as it is recorded.
#[derive(Debug)]
pub struct AttemptOutcome {
    pub status: &'static str,
    pub child_txid: Option<String>,
    pub error: Option<String>,
}

/// The package at hand for an attempt: of the last one remembered.
pub open spec fn package_of(p: Seq<PendingPackage>, key: Seq<char>) -> Option<PendingPackage>
    decreases p.len(),
{
    if p.len() == 0 {
        None
    } else if p.last().key@ == key {
        Some(p.last())
    } else {
        package_of(p.drop_last(), key)
    }
}

/// The packages of all other attempts.
pub open spec fn other_packages(p: Seq<PendingPackage>, key: Seq<char>) -> Seq<PendingPackage> {
    p.filter(|x: PendingPackage| x.key@ != key)
}

/// Copies the transactions of a package.
pub fn copy_txs(txs: &Vec<PackageTx>) -> (r: Vec<PackageTx>)
    ensures
        same_txs(r@, txs@),
{
    let mut out: Vec<PackageTx> = Vec::new();
    let mut i: usize = 0;
    while i < txs.len()
        invariant
            i <= txs.len(),
            same_txs(out@, txs@.take(i as int)),
        decreases txs.len() - i,
    {
        let tx = PackageTx { raw: vstd::slice::slice_to_vec(txs[i].raw.as_slice()) };
        out.push(tx);
        i = i + 1;
        assert(txs@.take(i as int).drop_last() =~= txs@.take(i - 1));
    }
    assert(txs@.take(i as int) =~= txs@);
    out
}

/// The same transactions in the same order.
pub open spec fn same_txs(a: Seq<PackageTx>, b: Seq<PackageTx>) -> bool {
    &&& a.len() == b.len()
    &&& forall|i: int|
        #![trigger a[i]]
        0 <= i < a.len() ==> a[i].raw@ == b[i].raw@
}

/// The ID of the transaction that pays for the commitment: the second one of a package, if it has one.
pub open spec fn child_in(txs: Seq<PackageTx>) -> Option<Seq<char>> {
    if txs.len() > 1 && is_transaction(txs[1].raw@) {
        Some(transaction_id(txs[1].raw@))
    } else {
        None
    }
}

/// The ID of the transaction that pays for the commitment.
pub fn child_of(txs: &Vec<PackageTx>) -> (r: Option<String>)
    ensures
        text_of(r) == child_in(txs@),
{
    if txs.len() > 1 {
        txid_of(&txs[1].raw)
    } else {
        None
    }
}

/// Whether broadcast transactions are the package under construction.
pub open spec fn is_captured(
    waited_for: Option<&str>,
    txs: Vec<PackageTx>,
    r: bool,
) -> bool {
    &&& r == (waited_for is Some && txs@.len() > 0 && is_transaction(txs@[0].raw@)
            && waited_for->0@ == transaction_id(txs@[0].raw@))
}

/// Whether broadcast transactions are the package under construction: those that begin with the
/// commitment that is waited for.
pub fn captures(waited_for: Option<&str>, txs: &Vec<PackageTx>) -> (r: bool)
    ensures
        is_captured(waited_for, *txs, r),
{
    match waited_for {
        Some(waited_for) => {
            if txs.len() == 0 {
                return false;
            }
            match txid_of(&txs[0].raw) {
                Some(first) => same(waited_for, first.as_str()),
                None => false,
            }
        },
        None => false,
    }
}

/// What the answer to a submission makes of the state, and the outcome that is recorded.
pub open spec fn is_submitted(
    before: CpfpState,
    key: Seq<char>,
    child: Option<String>,
    result: Result<(), String>,
    after: CpfpState,
    r: AttemptOutcome,
) -> bool {
    &&& r.child_txid == child
    &&& match result {
                Ok(_) => r.status@ == "accepted"@ && r.error is None && forgets_package(
                    before,
                    after,
                    key,
                ),
                Err(e) => r.status@ == "retryable_failure"@ && r.error == Some(e) && after
                    == before,
            }
}

impl CpfpState {
    /// What is to be done for a registered attempt.
    pub fn plan_attempt(&self, key: &str, target: u32) -> (r: AttemptPlan)
        ensures
            is_plan(*self, key@, target, r),
    {
        if !self.package_capable {
            return AttemptPlan::BroadcastCommitment;
        }
        let mut i: usize = self.pending_packages.len();
        assert(self.pending_packages@.take(i as int) =~= self.pending_packages@);
        while i > 0
            invariant
                i <= self.pending_packages.len(),
                self.package_capable,
                package_of(self.pending_packages@, key@) == package_of(
                    self.pending_packages@.take(i as int),
                    key@,
                ),
            decreases i,
        {
            let p = &self.pending_packages[i - 1];
            assert(self.pending_packages@.take(i as int).last() == self.pending_packages@[i - 1]);
            if same(p.key.as_str(), key) {
                if p.target == target {
                    return AttemptPlan::Resubmit(copy_txs(&p.txs));
                }
                return AttemptPlan::Construct;
            }
            assert(self.pending_packages@.take(i as int).drop_last()
                =~= self.pending_packages@.take(i - 1));
            i = i - 1;
        }
        AttemptPlan::Construct
    }

    /// Forgets the package of an attempt.
    pub fn forget_package(&mut self, key: &str)
        ensures
            forgets_package(*old(self), *final(self), key@),
    {
        let ghost before = self.pending_packages@;
        let ghost keep = |x: PendingPackage| x.key@ != key@;
        let mut i: usize = 0;
        let ghost mut seen: int = 0;
        assert(before.take(0).filter(keep) =~= Seq::<PendingPackage>::empty()) by {
            reveal(Seq::filter);
        }
        while i < self.pending_packages.len()
            invariant
                0 <= seen <= before.len(),
                i <= self.pending_packages.len(),
                keep == (|x: PendingPackage| x.key@ != key@),
                self.pending_packages@.take(i as int) == before.take(seen).filter(keep),
                self.pending_packages@.skip(i as int) == before.skip(seen),
                self.records == old(self).records,
                self.events == old(self).events,
                self.backend == old(self).backend,
                self.package_capable == old(self).package_capable,
            decreases before.len() - seen,
        {
            let ghost p = self.pending_packages@;
            proof {
                assert(p.skip(i as int).len() == before.skip(seen).len());
                assert(p.skip(i as int)[0] == before.skip(seen)[0]);
                assert(before[seen] == p[i as int]);
                assert(before.take(seen + 1).drop_last() =~= before.take(seen));
                assert(before.take(seen + 1).last() == before[seen]);
                reveal(Seq::filter);
            }
            if !same(self.pending_packages[i].key.as_str(), key) {
                i = i + 1;
                assert(p.take(i as int) =~= p.take(i - 1).push(p[i - 1]));
                assert(p.skip(i as int) =~= p.skip(i - 1).drop_first());
                assert(before.skip(seen + 1) =~= before.skip(seen).drop_first());
            } else {
                self.pending_packages.remove(i);
                assert(self.pending_packages@.take(i as int) =~= p.take(i as int));
                assert(self.pending_packages@.skip(i as int) =~= p.skip(i as int).drop_first());
                assert(before.skip(seen + 1) =~= before.skip(seen).drop_first());
            }
            proof {
                seen = seen + 1;
            }
        }
        proof {
            assert(self.pending_packages@.skip(i as int).len() == 0);
            assert(before.skip(seen).len() == 0);
            assert(before.take(seen) =~= before);
            assert(self.pending_packages@.take(i as int) =~= self.pending_packages@);
        }
    }

    /// Takes what was built for an attempt: a package of more than one transaction is remembered for
    /// the target until it is accepted. Fails where nothing was built.
    pub fn package_built(&mut self, key: &str, target: u32, txs: &Vec<PackageTx>) -> (r: Result<
        (),
        String,
    >)
        ensures
            remembers_package(*old(self), *final(self), key@, target, txs@),
            txs@.len() > 0 ==> r is Ok,
            txs@.len() == 0 ==> r is Err && r->Err_0@
                == "LDK did not construct a transaction for the CPFP event"@,
    {
        if txs.len() > 1 {
            self.forget_package(key);
            let ghost kept = self.pending_packages@;
            self.pending_packages.push(
                PendingPackage { key: text(key), target, txs: copy_txs(txs) },
            );
            assert(self.pending_packages@.drop_last() =~= kept);
        }
        if txs.len() == 0 {
            return Err(text("LDK did not construct a transaction for the CPFP event"));
        }
        Ok(())
    }

    /// Takes the answer to a submission: an accepted package is forgotten, a refused one kept for
    /// another try.
    pub fn package_submitted(
        &mut self,
        key: &str,
        child: Option<String>,
        result: Result<(), String>,
    ) -> (r: AttemptOutcome)
        ensures
            is_submitted(*old(self), key@, child, result, *final(self), r),
    {
        match result {
            Ok(_) => {
                self.forget_package(key);
                AttemptOutcome { status: "accepted", child_txid: child, error: None }
            },
            Err(e) => AttemptOutcome {
                status: "retryable_failure",
                child_txid: child,
                error: Some(e),
            },
        }
    }
}

/// The outcome of an attempt on a backend that takes no packages.
pub fn unavailable_outcome() -> (r: AttemptOutcome)
    ensures
        r.status@ == "unavailable"@,
        r.child_txid is None,
        r.error is Some && r.error->0@ == package_unavailable_reason(),
{
    AttemptOutcome {
        status: "unavailable",
        child_txid: None,
        error: Some(
            text(
                "anchor CPFP requires a package-capable backend; indexer-backed package submission is deferred",
            ),
        ),
    }
}

/// The outcome that is recorded while a package is being built.
pub fn constructing_outcome() -> (r: AttemptOutcome)
    ensures
        r.status@ == "constructing"@,
        r.child_txid is None,
        r.error is None,
{
    AttemptOutcome { status: "constructing", child_txid: None, error: None }
}

/// The record of an attempt in a table without duplicates survives pruning when it is protected.
proof fn lemma_pruned_keeps_the_protected(s: Seq<Attempt>, key: Seq<char>, k: int)
    requires
        unique(s),
        0 <= k < s.len(),
        s[k].0@ == key,
    ensures
        index_of(pruned(s, Some(key)), key) < pruned(s, Some(key)).len(),
        pruned(s, Some(key))[index_of(pruned(s, Some(key)), key)] == s[k],
    decreases s.len(),
{
    lemma_index_of(s, key);
    let n = index_of(s, key);
    assert(n == k) by {
        if n < k {
            assert(s[n].0@ != s[k].0@);
        }
    }
    if s.len() > MAX_TRACKED_CPFP_ATTEMPTS_PER_NODE {
        lemma_oldest(s, Some(key));
        match oldest(s, Some(key)) {
            Some(i) => {
                lemma_remove_keeps(s, i, key);
                let tk = if k < i { k } else { k - 1 };
                assert(s.remove(i)[tk] == s[k]);
                lemma_pruned_keeps_the_protected(s.remove(i), key, tk);
            },
            None => {},
        }
    }
}

proof fn lemma_pruned_records(s: Seq<Attempt>, protected_key: Option<Seq<char>>, i: int) -> (k: int)
    requires
        0 <= i < pruned(s, protected_key).len(),
    ensures
        0 <= k < s.len(),
        pruned(s, protected_key)[i] == s[k],
    decreases s.len(),
{
    if s.len() > MAX_TRACKED_CPFP_ATTEMPTS_PER_NODE {
        lemma_oldest(s, protected_key);
        match oldest(s, protected_key) {
            Some(o) => {
                let t = s.remove(o);
                let k = lemma_pruned_records(t, protected_key, i);
                if k < o {
                    k
                } else {
                    k + 1
                }
            },
            None => i,
        }
    } else {
        i
    }
}

/// The record of a registered attempt keeps when it was created and how far it came where the attempt
/// was known, and begins as a pending one where it was not. Every other record that stays is
/// unchanged.
pub proof fn law_registration_keeps_what_is_known(
    next: Seq<Attempt>,
    s: Seq<Attempt>,
    backend: Seq<char>,
    event: ChannelCloseEvent,
    now: u64,
)
    requires
        unique(s),
        is_registration(next, s, backend, event, now),
    ensures
        next.len() <= MAX_TRACKED_CPFP_ATTEMPTS_PER_NODE,
        unique(next),
        tracks(next, event.key()),
        is_registered(
            next[index_of(next, event.key())].1,
            if tracks(s, event.key()) {
                Some(s[index_of(s, event.key())].1)
            } else {
                None
            },
            backend,
            event,
            now,
        ),
        forall|i: int|
            0 <= i < next.len() && (#[trigger] next[i]).0@ != event.key() ==> s.contains(next[i]),
{
    let key = event.key();
    let t = choose|t: Seq<Attempt>| #[trigger]
        is_upserted(t, s, backend, event, now) && next == pruned(t, Some(event.key()));
    lemma_index_of(s, key);
    let k = index_of(s, key);
    assert(0 <= k < t.len() && t[k].0@ == key);
    assert(unique(t)) by {
        assert forall|a: int, b: int| 0 <= a < b < t.len() implies (#[trigger] t[a]).0@ != (
        #[trigger] t[b]).0@ by {
            if a < s.len() && b < s.len() {
                assert(t[a].0 == s[a].0 && t[b].0 == s[b].0);
                assert(s[a].0@ != s[b].0@);
            } else {
                assert(t[a] == s[a]);
            }
        }
    }
    assert(tracks(t, key));
    law_pruning_is_bounded_and_keeps_the_protected(t, Some(key));
    lemma_pruned_keeps_the_protected(t, key, k);
    assert forall|i: int| 0 <= i < next.len() && (#[trigger] next[i]).0@ != key implies s.contains(
        next[i],
    ) by {
        let j = lemma_pruned_records(t, Some(key), i);
        assert(j != k);
        assert(t[j] == s[j]);
    }
}

proof fn lemma_event_of_others(
    events: Seq<ChannelCloseEvent>,
    s: Seq<Attempt>,
    key: Seq<char>,
    other: Seq<char>,
)
    requires
        other != key,
    ensures
        event_of(other_events(events, s, key), other) == if tracks(s, other) {
            event_of(events, other)
        } else {
            None
        },
    decreases events.len(),
{
    reveal(Seq::filter);
    if events.len() > 0 {
        let rest = other_events(events.drop_last(), s, key);
        lemma_event_of_others(events.drop_last(), s, key, other);
        if tracks(s, events.last().key()) && events.last().key() != key {
            assert(other_events(events, s, key) == rest.push(events.last()));
            assert(rest.push(events.last()).drop_last() =~= rest);
        }
    }
}

/// After a registration the event is found under the key of its attempt; those of other attempts are
/// as before, or gone with attempts that are no longer tracked.
pub proof fn law_registered_events_are_kept(
    events: Seq<ChannelCloseEvent>,
    s: Seq<Attempt>,
    event: ChannelCloseEvent,
    other: Seq<char>,
)
    ensures
        ({
            let after = other_events(events, s, event.key()).push(event);
            &&& event_of(after, event.key()) == Some(event)
            &&& other != event.key() ==> event_of(after, other) == if tracks(s, other) {
                event_of(events, other)
            } else {
                None
            }
        }),
{
    let kept = other_events(events, s, event.key());
    assert(kept.push(event).drop_last() =~= kept);
    if other != event.key() {
        lemma_event_of_others(events, s, event.key(), other);
    }
}

/// A package that was built for a target is submitted again, as it is, for the same target.
pub proof fn law_refused_packages_are_resubmitted(p: Seq<PendingPackage>, key: Seq<char>)
    requires
        p.len() > 0,
        p.last().key@ == key,
    ensures
        package_of(p, key) == Some(p.last()),
{
}

/// An accepted package is not at hand any more.
pub proof fn law_accepted_packages_are_forgotten(p: Seq<PendingPackage>, key: Seq<char>)
    ensures
        package_of(other_packages(p, key), key) is None,
    decreases p.len(),
{
    reveal(Seq::filter);
    if p.len() > 0 {
        law_accepted_packages_are_forgotten(p.drop_last(), key);
        let rest = other_packages(p.drop_last(), key);
        if p.last().key@ != key {
            assert(other_packages(p, key) == rest.push(p.last()));
            assert(rest.push(p.last()).drop_last() =~= rest);
        }
    }
}

/// Attempts are told apart by their keys: IDs of the same lengths give the same key only where they are
/// the same.
pub proof fn law_keys_tell_attempts_apart(
    channel_a: Seq<char>,
    commitment_a: Seq<char>,
    claim_a: Seq<char>,
    channel_b: Seq<char>,
    commitment_b: Seq<char>,
    claim_b: Seq<char>,
)
    requires
        channel_a.len() == channel_b.len(),
        commitment_a.len() == commitment_b.len(),
        key_of(channel_a, commitment_a, claim_a) == key_of(channel_b, commitment_b, claim_b),
    ensures
        channel_a == channel_b,
        commitment_a == commitment_b,
        claim_a == claim_b,
{
    reveal_strlit(":");
    let a = key_of(channel_a, commitment_a, claim_a);
    let b = key_of(channel_b, commitment_b, claim_b);
    let n = channel_a.len() as int;
    let m = n + 1 + commitment_a.len() as int;
    assert(a.subrange(0, n) =~= channel_a);
    assert(b.subrange(0, n) =~= channel_b);
    assert(a.subrange(n + 1, m) =~= commitment_a);
    assert(b.subrange(n + 1, m) =~= commitment_b);
    assert(a.skip(m + 1) =~= claim_a);
    assert(b.skip(m + 1) =~= claim_b);
}

/// A table within the limit loses nothing; a larger one keeps exactly as many records as are tracked.
pub proof fn law_pruning_drops_no_more_than_needed(
    s: Seq<Attempt>,
    protected_key: Option<Seq<char>>,
)
    requires
        unique(s),
    ensures
        s.len() <= 64 ==> pruned(s, protected_key) == s,
        s.len() >= 64 ==> pruned(s, protected_key).len() == 64,
    decreases s.len(),
{
    if s.len() > 64 {
        lemma_oldest(s, protected_key);
        match oldest(s, protected_key) {
            Some(i) => {
                lemma_remove_keeps(s, i, s[i].0@);
                law_pruning_drops_no_more_than_needed(s.remove(i), protected_key);
            },
            None => {
                assert(is_protected(s[0], protected_key));
                assert(is_protected(s[1], protected_key));
            },
        }
    }
}

/// What is dropped was not changed later than what is kept, the protected attempt aside; of records that
/// were changed at the same time, the one that was created first goes first.
pub proof fn law_the_longest_unchanged_records_go(
    s: Seq<Attempt>,
    protected_key: Option<Seq<char>>,
    dropped: int,
    kept: int,
)
    requires
        unique(s),
        0 <= dropped < s.len(),
        0 <= kept < s.len(),
        !tracks(pruned(s, protected_key), s[dropped].0@),
        tracks(pruned(s, protected_key), s[kept].0@),
        protected_key != Some(s[kept].0@),
    ensures
        s[dropped].1.updated_at <= s[kept].1.updated_at,
        s[dropped].1.updated_at == s[kept].1.updated_at ==> s[dropped].1.created_at
            <= s[kept].1.created_at,
{
    law_pruning_drops_the_oldest(s, protected_key, dropped, kept);
}

/// The record that is shown of a channel is one of its own, and none of its own was changed later.
pub proof fn law_the_latest_record_is_shown(s: Seq<Attempt>, channel_id: Seq<char>, i: int)
    requires
        0 <= i < s.len(),
    ensures
        s[i].1.channel_id@ == channel_id ==> latest(s, channel_id) is Some && s[i].1.updated_at
            <= latest(s, channel_id)->0.updated_at,
        latest(s, channel_id) matches Some(r) ==> r.channel_id@ == channel_id && exists|k: int|
            0 <= k < s.len() && (#[trigger] s[k]).1 == r,
    decreases s.len(),
{
    let rest = s.drop_last();
    if rest.len() > 0 {
        law_the_latest_record_is_shown(
            rest,
            channel_id,
            if i < rest.len() {
                i
            } else {
                0
            },
        );
        if i < rest.len() {
            assert(rest[i] == s[i]);
        }
        if latest(rest, channel_id) is Some {
            let r = latest(rest, channel_id)->0;
            let k = choose|k: int| 0 <= k < rest.len() && (#[trigger] rest[k]).1 == r;
            assert(s[k].1 == r);
        }
    }
    assert(s[s.len() - 1].1 == s.last().1);
}

/// An event is only repeated for the peer of the channel's latest record, and it is the one that was
/// registered for that attempt.
pub proof fn law_events_are_repeated_for_their_peer(
    state: CpfpState,
    channel_id: Seq<char>,
    peer_pubkey: Seq<char>,
    r: Option<ChannelCloseEvent>,
)
    requires
        is_event_for(state, channel_id, peer_pubkey, r),
    ensures
        r is Some ==> latest(state.records@, channel_id) is Some && latest(
            state.records@,
            channel_id,
        )->0.peer_pubkey@ == peer_pubkey,
        r matches Some(event) ==> ({
            let record = latest(state.records@, channel_id)->0;
            event.key() == key_of(record.channel_id@, record.commitment_txid@, record.claim_id@)
        }),
        latest(state.records@, channel_id) is None ==> r is None,
{
    if r is Some {
        let record = latest(state.records@, channel_id)->0;
        lemma_event_of(
            state.events@,
            key_of(record.channel_id@, record.commitment_txid@, record.claim_id@),
        );
    }
}

proof fn lemma_event_of(events: Seq<ChannelCloseEvent>, key: Seq<char>)
    ensures
        event_of(events, key) matches Some(e) ==> e.key() == key,
    decreases events.len(),
{
    if events.len() > 0 {
        lemma_event_of(events.drop_last(), key);
    }
}

/// An update changes how one attempt went, and when, and nothing else of it or of any other.
pub proof fn law_updates_touch_one_attempt(
    t: Seq<Attempt>,
    s: Seq<Attempt>,
    key: Seq<char>,
    status: Seq<char>,
    child: Option<Seq<char>>,
    error: Option<Seq<char>>,
    now: u64,
    i: int,
)
    requires
        unique(s),
        tracks(s, key),
        is_update(t, s, key, status, child, error, now),
        0 <= i < s.len(),
    ensures
        t.len() == s.len(),
        t[i].0 == s[i].0,
        s[i].0@ != key ==> t[i] == s[i],
        s[i].0@ == key ==> {
            let r = t[i].1;
            &&& r.status@ == status && r.updated_at == now
            &&& text_of(r.child_txid) == child && text_of(r.last_error) == error
            &&& r.created_at == s[i].1.created_at && r.channel_id == s[i].1.channel_id
            &&& r.claim_id == s[i].1.claim_id && r.commitment_txid == s[i].1.commitment_txid
            &&& r.peer_pubkey == s[i].1.peer_pubkey && r.target_feerate_sat_per_1000_weight
                == s[i].1.target_feerate_sat_per_1000_weight && r.backend == s[i].1.backend
        },
{
    lemma_index_of(s, key);
}

/// What could not be stored changes nothing; what was stored is taken over as it is.
pub proof fn law_only_stored_tables_are_taken_over(
    before: CpfpState,
    event: ChannelCloseEvent,
    next: Vec<Attempt>,
    written: Result<(), String>,
    registered: CpfpState,
    registration: Result<(), String>,
    updated: CpfpState,
    update: Result<(), String>,
)
    requires
        is_taken_over(before, event, next, written, registered, registration),
        is_update_taken(before, next, written, updated, update),
    ensures
        registration == written && update == written,
        written is Err ==> registered == before && updated == before,
        written is Ok ==> registered.records == next && updated.records == next,
        written is Ok ==> event_of(registered.events@, event.key()) == Some(event),
        written is Ok ==> updated.events == before.events && updated.pending_packages
            == before.pending_packages,
{
    if written is Ok {
        assert(registered.events@.last() == event);
    }
}

proof fn lemma_other_packages(p: Seq<PendingPackage>, key: Seq<char>, other: Seq<char>)
    ensures
        other != key ==> package_of(other_packages(p, key), other) == package_of(p, other),
        package_of(other_packages(p, key), key) is None,
    decreases p.len(),
{
    reveal(Seq::filter);
    if p.len() > 0 {
        lemma_other_packages(p.drop_last(), key, other);
        let rest = other_packages(p.drop_last(), key);
        assert(rest.push(p.last()).drop_last() =~= rest);
    }
}

/// A package that was built with a child is submitted again for the same target as it is, for another
/// target a new one is built; once it was accepted, or where there was no child, one is built anew. A
/// backend that takes no packages gets the commitment alone. The packages of other attempts stay.
pub proof fn law_packages_are_resubmitted_until_accepted(
    before: CpfpState,
    built: CpfpState,
    key: Seq<char>,
    target: u32,
    txs: Seq<PackageTx>,
    accepted: CpfpState,
    other: Seq<char>,
    other_target: u32,
    again: AttemptPlan,
    changed: AttemptPlan,
    after: AttemptPlan,
)
    requires
        remembers_package(before, built, key, target, txs),
        forgets_package(built, accepted, key),
        is_plan(built, key, target, again),
        is_plan(built, key, other_target, changed),
        is_plan(accepted, key, target, after),
        other != key,
        other_target != target,
    ensures
        !before.package_capable ==> again is BroadcastCommitment && changed is BroadcastCommitment
            && after is BroadcastCommitment,
        before.package_capable ==> after is Construct,
        before.package_capable && txs.len() > 1 ==> {
            &&& again matches AttemptPlan::Resubmit(t) && t@.len() == txs.len() && forall|i: int|
                0 <= i < txs.len() ==> (#[trigger] t@[i]).raw@ == txs[i].raw@
            &&& changed is Construct
        },
        package_of(accepted.pending_packages@, other) == package_of(before.pending_packages@, other),
        accepted.records == before.records && accepted.events == before.events,
{
    lemma_other_packages(before.pending_packages@, key, other);
    lemma_other_packages(built.pending_packages@, key, other);
    if txs.len() > 1 {
        let p = built.pending_packages@;
        assert(package_of(p, other) == package_of(p.drop_last(), other));
        if before.package_capable {
            let t = again->Resubmit_0;
            assert forall|i: int| 0 <= i < txs.len() implies (#[trigger] t@[i]).raw@ == txs[i].raw@ by {
                assert(p.last().txs@[i].raw@ == txs[i].raw@);
            }
        }
    }
}

/// An accepted submission is recorded as accepted and its package forgotten; a refused one is recorded
/// with its error as one to retry, and its package stays.
pub proof fn law_submissions_are_recorded_as_answered(
    before: CpfpState,
    key: Seq<char>,
    child: Option<String>,
    result: Result<(), String>,
    after: CpfpState,
    r: AttemptOutcome,
)
    requires
        is_submitted(before, key, child, result, after, r),
    ensures
        r.child_txid == child,
        result is Ok ==> r.status@ == "accepted"@ && r.error is None && package_of(
            after.pending_packages@,
            key,
        ) is None,
        result matches Err(e) ==> r.status@ == "retryable_failure"@ && r.error == Some(e) && after
            == before,
        after.records == before.records,
{
    lemma_other_packages(before.pending_packages@, key, key);
}

/// Only transactions that begin with the commitment that is waited for are taken for the package.
pub proof fn law_only_the_awaited_package_is_captured(
    waited_for: Option<&str>,
    txs: Vec<PackageTx>,
    r: bool,
)
    requires
        is_captured(waited_for, txs, r),
    ensures
        waited_for is None || txs@.len() == 0 ==> !r,
        r ==> is_transaction(txs@[0].raw@) && waited_for->0@ == transaction_id(txs@[0].raw@),
        waited_for is Some && txs@.len() > 0 && is_transaction(txs@[0].raw@) && waited_for->0@
            == transaction_id(txs@[0].raw@) ==> r,
{
}

/// The child of a package is its second transaction.
pub proof fn law_children_come_second(txs: Seq<PackageTx>)
    ensures
        txs.len() <= 1 ==> child_in(txs) is None,
        child_in(txs) matches Some(id) ==> is_transaction(txs[1].raw@) && id == transaction_id(
            txs[1].raw@,
        ),
        txs.len() > 1 && is_transaction(txs[1].raw@) ==> child_in(txs) is Some,
{
}

/// A stored record is loaded under the key of its own attempt, unless a later one has the same.
pub proof fn law_stored_records_are_loaded(stored: Seq<ChannelCloseBumpRecord>, i: int)
    requires
        0 <= i < stored.len(),
        forall|k: int|
            i < k < stored.len() ==> key_of(
                (#[trigger] stored[k]).channel_id@,
                stored[k].commitment_txid@,
                stored[k].claim_id@,
            ) != key_of(stored[i].channel_id@, stored[i].commitment_txid@, stored[i].claim_id@),
    ensures
        rekeyed(stored).contains(
            (
                key_of(stored[i].channel_id@, stored[i].commitment_txid@, stored[i].claim_id@),
                stored[i],
            ),
        ),
    decreases stored.len(),
{
    let r = stored.last();
    let key = key_of(r.channel_id@, r.commitment_txid@, r.claim_id@);
    let keeps = |e: (Seq<char>, ChannelCloseBumpRecord)| e.0 != key;
    let rest = rekeyed(stored.drop_last());
    let own = key_of(stored[i].channel_id@, stored[i].commitment_txid@, stored[i].claim_id@);
    if i == stored.len() - 1 {
        assert(rekeyed(stored).last() == (own, stored[i]));
    } else {
        assert forall|k: int| i < k < stored.drop_last().len() implies key_of(
            (#[trigger] stored.drop_last()[k]).channel_id@,
            stored.drop_last()[k].commitment_txid@,
            stored.drop_last()[k].claim_id@,
        ) != own by {
            assert(stored.drop_last()[k] == stored[k]);
        }
        law_stored_records_are_loaded(stored.drop_last(), i);
        assert(stored[stored.len() - 1] == r);
        assert(keeps((own, stored[i])));
        lemma_filter_contains(rest, keeps, (own, stored[i]));
        let kept = rest.filter(keeps);
        let n = choose|n: int| 0 <= n < kept.len() && kept[n] == (own, stored[i]);
        assert(rekeyed(stored)[n] == (own, stored[i]));
    }
}

proof fn lemma_filter_contains(
    s: Seq<(Seq<char>, ChannelCloseBumpRecord)>,
    keeps: spec_fn((Seq<char>, ChannelCloseBumpRecord)) -> bool,
    x: (Seq<char>, ChannelCloseBumpRecord),
)
    requires
        s.contains(x),
        keeps(x),
    ensures
        s.filter(keeps).contains(x),
    decreases s.len(),
{
    reveal(Seq::filter);
    let rest = s.drop_last();
    if s.last() == x {
        assert(s.filter(keeps).last() == x);
    } else {
        let i = choose|i: int| 0 <= i < s.len() && s[i] == x;
        assert(rest[i] == x);
        lemma_filter_contains(rest, keeps, x);
        let n = choose|n: int| 0 <= n < rest.filter(keeps).len() && rest.filter(keeps)[n] == x;
        assert(s.filter(keeps)[n] == x);
    }
}

/// Remembering and forgetting a package change nothing but the packages.
pub proof fn law_packages_change_alone(
    before: CpfpState,
    after: CpfpState,
    key: Seq<char>,
    target: u32,
    txs: Seq<PackageTx>,
)
    requires
        forgets_package(before, after, key) || remembers_package(before, after, key, target, txs),
    ensures
        after.records == before.records,
        after.events == before.events,
        after.backend == before.backend,
        after.package_capable == before.package_capable,
{
}

/// A registered attempt shows the event that it was registered for; one that is tracked already keeps its
/// history, and a new one is pending with none.
pub proof fn law_registered_attempts_show_their_event(
    r: ChannelCloseBumpRecord,
    before: Option<ChannelCloseBumpRecord>,
    backend: Seq<char>,
    event: ChannelCloseEvent,
    now: u64,
)
    requires
        is_registered(r, before, backend, event, now),
    ensures
        r.backend@ == backend && r.claim_id@ == event.claim_id@ && r.commitment_txid@
            == event.commitment_txid@ && r.peer_pubkey@ == event.counterparty_node_id@,
        r.target_feerate_sat_per_1000_weight == event.package_target_feerate_sat_per_1000_weight
            && r.updated_at == now,
        before matches Some(b) ==> r.status == b.status && r.last_error == b.last_error && r.child_txid
            == b.child_txid && r.created_at == b.created_at && r.channel_id == b.channel_id,
        before is None ==> r.status@ == "pending"@ && r.last_error is None && r.child_txid is None
            && r.created_at == now && r.channel_id@ == event.channel_id@,
{
}

} // verus!
