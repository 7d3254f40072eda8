//! The key-value store behind the node: namespaced entries, and writes that carry their replication
//! intent in the same transaction.

use vstd::prelude::*;
use vstd::string::*;

use crate::text::{copy, same, text};

verus! {

/// An error of the key-value store.
#[derive(Clone, Debug, PartialEq, Eq)]
pub struct StoreError {
    pub not_found: bool,
    pub text: String,
}

/// The characters of an entry's primary namespace, secondary namespace and key.
pub type KeyView = (Seq<char>, Seq<char>, Seq<char>);

/// Names one entry.
#[derive(Clone, Copy, Debug, PartialEq, Eq)]
pub struct KvStoreKey<'a> {
    pub primary_namespace: &'a str,
    pub secondary_namespace: &'a str,
    pub key: &'a str,
}

impl<'a> KvStoreKey<'a> {
    pub open spec fn name(self) -> KeyView {
        (self.primary_namespace@, self.secondary_namespace@, self.key@)
    }

    /// Names an entry.
    pub fn new(primary_namespace: &'a str, secondary_namespace: &'a str, key: &'a str) -> (r: Self)
        ensures
            r.name() == (primary_namespace@, secondary_namespace@, key@),
    {
        Self { primary_namespace, secondary_namespace, key }
    }
}

/// An entry to write.
#[derive(Debug)]
pub struct KvStoreEntry<'a> {
    pub key: KvStoreKey<'a>,
    pub value: Vec<u8>,
}

impl<'a> KvStoreEntry<'a> {
    /// An entry to write.
    pub fn new(
        primary_namespace: &'a str,
        secondary_namespace: &'a str,
        key: &'a str,
        value: Vec<u8>,
    ) -> (r: Self)
        ensures
            r.key.name() == (primary_namespace@, secondary_namespace@, key@),
            r.value == value,
    {
        Self { key: KvStoreKey::new(primary_namespace, secondary_namespace, key), value }
    }
}

/// One change to the store.
#[derive(Debug)]
pub enum KvOp {
    /// Inserts an entry, or replaces its value.
    Upsert { primary: String, secondary: String, key: String, value: Vec<u8> },
    /// Deletes an entry, if it is there.
    Delete { primary: String, secondary: String, key: String },
}

/// What one change makes of a store.
pub open spec fn changed(m: Map<KeyView, Seq<u8>>, op: KvOp) -> Map<KeyView, Seq<u8>> {
    match op {
        KvOp::Upsert { primary, secondary, key, value } => m.insert(
            (primary@, secondary@, key@),
            value@,
        ),
        KvOp::Delete { primary, secondary, key } => m.remove((primary@, secondary@, key@)),
    }
}

/// What changes make of a store, one after the other.
pub open spec fn all_changed(m: Map<KeyView, Seq<u8>>, ops: Seq<KvOp>) -> Map<KeyView, Seq<u8>>
    decreases ops.len(),
{
    if ops.len() == 0 {
        m
    } else {
        changed(all_changed(m, ops.drop_last()), ops.last())
    }
}

fn upsert(entry: KvStoreEntry<'_>) -> (r: KvOp)
    ensures
        forall|m: Map<KeyView, Seq<u8>>| #[trigger]
            changed(m, r) == m.insert(entry.key.name(), entry.value@),
{
    KvOp::Upsert {
        primary: text(entry.key.primary_namespace),
        secondary: text(entry.key.secondary_namespace),
        key: text(entry.key.key),
        value: entry.value,
    }
}

/// Whether changes write a value and the intent of its replication, whatever the store holds.
pub open spec fn writes_with_intent(
    ops: Seq<KvOp>,
    name: KeyView,
    value: Seq<u8>,
    intent_name: KeyView,
    intent: Seq<u8>,
) -> bool {
    forall|m: Map<KeyView, Seq<u8>>| #[trigger]
        all_changed(m, ops) == m.insert(name, value).insert(intent_name, intent)
}

/// Whether changes remove a value and write the intent of its replication, whatever the store holds.
pub open spec fn removes_with_intent(
    ops: Seq<KvOp>,
    name: KeyView,
    intent_name: KeyView,
    intent: Seq<u8>,
) -> bool {
    forall|m: Map<KeyView, Seq<u8>>| #[trigger]
        all_changed(m, ops) == m.remove(name).insert(intent_name, intent)
}

/// The changes that write a value together with its durable replication intent. They belong into
/// one transaction: a process may end at any time, and must never leave a local change behind that
/// has no evidence for the remote replay.
pub fn write_with_replication_intent(value: KvStoreEntry<'_>, intent: KvStoreEntry<'_>) -> (r: Vec<
    KvOp,
>)
    ensures
        writes_with_intent(r@, value.key.name(), value.value@, intent.key.name(), intent.value@),
{
    let mut ops: Vec<KvOp> = Vec::new();
    ops.push(upsert(value));
    ops.push(upsert(intent));
    proof {
        lemma_two(ops@);
    }
    ops
}

/// The changes that remove a value and record the tombstone for its replication, in one
/// transaction.
pub fn remove_with_replication_intent(key: KvStoreKey<'_>, intent: KvStoreEntry<'_>) -> (r: Vec<
    KvOp,
>)
    ensures
        removes_with_intent(r@, key.name(), intent.key.name(), intent.value@),
{
    let mut ops: Vec<KvOp> = Vec::new();
    ops.push(
        KvOp::Delete {
            primary: text(key.primary_namespace),
            secondary: text(key.secondary_namespace),
            key: text(key.key),
        },
    );
    ops.push(upsert(intent));
    proof {
        lemma_two(ops@);
    }
    ops
}

proof fn lemma_two(ops: Seq<KvOp>)
    requires
        ops.len() == 2,
    ensures
        forall|m: Map<KeyView, Seq<u8>>| #[trigger]
            all_changed(m, ops) == changed(changed(m, ops[0]), ops[1]),
{
    assert forall|m: Map<KeyView, Seq<u8>>| #[trigger]
        all_changed(m, ops) == changed(changed(m, ops[0]), ops[1]) by {
        reveal_with_fuel(all_changed, 3);
        assert(ops.drop_last().last() == ops[0]);
    }
}

// ---------------------------------------------------------------------------------------------
// A store in memory
// ---------------------------------------------------------------------------------------------

/// An entry of the store in memory.
#[derive(Debug)]
pub struct StoredEntry {
    pub primary: String,
    pub secondary: String,
    pub key: String,
    pub value: Vec<u8>,
}

impl StoredEntry {
    pub open spec fn name(self) -> KeyView {
        (self.primary@, self.secondary@, self.key@)
    }
}

/// A store that lives in memory.
#[derive(Debug)]
pub struct MemoryKvStore {
    pub entries: Vec<StoredEntry>,
}

/// Where an entry stands; the length where it does not.
pub open spec fn entry_index(s: Seq<StoredEntry>, name: KeyView) -> int
    decreases s.len(),
{
    if s.len() == 0 {
        0
    } else if s[0].name() == name {
        0
    } else {
        1 + entry_index(s.drop_first(), name)
    }
}

proof fn lemma_entry_index(s: Seq<StoredEntry>, name: KeyView)
    ensures
        0 <= entry_index(s, name) <= s.len(),
        entry_index(s, name) < s.len() ==> s[entry_index(s, name)].name() == name,
        forall|i: int| 0 <= i < entry_index(s, name) ==> (#[trigger] s[i]).name() != name,
    decreases s.len(),
{
    if s.len() > 0 && s[0].name() != name {
        lemma_entry_index(s.drop_first(), name);
        assert forall|i: int| 0 <= i < entry_index(s, name) implies (#[trigger] s[i]).name()
            != name by {
            if i > 0 {
                assert(s[i] == s.drop_first()[i - 1]);
            }
        }
    }
}

/// The contents of a list of entries.
pub open spec fn contents(s: Seq<StoredEntry>) -> Map<KeyView, Seq<u8>> {
    Map::new(
        |name: KeyView| entry_index(s, name) < s.len(),
        |name: KeyView| s[entry_index(s, name)].value@,
    )
}

impl View for MemoryKvStore {
    type V = Map<KeyView, Seq<u8>>;

    open spec fn view(&self) -> Map<KeyView, Seq<u8>> {
        contents(self.entries@)
    }
}

/// No entry stands twice.
pub open spec fn distinct(s: Seq<StoredEntry>) -> bool {
    forall|i: int, j: int| 0 <= i < j < s.len() ==> (#[trigger] s[i]).name() != (#[trigger] s[j]).name()
}

proof fn lemma_at(s: Seq<StoredEntry>, i: int)
    requires
        distinct(s),
        0 <= i < s.len(),
    ensures
        entry_index(s, s[i].name()) == i,
{
    lemma_entry_index(s, s[i].name());
    let k = entry_index(s, s[i].name());
    if k < i {
        assert(s[k].name() != s[i].name());
    } else if k > i {
        assert(s[i].name() != s[i].name());
    }
}

impl MemoryKvStore {
    pub open spec fn wf(self) -> bool {
        distinct(self.entries@)
    }

    fn find(&self, name: KvStoreKey<'_>) -> (r: usize)
        ensures
            r == entry_index(self.entries@, name.name()),
            r <= self.entries.len(),
    {
        let mut i: usize = 0;
        while i < self.entries.len()
            invariant
                i <= self.entries.len(),
                forall|k: int| 0 <= k < i ==> (#[trigger] self.entries@[k]).name() != name.name(),
            decreases self.entries.len() - i,
        {
            let e = &self.entries[i];
            if same(e.primary.as_str(), name.primary_namespace) && same(
                e.secondary.as_str(),
                name.secondary_namespace,
            ) && same(e.key.as_str(), name.key) {
                proof {
                    lemma_entry_index(self.entries@, name.name());
                    let n = entry_index(self.entries@, name.name());
                    if n < i {
                        assert(self.entries@[n].name() != name.name());
                    } else if n > i {
                        assert(self.entries@[i as int].name() != name.name());
                    }
                }
                return i;
            }
            i = i + 1;
        }
        proof {
            lemma_entry_index(self.entries@, name.name());
            let n = entry_index(self.entries@, name.name());
            if n < i {
                assert(self.entries@[n].name() != name.name());
            }
        }
        i
    }

    /// The value of an entry, or that it is missing.
    pub fn read(&self, primary_namespace: &str, secondary_namespace: &str, key: &str) -> (r: Result<
        Vec<u8>,
        StoreError,
    >)
        ensures
            ({
                let name = (primary_namespace@, secondary_namespace@, key@);
                match r {
                    Ok(value) => self@.dom().contains(name) && value@ == self@[name],
                    Err(e) => !self@.dom().contains(name) && e.not_found && e.text@
                        == "missing key"@,
                }
            }),
    {
        let i: usize = self.find(KvStoreKey::new(primary_namespace, secondary_namespace, key));
        if i < self.entries.len() {
            Ok(vstd::slice::slice_to_vec(self.entries[i].value.as_slice()))
        } else {
            Err(StoreError { not_found: true, text: text("missing key") })
        }
    }

    /// Writes an entry, replacing the value that stood there.
    pub fn write(
        &mut self,
        primary_namespace: &str,
        secondary_namespace: &str,
        key: &str,
        buf: Vec<u8>,
    )
        requires
            old(self).wf(),
        ensures
            final(self).wf(),
            final(self)@ == old(self)@.insert(
                (primary_namespace@, secondary_namespace@, key@),
                buf@,
            ),
    {
        let ghost name = (primary_namespace@, secondary_namespace@, key@);
        let ghost before = self.entries@;
        self.remove(primary_namespace, secondary_namespace, key);
        let ghost without = self.entries@;
        let e = StoredEntry {
            primary: text(primary_namespace),
            secondary: text(secondary_namespace),
            key: text(key),
            value: buf,
        };
        self.entries.push(e);
        proof {
            let after = self.entries@;
            lemma_entry_index(without, name);
            assert(!contents(without).dom().contains(name));
            assert(distinct(after)) by {
                assert forall|a: int, b: int| 0 <= a < b < after.len() implies (
                #[trigger] after[a]).name() != (#[trigger] after[b]).name() by {
                    assert(after[a] == without[a]);
                    if b < without.len() {
                        assert(after[b] == without[b]);
                    }
                }
            }
            assert(contents(after) =~= contents(without).insert(name, buf@)) by {
                assert forall|n: KeyView|
                    (entry_index(after, n) < after.len()) == (entry_index(without, n)
                        < without.len() || n == name) && (entry_index(without, n) < without.len()
                        ==> after[entry_index(after, n)] == without[entry_index(without, n)]) by {
                    lemma_entry_index(after, n);
                    lemma_entry_index(without, n);
                    if entry_index(without, n) < without.len() {
                        let k = entry_index(without, n);
                        assert(after[k] == without[k]);
                        lemma_at(after, k);
                    } else if n == name {
                        assert(after[without.len() as int].name() == name);
                        lemma_at(after, without.len() as int);
                    } else if entry_index(after, n) < after.len() {
                        let k = entry_index(after, n);
                        if k < without.len() {
                            assert(without[k] == after[k]);
                        }
                    }
                }
                lemma_at(after, without.len() as int);
            }
            assert(contents(after) =~= contents(before).insert(name, buf@));
        }
    }

    /// Removes an entry; what is not there needs no removal.
    pub fn remove(&mut self, primary_namespace: &str, secondary_namespace: &str, key: &str)
        requires
            old(self).wf(),
        ensures
            final(self).wf(),
            final(self)@ == old(self)@.remove((primary_namespace@, secondary_namespace@, key@)),
    {
        let ghost name = (primary_namespace@, secondary_namespace@, key@);
        let ghost before = self.entries@;
        let i: usize = self.find(KvStoreKey::new(primary_namespace, secondary_namespace, key));
        proof {
            lemma_entry_index(before, name);
        }
        if i < self.entries.len() {
            self.entries.remove(i);
            proof {
                let after = self.entries@;
                assert(distinct(after)) by {
                    assert forall|a: int, b: int| 0 <= a < b < after.len() implies (
                    #[trigger] after[a]).name() != (#[trigger] after[b]).name() by {
                        let ba = if a < i { a } else { a + 1 };
                        let bb = if b < i { b } else { b + 1 };
                        assert(after[a] == before[ba] && after[b] == before[bb]);
                    }
                }
                assert(contents(after) =~= contents(before).remove(name)) by {
                    assert forall|n: KeyView|
                        (entry_index(after, n) < after.len()) == (entry_index(before, n)
                            < before.len() && n != name) && (entry_index(after, n) < after.len()
                            ==> after[entry_index(after, n)] == before[entry_index(before, n)]) by {
                        lemma_entry_index(after, n);
                        lemma_entry_index(before, n);
                        let k = entry_index(before, n);
                        if k < before.len() && n != name {
                            let ak = if k < i { k } else { k - 1 };
                            assert(after[ak] == before[k]);
                            lemma_at(after, ak);
                        }
                        let m = entry_index(after, n);
                        if m < after.len() {
                            let bm = if m < i { m } else { m + 1 };
                            assert(after[m] == before[bm]);
                            lemma_at(before, bm);
                            lemma_at(before, i as int);
                        }
                    }
                }
            }
        } else {
            assert(contents(before).remove(name) =~= contents(before));
        }
    }

    /// The keys of a namespace, each once, in no particular order.
    pub fn list(&self, primary_namespace: &str, secondary_namespace: &str) -> (r: Vec<String>)
        requires
            self.wf(),
        ensures
            forall|k: Seq<char>|
                crate::text::views(r@).contains(k) <==> #[trigger] self@.dom().contains(
                    (primary_namespace@, secondary_namespace@, k),
                ),
            crate::text::views(r@).no_duplicates(),
    {
        let mut out: Vec<String> = Vec::new();
        let mut i: usize = 0;
        let ghost mut at: Seq<int> = seq![];
        while i < self.entries.len()
            invariant
                i <= self.entries.len(),
                self.wf(),
                at.len() == out@.len(),
                forall|k: int|
                    0 <= k < at.len() ==> 0 <= #[trigger] at[k] < i
                        && self.entries@[at[k]].name() == (
                        primary_namespace@,
                        secondary_namespace@,
                        out@[k]@,
                    ),
                forall|a: int, b: int| 0 <= a < b < at.len() ==> at[a] < at[b],
                forall|j: int|
                    0 <= j < i && (#[trigger] self.entries@[j]).primary@ == primary_namespace@
                        && self.entries@[j].secondary@ == secondary_namespace@ ==> at.contains(j),
            decreases self.entries.len() - i,
        {
            let e = &self.entries[i];
            if same(e.primary.as_str(), primary_namespace) && same(
                e.secondary.as_str(),
                secondary_namespace,
            ) {
                out.push(copy(&e.key));
                proof {
                    let before = at;
                    at = at.push(i as int);
                    assert forall|j: int|
                        0 <= j < i + 1 && (#[trigger] self.entries@[j]).primary@
                            == primary_namespace@ && self.entries@[j].secondary@
                            == secondary_namespace@ implies at.contains(j) by {
                        if j < i {
                            assert(before.contains(j));
                            let k = choose|k: int| 0 <= k < before.len() && before[k] == j;
                            assert(at[k] == j);
                        } else {
                            assert(at[before.len() as int] == j);
                        }
                    }
                }
            }
            i = i + 1;
        }
        proof {
            let v = crate::text::views(out@);
            assert forall|k: Seq<char>| v.contains(k) <==> #[trigger] self@.dom().contains(
                (primary_namespace@, secondary_namespace@, k),
            ) by {
                let name = (primary_namespace@, secondary_namespace@, k);
                lemma_entry_index(self.entries@, name);
                if v.contains(k) {
                    let n = choose|n: int| 0 <= n < v.len() && v[n] == k;
                    assert(out@[n]@ == k);
                    lemma_at(self.entries@, at[n]);
                }
                if self@.dom().contains(name) {
                    let j = entry_index(self.entries@, name);
                    assert(self.entries@[j].name() == name);
                    assert(at.contains(j));
                    let n = choose|n: int| 0 <= n < at.len() && at[n] == j;
                    assert(v[n] == out@[n]@);
                    assert(v[n] == k);
                }
            }
            assert forall|a: int, b: int| 0 <= a < v.len() && 0 <= b < v.len() && a != b implies v[a]
                != v[b] by {
                let (lo, hi) = if a < b { (a, b) } else { (b, a) };
                assert(at[lo] < at[hi]);
                assert(self.entries@[at[lo]].name() != self.entries@[at[hi]].name());
                assert(v[lo] == out@[lo]@ && v[hi] == out@[hi]@);
            }
        }
        out
    }

    /// Makes all changes of a transaction.
    pub fn commit(&mut self, ops: Vec<KvOp>)
        requires
            old(self).wf(),
        ensures
            final(self).wf(),
            final(self)@ == all_changed(old(self)@, ops@),
    {
        let ghost start = self@;
        let mut i: usize = 0;
        while i < ops.len()
            invariant
                i <= ops.len(),
                self.wf(),
                self@ == all_changed(start, ops@.take(i as int)),
            decreases ops.len() - i,
        {
            assert(ops@.take(i + 1).drop_last() =~= ops@.take(i as int));
            assert(ops@.take(i + 1).last() == ops@[i as int]);
            match &ops[i] {
                KvOp::Upsert { primary, secondary, key, value } => {
                    self.write(
                        primary.as_str(),
                        secondary.as_str(),
                        key.as_str(),
                        vstd::slice::slice_to_vec(value.as_slice()),
                    );
                },
                KvOp::Delete { primary, secondary, key } => {
                    self.remove(primary.as_str(), secondary.as_str(), key.as_str());
                },
            }
            i = i + 1;
        }
        assert(ops@.take(i as int) =~= ops@);
    }
}

impl Default for MemoryKvStore {
    fn default() -> (r: Self)
        ensures
            r.wf(),
            r@ == Map::<KeyView, Seq<u8>>::empty(),
    {
        let r = MemoryKvStore { entries: Vec::new() };
        assert(r@ =~= Map::<KeyView, Seq<u8>>::empty());
        r
    }
}

// ---------------------------------------------------------------------------------------------
// Laws
// ---------------------------------------------------------------------------------------------

/// A committed write with its intent shows both; a read gives back what was written, and no other
/// entry changes.
pub proof fn law_replicated_write_shows_value_and_intent(
    m: Map<KeyView, Seq<u8>>,
    ops: Seq<KvOp>,
    name: KeyView,
    value: Seq<u8>,
    intent_name: KeyView,
    intent: Seq<u8>,
    other: KeyView,
)
    requires
        all_changed(m, ops) == m.insert(name, value).insert(intent_name, intent),
        name != intent_name,
        other != name,
        other != intent_name,
    ensures
        all_changed(m, ops).dom().contains(name) && all_changed(m, ops)[name] == value,
        all_changed(m, ops).dom().contains(intent_name) && all_changed(m, ops)[intent_name]
            == intent,
        all_changed(m, ops).dom().contains(other) == m.dom().contains(other),
        m.dom().contains(other) ==> all_changed(m, ops)[other] == m[other],
{
}

/// A committed removal with its intent leaves the tombstone and no value.
pub proof fn law_replicated_removal_leaves_a_tombstone(
    m: Map<KeyView, Seq<u8>>,
    ops: Seq<KvOp>,
    name: KeyView,
    intent_name: KeyView,
    intent: Seq<u8>,
)
    requires
        all_changed(m, ops) == m.remove(name).insert(intent_name, intent),
        name != intent_name,
    ensures
        !all_changed(m, ops).dom().contains(name),
        all_changed(m, ops).dom().contains(intent_name) && all_changed(m, ops)[intent_name]
            == intent,
{
}

/// A change touches the entry that it names and no other.
pub proof fn law_changes_touch_one_entry(m: Map<KeyView, Seq<u8>>, op: KvOp, name: KeyView)
    ensures
        op matches KvOp::Upsert { primary, secondary, key, value } ==> changed(m, op).dom().contains(
            (primary@, secondary@, key@),
        ) && changed(m, op)[(primary@, secondary@, key@)] == value@ && (name != (
        primary@,
        secondary@,
        key@,
    ) ==> changed(m, op).dom().contains(name) == m.dom().contains(name) && changed(m, op)[name]
            == m[name]),
        op matches KvOp::Delete { primary, secondary, key } ==> !changed(m, op).dom().contains(
            (primary@, secondary@, key@),
        ) && (name != (primary@, secondary@, key@) ==> changed(m, op).dom().contains(name)
            == m.dom().contains(name) && changed(m, op)[name] == m[name]),
{
}

/// Every change of a transaction is made, in order: two transactions after each other make what one with
/// the changes of both makes.
pub proof fn law_transactions_make_every_change(
    m: Map<KeyView, Seq<u8>>,
    first: Seq<KvOp>,
    second: Seq<KvOp>,
)
    ensures
        all_changed(all_changed(m, first), second) == all_changed(m, first + second),
        all_changed(m, Seq::empty()) == m,
        first.len() == 1 ==> all_changed(m, first) == changed(m, first[0]),
    decreases second.len(),
{
    if second.len() == 0 {
        assert(first + second == first);
    } else {
        assert((first + second).drop_last() == first + second.drop_last());
        assert((first + second).last() == second.last());
        law_transactions_make_every_change(m, first, second.drop_last());
    }
    if first.len() == 1 {
        assert(all_changed(m, first.drop_last()) == m);
    }
}

/// A write with its intent leaves both behind, whatever stood there, and touches nothing else; without
/// the one it never makes the other.
pub proof fn law_writes_carry_their_intent(
    m: Map<KeyView, Seq<u8>>,
    ops: Seq<KvOp>,
    name: KeyView,
    value: Seq<u8>,
    intent_name: KeyView,
    intent: Seq<u8>,
    other: KeyView,
)
    requires
        writes_with_intent(ops, name, value, intent_name, intent),
        name != intent_name,
    ensures
        all_changed(m, ops).dom().contains(name) && all_changed(m, ops)[name] == value,
        all_changed(m, ops).dom().contains(intent_name) && all_changed(m, ops)[intent_name]
            == intent,
        other != name && other != intent_name ==> all_changed(m, ops).dom().contains(other)
            == m.dom().contains(other) && all_changed(m, ops)[other] == m[other],
{
}

/// A removal with its intent leaves the intent behind and not the value, and touches nothing else.
pub proof fn law_removals_carry_their_intent(
    m: Map<KeyView, Seq<u8>>,
    ops: Seq<KvOp>,
    name: KeyView,
    intent_name: KeyView,
    intent: Seq<u8>,
    other: KeyView,
)
    requires
        removes_with_intent(ops, name, intent_name, intent),
        name != intent_name,
    ensures
        !all_changed(m, ops).dom().contains(name),
        all_changed(m, ops).dom().contains(intent_name) && all_changed(m, ops)[intent_name]
            == intent,
        other != name && other != intent_name ==> all_changed(m, ops).dom().contains(other)
            == m.dom().contains(other) && all_changed(m, ops)[other] == m[other],
{
}

/// A store shows exactly its entries.
pub proof fn law_stores_show_their_entries(s: Seq<StoredEntry>, name: KeyView)
    requires
        distinct(s),
    ensures
        contents(s).dom().contains(name) <==> exists|i: int|
            0 <= i < s.len() && (#[trigger] s[i]).name() == name,
        forall|i: int|
            0 <= i < s.len() && (#[trigger] s[i]).name() == name ==> contents(s)[name] == s[i].value@,
{
    lemma_entry_index(s, name);
    assert forall|i: int| 0 <= i < s.len() && (#[trigger] s[i]).name() == name implies contents(
        s,
    ).dom().contains(name) && contents(s)[name] == s[i].value@ by {
        lemma_at(s, i);
    }
    if contents(s).dom().contains(name) {
        assert(s[entry_index(s, name)].name() == name);
    }
}

} // verus!
