//! Tables keyed by 256-bit identifiers: payment hashes, payment IDs and channel IDs.

use lightning::util::hash_tables::{new_hash_map, HashMap as LdkHashMap};
use vstd::prelude::*;

verus! {

/// A 256-bit identifier, as two big-endian halves.
#[derive(Clone, Copy, Debug, PartialEq, Eq, Structural)]
pub struct Id {
    pub hi: u128,
    pub lo: u128,
}

impl Id {
    pub open spec fn key(self) -> (u128, u128) {
        (self.hi, self.lo)
    }
}

/// Where each identifier of a table stands.
#[verifier::external_body]
#[derive(Debug)]
pub struct IdIndex {
    map: LdkHashMap<(u128, u128), usize>,
}

/// What an index holds.
pub uninterp spec fn places(index: IdIndex) -> Map<(u128, u128), usize>;

/// `lightning::util::hash_tables::new_hash_map`: an empty map.
#[verifier::external_body]
fn new_index() -> (r: IdIndex)
    ensures
        places(r).dom().is_empty(),
{
    IdIndex { map: new_hash_map() }
}

/// `get` of the Lightning library's hash map (that of `hashbrown`): the value under a key, if there
/// is one.
#[verifier::external_body]
fn place_of(index: &IdIndex, id: (u128, u128)) -> (r: Option<usize>)
    ensures
        r is Some <==> places(*index).dom().contains(id),
        r matches Some(i) ==> i == places(*index)[id],
{
    index.map.get(&id).copied()
}

/// `insert` of the Lightning library's hash map: puts a value under a key, in place of the one that
/// stood there.
#[verifier::external_body]
fn set_place(index: &mut IdIndex, id: (u128, u128), place: usize)
    ensures
        places(*final(index)) == places(*old(index)).insert(id, place),
{
    index.map.insert(id, place);
}

/// `remove` of the Lightning library's hash map: takes a key out, if it is there.
#[verifier::external_body]
fn clear_place(index: &mut IdIndex, id: (u128, u128))
    ensures
        places(*final(index)) == places(*old(index)).remove(id),
{
    index.map.remove(&id);
}

/// A table of values by identifier.
#[derive(Debug)]
pub struct Table<V> {
    pub index: IdIndex,
    pub slots: Vec<(Id, V)>,
}

impl<V> View for Table<V> {
    type V = Map<Id, V>;

    open spec fn view(&self) -> Map<Id, V> {
        Map::new(
            |id: Id| places(self.index).dom().contains(id.key()),
            |id: Id| self.slots@[places(self.index)[id.key()] as int].1,
        )
    }
}

impl<V> Table<V> {
    /// The index names exactly the slots, each under its own identifier.
    pub open spec fn wf(self) -> bool {
        &&& forall|i: int|
            #![trigger self.slots@[i]]
            0 <= i < self.slots@.len() ==> places(self.index).dom().contains(
                self.slots@[i].0.key(),
            ) && places(self.index)[self.slots@[i].0.key()] == i
        &&& forall|id: Id| #[trigger]
            places(self.index).dom().contains(id.key()) ==> places(self.index)[id.key()]
                < self.slots@.len() && self.slots@[places(self.index)[id.key()] as int].0 == id
    }

    /// The slot of an identifier that has a value.
    pub open spec fn slot_of(self, id: Id) -> int {
        places(self.index)[id.key()] as int
    }

    /// An empty table.
    pub fn new() -> (r: Self)
        ensures
            r.wf(),
            r@ == Map::<Id, V>::empty(),
    {
        let r = Table { index: new_index(), slots: Vec::new() };
        assert(places(r.index).dom() =~= Set::empty());
        assert(r@ =~= Map::<Id, V>::empty());
        r
    }

    /// The value of an identifier.
    pub fn get(&self, id: Id) -> (r: Option<&V>)
        requires
            self.wf(),
        ensures
            r is Some <==> self@.dom().contains(id),
            r matches Some(v) ==> *v == self@[id],
    {
        match place_of(&self.index, (id.hi, id.lo)) {
            Some(i) => {
                assert(places(self.index).dom().contains(id.key()));
                Some(&self.slots[i].1)
            },
            None => {
                assert(!places(self.index).dom().contains(id.key()));
                None
            },
        }
    }

    /// Whether an identifier has a value.
    pub fn contains(&self, id: Id) -> (r: bool)
        requires
            self.wf(),
        ensures
            r == self@.dom().contains(id),
    {
        self.get(id).is_some()
    }

    /// Puts a value under an identifier, in place of the one that stood there.
    pub fn insert(&mut self, id: Id, value: V)
        requires
            old(self).wf(),
        ensures
            final(self).wf(),
            final(self)@ == old(self)@.insert(id, value),
            final(self).slots@ == (if old(self)@.dom().contains(id) {
                old(self).slots@.update(old(self).slot_of(id), (id, value))
            } else {
                old(self).slots@.push((id, value))
            }),
    {
        let ghost before = *self;
        match place_of(&self.index, (id.hi, id.lo)) {
            Some(i) => {
                assert(places(self.index).dom().contains(id.key()));
                self.slots.set(i, (id, value));
                assert(self.index == before.index);
                assert(self.slots@ == before.slots@.update(i as int, (id, value)));
                proof {
                    assert(self.wf()) by {
                        assert forall|j: int| #![trigger self.slots@[j]] 0 <= j
                            < self.slots@.len() implies places(self.index).dom().contains(
                            self.slots@[j].0.key(),
                        ) && places(self.index)[self.slots@[j].0.key()] == j by {
                            assert(self.slots@[j].0 == before.slots@[j].0);
                        }
                        assert forall|k: Id| #[trigger]
                            places(self.index).dom().contains(k.key()) implies places(
                            self.index,
                        )[k.key()] < self.slots@.len() && self.slots@[places(
                            self.index,
                        )[k.key()] as int].0 == k by {
                            assert(before.slots@[places(before.index)[k.key()] as int].0 == k);
                        }
                    }
                    assert(self@ =~= before@.insert(id, value)) by {
                        assert forall|k: Id| self@.dom().contains(k) implies self@[k]
                            == before@.insert(id, value)[k] by {
                            let p = places(self.index)[k.key()] as int;
                            assert(places(before.index).dom().contains(k.key()));
                            assert(before.slots@[p].0 == k);
                        }
                    }
                }
            },
            None => {
                assert(!places(self.index).dom().contains(id.key()));
                let n: usize = self.slots.len();
                set_place(&mut self.index, (id.hi, id.lo), n);
                self.slots.push((id, value));
                proof {
                    assert forall|j: int| #![trigger self.slots@[j]] 0 <= j
                        < self.slots@.len() implies places(self.index).dom().contains(
                        self.slots@[j].0.key(),
                    ) && places(self.index)[self.slots@[j].0.key()] == j by {
                        if j < n {
                            assert(self.slots@[j] == before.slots@[j]);
                            assert(places(before.index).dom().contains(
                                before.slots@[j].0.key(),
                            ));
                        }
                    }
                    assert forall|k: Id| #[trigger]
                        places(self.index).dom().contains(k.key()) implies places(
                        self.index,
                    )[k.key()] < self.slots@.len() && self.slots@[places(
                        self.index,
                    )[k.key()] as int].0 == k by {
                        if k.key() != id.key() {
                            assert(places(before.index).dom().contains(k.key()));
                        }
                    }
                    assert(self@ =~= before@.insert(id, value)) by {
                        assert forall|k: Id|
                            self@.dom().contains(k) == before@.insert(id, value).dom().contains(
                                k,
                            ) by {
                            assert(k.key() == id.key() <==> k == id);
                        }
                        assert forall|k: Id| self@.dom().contains(k) implies self@[k]
                            == before@.insert(id, value)[k] by {
                            if k != id {
                                assert(k.key() != id.key());
                                assert(places(before.index).dom().contains(k.key()));
                            }
                        }
                    }
                }
            },
        }
    }

    /// Takes an identifier and its value out.
    pub fn remove(&mut self, id: Id) -> (r: Option<V>)
        requires
            old(self).wf(),
        ensures
            final(self).wf(),
            final(self)@ == old(self)@.remove(id),
            r is Some <==> old(self)@.dom().contains(id),
            r matches Some(v) ==> v == old(self)@[id],
    {
        let ghost before = *self;
        match place_of(&self.index, (id.hi, id.lo)) {
            Some(i) => {
                assert(places(self.index).dom().contains(id.key()));
                let n: usize = self.slots.len();
                clear_place(&mut self.index, (id.hi, id.lo));
                let last: Id = self.slots[n - 1].0;
                assert(before.slots@[n - 1].0 == last);
                if i < n - 1 {
                    set_place(&mut self.index, (last.hi, last.lo), i);
                }
                let (_, value) = self.slots.swap_remove(i);
                proof {
                    assert(before.slots@[i as int].0 == id);
                    assert forall|k: Id| k.key() == id.key() <==> k == id by {}
                    assert forall|j: int| #![trigger self.slots@[j]] 0 <= j
                        < self.slots@.len() implies places(self.index).dom().contains(
                        self.slots@[j].0.key(),
                    ) && places(self.index)[self.slots@[j].0.key()] == j by {
                        let bj = if j == i { n - 1 } else { j };
                        assert(self.slots@[j] == before.slots@[bj]);
                        assert(places(before.index)[before.slots@[bj].0.key()] == bj);
                        assert(before.slots@[bj].0 != id);
                        if j != i {
                            assert(before.slots@[bj].0 != last || bj == n - 1);
                        }
                    }
                    assert forall|k: Id| #[trigger]
                        places(self.index).dom().contains(k.key()) implies places(
                        self.index,
                    )[k.key()] < self.slots@.len() && self.slots@[places(
                        self.index,
                    )[k.key()] as int].0 == k by {
                        assert(k != id);
                        assert(places(before.index).dom().contains(k.key()));
                        let bp = places(before.index)[k.key()] as int;
                        assert(before.slots@[bp].0 == k);
                        if k == last {
                            assert(bp == n - 1);
                        } else {
                            assert(bp < n - 1);
                            assert(self.slots@[bp] == before.slots@[bp]);
                        }
                    }
                    assert(self@ =~= before@.remove(id)) by {
                        assert forall|k: Id| self@.dom().contains(k) implies self@[k]
                            == before@[k] by {
                            assert(places(self.index).dom().contains(k.key()));
                            assert(places(before.index).dom().contains(k.key()));
                            let bp = places(before.index)[k.key()] as int;
                            let p = places(self.index)[k.key()] as int;
                            let bj = if p == i { n - 1 } else { p };
                            assert(self.slots@[p] == before.slots@[bj]);
                            assert(before.slots@[bj].0 == k);
                            assert(places(before.index)[before.slots@[bj].0.key()] == bj);
                        }
                    }
                }
                Some(value)
            },
            None => {
                assert(!places(self.index).dom().contains(id.key()));
                assert(before@.remove(id) =~= before@);
                None
            },
        }
    }

    /// Replaces the value of a slot.
    pub fn put_at(&mut self, i: usize, value: V)
        requires
            old(self).wf(),
            i < old(self).slots@.len(),
        ensures
            final(self).wf(),
            final(self).index == old(self).index,
            final(self).slots@ == old(self).slots@.update(i as int, (old(self).slots@[i as int].0, value)),
            final(self)@ == old(self)@.insert(old(self).slots@[i as int].0, value),
    {
        let ghost before = *self;
        let id: Id = self.slots[i].0;
        self.slots.set(i, (id, value));
        proof {
            lemma_mapped(before, *self);
            assert(self@ =~= before@.insert(id, value)) by {
                lemma_slots(before, i as int);
                assert forall|k: Id| self@.dom().contains(k) implies self@[k] == before@.insert(
                    id,
                    value,
                )[k] by {
                    let j = lemma_slot_of(before, k);
                    assert(places(before.index)[before.slots@[j].0.key()] == j);
                    assert(places(before.index)[before.slots@[i as int].0.key()] == i);
                }
            }
        }
    }

    /// How many values the table holds.
    pub fn len(&self) -> (r: usize)
        ensures
            r == self.slots@.len(),
    {
        self.slots.len()
    }
}

/// A table whose slots keep their identifiers stays in order.
pub proof fn lemma_mapped<V>(before: Table<V>, after: Table<V>)
    requires
        before.wf(),
        after.index == before.index,
        after.slots@.len() == before.slots@.len(),
        forall|i: int| 0 <= i < before.slots@.len() ==> (#[trigger] after.slots@[i]).0 == before.slots@[i].0,
    ensures
        after.wf(),
        after@.dom() == before@.dom(),
{
    assert forall|j: int| #![trigger after.slots@[j]] 0 <= j < after.slots@.len() implies places(
        after.index,
    ).dom().contains(after.slots@[j].0.key()) && places(after.index)[after.slots@[j].0.key()]
        == j by {
        assert(places(before.index).dom().contains(before.slots@[j].0.key()));
    }
    assert forall|k: Id| #[trigger] places(after.index).dom().contains(k.key()) implies places(
        after.index,
    )[k.key()] < after.slots@.len() && after.slots@[places(after.index)[k.key()] as int].0 == k by {
        let p = places(before.index)[k.key()] as int;
        assert(before.slots@[p].0 == k);
        assert(after.slots@[p].0 == before.slots@[p].0);
    }
    assert(after@.dom() =~= before@.dom());
}

/// The values of a table are those of its slots.
pub proof fn lemma_slots<V>(t: Table<V>, i: int)
    requires
        t.wf(),
        0 <= i < t.slots@.len(),
    ensures
        t@.dom().contains(t.slots@[i].0),
        t@[t.slots@[i].0] == t.slots@[i].1,
{
    assert(places(t.index).dom().contains(t.slots@[i].0.key()));
}

/// Every value of a table has a slot.
pub proof fn lemma_slot_of<V>(t: Table<V>, id: Id) -> (i: int)
    requires
        t.wf(),
        t@.dom().contains(id),
    ensures
        0 <= i < t.slots@.len(),
        t.slots@[i] == (id, t@[id]),
{
    let i = places(t.index)[id.key()] as int;
    assert(places(t.index).dom().contains(id.key()));
    i
}

} // verus!
