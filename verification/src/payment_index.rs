//! Indices for payments that were stored before payments had an index.

use vstd::prelude::*;

use crate::payments::{well_indexed, PaymentInfo, Payments};
use crate::table::{lemma_slot_of, lemma_slots, Id, Table};

verus! {

/// A payment without an index.
#[derive(Clone, Copy, Debug, PartialEq, Eq, Structural)]
pub struct Unindexed {
    pub created_at: u64,
    pub id: Id,
    pub inbound: bool,
}

/// Whether one payment comes before another: by time of creation, then by identifier, an inbound
/// payment first.
pub open spec fn older(a: Unindexed, b: Unindexed) -> bool {
    ||| a.created_at < b.created_at
    ||| a.created_at == b.created_at && a.id.hi < b.id.hi
    ||| a.created_at == b.created_at && a.id.hi == b.id.hi && a.id.lo < b.id.lo
    ||| a.created_at == b.created_at && a.id == b.id && a.inbound && !b.inbound
}

/// Whether payments stand from the oldest to the newest, each once.
pub open spec fn in_order(order: Seq<Unindexed>) -> bool {
    forall|i: int, j: int| 0 <= i < j < order.len() ==> older(#[trigger] order[i], #[trigger] order[j])
}

/// Whether a payment is one of those without an index.
pub open spec fn is_unindexed(
    x: Unindexed,
    inbound: Map<Id, PaymentInfo>,
    outbound: Map<Id, PaymentInfo>,
) -> bool {
    let payments = if x.inbound {
        inbound
    } else {
        outbound
    };
    &&& payments.dom().contains(x.id)
    &&& payments[x.id].payment_idx is None
    &&& payments[x.id].created_at == x.created_at
}

/// Whether payments are all those without an index, from the oldest to the newest.
pub open spec fn is_backlog(
    order: Seq<Unindexed>,
    inbound: Map<Id, PaymentInfo>,
    outbound: Map<Id, PaymentInfo>,
) -> bool {
    &&& in_order(order)
    &&& forall|x: Unindexed| #[trigger]
        order.contains(x) <==> is_unindexed(x, inbound, outbound)
}

/// Whether a bound is met by every index of some payments.
pub open spec fn at_most(payments: Map<Id, PaymentInfo>, bound: int) -> bool {
    forall|id: Id| #[trigger]
        payments.dom().contains(id) && payments[id].payment_idx is Some
            ==> payments[id].payment_idx->0 <= bound
}

/// Whether a number is the highest index of the payments, zero where none has one.
pub open spec fn is_highest(
    highest: u64,
    inbound: Map<Id, PaymentInfo>,
    outbound: Map<Id, PaymentInfo>,
) -> bool {
    &&& at_most(inbound, highest as int)
    &&& at_most(outbound, highest as int)
    &&& highest == 0 || has_index(inbound, highest) || has_index(outbound, highest)
}

/// Whether some payment has an index.
pub open spec fn has_index(payments: Map<Id, PaymentInfo>, index: u64) -> bool {
    exists|id: Id| #[trigger]
        payments.dom().contains(id) && payments[id].payment_idx == Some(index)
}

/// A payment with an index.
pub open spec fn indexed(p: PaymentInfo, index: u64) -> PaymentInfo {
    PaymentInfo { payment_idx: Some(index), ..p }
}

/// Whether the payments of one direction are what numbering a backlog makes of them.
pub open spec fn numbered(
    before: Map<Id, PaymentInfo>,
    after: Map<Id, PaymentInfo>,
    inbound: bool,
    order: Seq<Unindexed>,
    first: int,
) -> bool {
    &&& after.dom() == before.dom()
    &&& forall|id: Id| #[trigger]
        before.dom().contains(id) && !names(order, id, inbound) ==> after[id] == before[id]
    &&& forall|k: int|
        0 <= k < order.len() && (#[trigger] order[k]).inbound == inbound ==> after[order[k].id]
            == indexed(before[order[k].id], (first + k) as u64)
}

/// Whether a backlog holds a payment.
pub open spec fn names(order: Seq<Unindexed>, id: Id, inbound: bool) -> bool {
    exists|k: int|
        0 <= k < order.len() && (#[trigger] order[k]).id == id && order[k].inbound == inbound
}

/// How many payments of some entries have no index.
pub open spec fn unindexed_in(slots: Seq<(Id, PaymentInfo)>) -> nat
    decreases slots.len(),
{
    if slots.len() == 0 {
        0
    } else {
        unindexed_in(slots.drop_last()) + if slots.last().1.payment_idx is None {
            1nat
        } else {
            0nat
        }
    }
}

/// How many payments have no index.
pub open spec fn backlog_size(payments: Payments) -> nat {
    unindexed_in(payments.inbound.slots@) + unindexed_in(payments.outbound.slots@)
}

/// Whether the payments are what numbering those without an index makes of them: the oldest gets the
/// number after the highest index, and each next one the number after that.
pub open spec fn backfilled(
    before: Payments,
    after: Payments,
    order: Seq<Unindexed>,
    highest: u64,
) -> bool {
    &&& is_highest(highest, before.inbound@, before.outbound@)
    &&& is_backlog(order, before.inbound@, before.outbound@)
    &&& numbered(before.inbound@, after.inbound@, true, order, highest + 1)
    &&& numbered(before.outbound@, after.outbound@, false, order, highest + 1)
    &&& after.next_payment_idx == highest + order.len() + 1
}

fn is_older(a: Unindexed, b: Unindexed) -> (r: bool)
    ensures
        r == older(a, b),
{
    if a.created_at != b.created_at {
        a.created_at < b.created_at
    } else if a.id.hi != b.id.hi {
        a.id.hi < b.id.hi
    } else if a.id.lo != b.id.lo {
        a.id.lo < b.id.lo
    } else {
        a.inbound && !b.inbound
    }
}

/// Files a payment where it belongs.
fn file(order: &mut Vec<Unindexed>, x: Unindexed)
    requires
        in_order(old(order)@),
        !old(order)@.contains(x),
    ensures
        in_order(final(order)@),
        final(order)@.len() == old(order)@.len() + 1,
        forall|y: Unindexed| #[trigger]
            final(order)@.contains(y) <==> y == x || old(order)@.contains(y),
{
    let ghost before = order@;
    let n: usize = order.len();
    let mut i: usize = 0;
    while i < n && is_older(order[i], x)
        invariant
            i <= n,
            n == order@.len(),
            order@ == before,
            forall|j: int| 0 <= j < i ==> older(#[trigger] before[j], x),
        decreases n - i,
    {
        i += 1;
    }
    order.insert(i, x);
    proof {
        let after = order@;
        assert forall|a: int, b: int| 0 <= a < b < after.len() implies older(
            #[trigger] after[a],
            #[trigger] after[b],
        ) by {
            let pa = if a < i {
                a
            } else {
                a - 1
            };
            let pb = if b < i {
                b
            } else {
                b - 1
            };
            if i < n {
                assert(before.contains(before[i as int]));
                assert(before[i as int] != x);
                assert(older(x, before[i as int]));
            }
            if a != i {
                assert(after[a] == before[pa]);
            }
            if b != i {
                assert(after[b] == before[pb]);
            }
            if a == i && pb > i {
                assert(older(before[i as int], before[pb]));
            }
        }
        assert(after[i as int] == x);
        assert forall|y: Unindexed| #[trigger] after.contains(y) <==> y == x || before.contains(
            y,
        ) by {
            if before.contains(y) {
                let k = before.index_of(y);
                assert(before[k] == y);
                assert(after[if k < i {
                    k
                } else {
                    k + 1
                }] == y);
            }
            if after.contains(y) && y != x {
                let k = after.index_of(y);
                assert(after[k] == y);
                assert(before[if k < i {
                    k
                } else {
                    k - 1
                }] == y);
            }
        }
    }
}

/// Whether a payment is the unindexed one of a slot.
spec fn in_slot(x: Unindexed, slot: (Id, PaymentInfo), inbound: bool) -> bool {
    x.inbound == inbound && slot.0 == x.id && slot.1.payment_idx is None && slot.1.created_at
        == x.created_at
}

spec fn in_slots(x: Unindexed, slots: Seq<(Id, PaymentInfo)>, n: int, inbound: bool) -> bool {
    exists|j: int| 0 <= j < n && in_slot(x, #[trigger] slots[j], inbound)
}

/// Files the payments of one direction that have no index.
fn file_unindexed(order: &mut Vec<Unindexed>, table: &Table<PaymentInfo>, inbound: bool)
    requires
        table.wf(),
        in_order(old(order)@),
        forall|x: Unindexed| #[trigger] old(order)@.contains(x) ==> x.inbound != inbound,
    ensures
        in_order(final(order)@),
        final(order)@.len() == old(order)@.len() + unindexed_in(table.slots@),
        forall|x: Unindexed| #[trigger]
            final(order)@.contains(x) <==> old(order)@.contains(x) || in_slots(
                x,
                table.slots@,
                table.slots@.len() as int,
                inbound,
            ),
{
    let ghost before = order@;
    let n: usize = table.slots.len();
    let mut i: usize = 0;
    while i < n
        invariant
            i <= n,
            n == table.slots@.len(),
            table.wf(),
            in_order(order@),
            order@.len() == before.len() + unindexed_in(table.slots@.take(i as int)),
            forall|x: Unindexed| #[trigger] before.contains(x) ==> x.inbound != inbound,
            forall|x: Unindexed| #[trigger]
                order@.contains(x) <==> before.contains(x) || in_slots(
                    x,
                    table.slots@,
                    i as int,
                    inbound,
                ),
        decreases n - i,
    {
        let ghost filed = order@;
        let ghost slot = table.slots@[i as int];
        assert(table.slots@.take(i + 1).drop_last() =~= table.slots@.take(i as int));
        if table.slots[i].1.payment_idx.is_none() {
            let x = Unindexed {
                created_at: table.slots[i].1.created_at,
                id: table.slots[i].0,
                inbound,
            };
            proof {
                if in_slots(x, table.slots@, i as int, inbound) {
                    let j = choose|j: int|
                        0 <= j < i && in_slot(x, #[trigger] table.slots@[j], inbound);
                    assert(table.slots@[j].0 == slot.0);
                    assert(crate::table::places(table.index)[slot.0.key()] == i);
                    assert(crate::table::places(table.index)[table.slots@[j].0.key()] == j);
                }
            }
            file(order, x);
            assert(in_slot(x, slot, inbound));
        }
        proof {
            assert forall|x: Unindexed| #[trigger]
                order@.contains(x) <==> before.contains(x) || in_slots(
                    x,
                    table.slots@,
                    i + 1,
                    inbound,
                ) by {
                if in_slots(x, table.slots@, i as int, inbound) {
                    let j = choose|j: int|
                        0 <= j < i && in_slot(x, #[trigger] table.slots@[j], inbound);
                    assert(in_slot(x, table.slots@[j], inbound));
                }
                if in_slots(x, table.slots@, i + 1, inbound) && !in_slots(
                    x,
                    table.slots@,
                    i as int,
                    inbound,
                ) {
                    let j = choose|j: int|
                        0 <= j < i + 1 && in_slot(x, #[trigger] table.slots@[j], inbound);
                    assert(j == i);
                    assert(in_slot(x, slot, inbound));
                }
                if filed.contains(x) {
                    assert(order@.contains(x));
                }
            }
        }
        i += 1;
    }
    assert(table.slots@.take(n as int) =~= table.slots@);
}

/// The highest index of some payments, or the given one where it is higher.
fn highest_index(table: &Table<PaymentInfo>, from: u64) -> (r: u64)
    requires
        table.wf(),
    ensures
        at_most(table@, r as int),
        r >= from,
        r == from || has_index(table@, r),
{
    let n: usize = table.slots.len();
    let mut highest = from;
    let mut i: usize = 0;
    while i < n
        invariant
            i <= n,
            n == table.slots@.len(),
            table.wf(),
            highest >= from,
            forall|j: int|
                0 <= j < i && (#[trigger] table.slots@[j]).1.payment_idx is Some
                    ==> table.slots@[j].1.payment_idx->0 <= highest,
            highest == from || has_index(table@, highest),
        decreases n - i,
    {
        if let Some(index) = table.slots[i].1.payment_idx {
            if index > highest {
                highest = index;
                proof {
                    lemma_slots(*table, i as int);
                    assert(table@.dom().contains(table.slots@[i as int].0));
                }
            }
        }
        i += 1;
    }
    proof {
        assert forall|id: Id| #[trigger]
            table@.dom().contains(id) && table@[id].payment_idx is Some implies table@[id].payment_idx->0
            <= highest by {
            let j = lemma_slot_of(*table, id);
        }
    }
    highest
}

/// Gives a payment its index.
fn number(table: &mut Table<PaymentInfo>, id: Id, index: u64)
    requires
        old(table).wf(),
        old(table)@.dom().contains(id),
    ensures
        final(table).wf(),
        final(table)@ == old(table)@.insert(id, indexed(old(table)@[id], index)),
{
    match table.get(id) {
        Some(p) => {
            let mut p = p.duplicate();
            p.payment_idx = Some(index);
            table.insert(id, p);
        },
        None => {
            assert(false);
        },
    }
}

proof fn lemma_numbered_one(
    before: Map<Id, PaymentInfo>,
    now: Map<Id, PaymentInfo>,
    after: Map<Id, PaymentInfo>,
    inbound: bool,
    order: Seq<Unindexed>,
    k: int,
    first: int,
)
    requires
        0 <= k < order.len(),
        in_order(order),
        numbered(before, now, inbound, order.take(k), first),
        order[k].inbound == inbound ==> before.dom().contains(order[k].id),
        after == (if order[k].inbound == inbound {
            now.insert(order[k].id, indexed(now[order[k].id], (first + k) as u64))
        } else {
            now
        }),
        // No payment is named twice.
        forall|i: int, j: int|
            0 <= i < j < order.len() ==> (#[trigger] order[i]).id != (#[trigger] order[j]).id
                || order[i].inbound != order[j].inbound,
    ensures
        numbered(before, after, inbound, order.take(k + 1), first),
{
    let shorter = order.take(k);
    let longer = order.take(k + 1);
    let x = order[k];
    assert(longer[k] == x);
    assert(!names(shorter, x.id, x.inbound)) by {
        if names(shorter, x.id, x.inbound) {
            let j = choose|j: int|
                0 <= j < shorter.len() && (#[trigger] shorter[j]).id == x.id && shorter[j].inbound
                    == x.inbound;
            assert(order[j].id == x.id);
        }
    }
    assert(after.dom() =~= before.dom());
    assert forall|id: Id| #[trigger]
        before.dom().contains(id) && !names(longer, id, inbound) implies after[id]
        == before[id] by {
        if names(shorter, id, inbound) {
            let j = choose|j: int|
                0 <= j < shorter.len() && (#[trigger] shorter[j]).id == id && shorter[j].inbound
                    == inbound;
            assert(longer[j] == shorter[j]);
        }
        if x.inbound == inbound && x.id == id {
            assert(names(longer, id, inbound));
        }
    }
    assert forall|j: int|
        0 <= j < longer.len() && (#[trigger] longer[j]).inbound == inbound implies after[longer[j].id]
        == indexed(before[longer[j].id], (first + j) as u64) by {
        if j < k {
            assert(longer[j] == shorter[j]);
            assert(order[j] == longer[j]);
            assert(shorter[j].inbound == inbound);
        } else if x.inbound == inbound {
            assert(now[x.id] == before[x.id]);
        }
    }
}

impl Payments {
    /// Numbers the payments that have no index, and sets the next index after them. The result says
    /// whether there were any, so that the payments have to be stored.
    pub fn backfill_payment_indices(&mut self) -> (r: bool)
        requires
            old(self).wf(),
            at_most(old(self).inbound@, u64::MAX - 1 - backlog_size(*old(self))),
            at_most(old(self).outbound@, u64::MAX - 1 - backlog_size(*old(self))),
            backlog_size(*old(self)) < u64::MAX,
        ensures
            final(self).wf(),
            exists|order: Seq<Unindexed>, highest: u64| #[trigger]
                backfilled(*old(self), *final(self), order, highest) && r == (order.len() > 0),
    {
        let ghost before = *self;
        let highest = highest_index(&self.inbound, 0);
        let highest = highest_index(&self.outbound, highest);
        let mut order: Vec<Unindexed> = Vec::new();
        file_unindexed(&mut order, &self.inbound, true);
        let ghost half = order@;
        proof {
            assert forall|x: Unindexed| #[trigger] order@.contains(x) implies x.inbound by {
                assert(in_slots(x, self.inbound.slots@, self.inbound.slots@.len() as int, true));
            }
        }
        file_unindexed(&mut order, &self.outbound, false);
        proof {
            assert forall|x: Unindexed| #[trigger] order@.contains(x) <==> is_unindexed(
                x,
                self.inbound@,
                self.outbound@,
            ) by {
                let (table, side) = if x.inbound {
                    (self.inbound, true)
                } else {
                    (self.outbound, false)
                };
                assert(half.contains(x) <==> in_slots(
                    x,
                    self.inbound.slots@,
                    self.inbound.slots@.len() as int,
                    true,
                ));
                if in_slots(x, table.slots@, table.slots@.len() as int, side) {
                    let j = choose|j: int|
                        0 <= j < table.slots@.len() && in_slot(x, #[trigger] table.slots@[j], side);
                    lemma_slots(table, j);
                }
                if is_unindexed(x, self.inbound@, self.outbound@) {
                    let j = lemma_slot_of(table, x.id);
                    assert(in_slot(x, table.slots@[j], side));
                }
            }
            assert forall|i: int, j: int| 0 <= i < j < order@.len() implies (
            #[trigger] order@[i]).id != (#[trigger] order@[j]).id || order@[i].inbound
                != order@[j].inbound by {
                assert(order@.contains(order@[i]));
                assert(order@.contains(order@[j]));
                assert(older(order@[i], order@[j]));
            }
            assert(is_highest(highest, self.inbound@, self.outbound@));
            if has_index(self.inbound@, highest) {
            } else if has_index(self.outbound@, highest) {
            }
            assert(order@.take(0) =~= Seq::<Unindexed>::empty());
        }
        let n: usize = order.len();
        let mut k: usize = 0;
        while k < n
            invariant
                k <= n,
                n == order@.len(),
                highest + n + 1 <= u64::MAX,
                self.wf(),
                is_backlog(order@, before.inbound@, before.outbound@),
                forall|i: int, j: int|
                    0 <= i < j < order@.len() ==> (#[trigger] order@[i]).id != (
                    #[trigger] order@[j]).id || order@[i].inbound != order@[j].inbound,
                numbered(
                    before.inbound@,
                    self.inbound@,
                    true,
                    order@.take(k as int),
                    highest + 1,
                ),
                numbered(
                    before.outbound@,
                    self.outbound@,
                    false,
                    order@.take(k as int),
                    highest + 1,
                ),
            decreases n - k,
        {
            let ghost now = *self;
            let x = order[k];
            assert(order@.contains(order@[k as int]));
            let index: u64 = highest + 1 + k as u64;
            if x.inbound {
                number(&mut self.inbound, x.id, index);
            } else {
                number(&mut self.outbound, x.id, index);
            }
            proof {
                lemma_numbered_one(
                    before.inbound@,
                    now.inbound@,
                    self.inbound@,
                    true,
                    order@,
                    k as int,
                    highest + 1,
                );
                lemma_numbered_one(
                    before.outbound@,
                    now.outbound@,
                    self.outbound@,
                    false,
                    order@,
                    k as int,
                    highest + 1,
                );
            }
            k += 1;
        }
        self.next_payment_idx = highest + n as u64 + 1;
        assert(order@.take(n as int) =~= order@);
        assert(backfilled(before, *self, order@, highest));
        n > 0
    }
}

/// After the backfill every payment has an index of its own, below the next one, provided that the
/// indices that were there differed from each other.
pub proof fn law_backfill_completes_the_indices(
    before: Payments,
    after: Payments,
    order: Seq<Unindexed>,
    highest: u64,
)
    requires
        backfilled(before, after, order, highest),
        well_indexed(before.inbound@, before.outbound@, u64::MAX),
        highest < u64::MAX,
    ensures
        well_indexed(after.inbound@, after.outbound@, after.next_payment_idx),
        forall|id: Id| #[trigger]
            after.inbound@.dom().contains(id) ==> after.inbound@[id].payment_idx is Some,
        forall|id: Id| #[trigger]
            after.outbound@.dom().contains(id) ==> after.outbound@[id].payment_idx is Some,
{
    assert forall|id: Id| #[trigger] after.inbound@.dom().contains(id) implies origin(
        before.inbound@,
        after.inbound@,
        order,
        highest,
        id,
        true,
    ) by {
        lemma_origin(before, after, order, highest, id, true);
    }
    assert forall|id: Id| #[trigger] after.outbound@.dom().contains(id) implies origin(
        before.outbound@,
        after.outbound@,
        order,
        highest,
        id,
        false,
    ) by {
        lemma_origin(before, after, order, highest, id, false);
    }
}

/// The place of a payment in a backlog.
spec fn place(order: Seq<Unindexed>, id: Id, inbound: bool) -> int {
    choose|k: int|
        0 <= k < order.len() && (#[trigger] order[k]).id == id && order[k].inbound == inbound
}

/// Whether the index of a payment is its old one, or its place in the backlog above the old ones.
spec fn origin(
    before: Map<Id, PaymentInfo>,
    after: Map<Id, PaymentInfo>,
    order: Seq<Unindexed>,
    highest: u64,
    id: Id,
    inbound: bool,
) -> bool {
    let k = place(order, id, inbound);
    ||| before.dom().contains(id) && before[id].payment_idx is Some && after[id] == before[id]
        && before[id].payment_idx->0 <= highest
    ||| 0 <= k < order.len() && order[k].id == id && order[k].inbound == inbound
        && after[id].payment_idx == Some((highest + 1 + k) as u64) && highest + 1 + k
        <= u64::MAX - 1
}

proof fn lemma_origin(
    before: Payments,
    after: Payments,
    order: Seq<Unindexed>,
    highest: u64,
    id: Id,
    inbound: bool,
)
    requires
        backfilled(before, after, order, highest),
        inbound ==> after.inbound@.dom().contains(id),
        !inbound ==> after.outbound@.dom().contains(id),
    ensures
        origin(
            if inbound {
                before.inbound@
            } else {
                before.outbound@
            },
            if inbound {
                after.inbound@
            } else {
                after.outbound@
            },
            order,
            highest,
            id,
            inbound,
        ),
{
    let m = if inbound {
        before.inbound@
    } else {
        before.outbound@
    };
    if m[id].payment_idx is None {
        let x = Unindexed { created_at: m[id].created_at, id, inbound };
        assert(is_unindexed(x, before.inbound@, before.outbound@));
        assert(order.contains(x));
        let k = order.index_of(x);
        assert(order[k] == x);
        assert(names(order, id, inbound));
        let p = place(order, id, inbound);
        assert(order[p].id == id);
    } else {
        if names(order, id, inbound) {
            let k = place(order, id, inbound);
            assert(order.contains(order[k]));
            assert(is_unindexed(order[k], before.inbound@, before.outbound@));
        }
        assert(m.dom().contains(id));
    }
}

/// A payment made earlier never gets a higher index in the backfill than one made later.
pub proof fn law_backfill_follows_creation(
    before: Payments,
    after: Payments,
    order: Seq<Unindexed>,
    highest: u64,
    a: Unindexed,
    b: Unindexed,
)
    requires
        backfilled(before, after, order, highest),
        is_unindexed(a, before.inbound@, before.outbound@),
        is_unindexed(b, before.inbound@, before.outbound@),
        a.created_at < b.created_at,
    ensures
        index_after(after, a) is Some,
        index_after(after, b) is Some,
        index_after(after, a)->0 < index_after(after, b)->0,
{
    assert(order.contains(a));
    assert(order.contains(b));
    let i = order.index_of(a);
    let j = order.index_of(b);
    assert(order[i] == a && order[j] == b);
    if j < i {
        assert(older(order[j], order[i]));
    }
}

/// The index of a payment.
pub open spec fn index_after(payments: Payments, x: Unindexed) -> Option<u64> {
    if x.inbound {
        payments.inbound@[x.id].payment_idx
    } else {
        payments.outbound@[x.id].payment_idx
    }
}

/// The backfill only numbers: every payment stays what it was but for its index, an index that was there
/// stays, a new one is above every index that was there, and there is no payment more or less.
pub proof fn law_backfill_only_numbers(
    before: Payments,
    after: Payments,
    order: Seq<Unindexed>,
    highest: u64,
    id: Id,
)
    requires
        backfilled(before, after, order, highest),
    ensures
        after.inbound@.dom() == before.inbound@.dom(),
        after.outbound@.dom() == before.outbound@.dom(),
        before.inbound@.dom().contains(id) ==> after.inbound@[id] == (PaymentInfo {
            payment_idx: after.inbound@[id].payment_idx,
            ..before.inbound@[id]
        }),
        before.outbound@.dom().contains(id) ==> after.outbound@[id] == (PaymentInfo {
            payment_idx: after.outbound@[id].payment_idx,
            ..before.outbound@[id]
        }),
        before.inbound@.dom().contains(id) && before.inbound@[id].payment_idx is Some
            ==> after.inbound@[id] == before.inbound@[id],
        before.outbound@.dom().contains(id) && before.outbound@[id].payment_idx is Some
            ==> after.outbound@[id] == before.outbound@[id],
{
    lemma_only_numbers(before, after, order, highest, id, true);
    lemma_only_numbers(before, after, order, highest, id, false);
}

proof fn lemma_only_numbers(
    before: Payments,
    after: Payments,
    order: Seq<Unindexed>,
    highest: u64,
    id: Id,
    inbound: bool,
)
    requires
        backfilled(before, after, order, highest),
    ensures
        ({
            let was = if inbound {
                before.inbound@
            } else {
                before.outbound@
            };
            let is = if inbound {
                after.inbound@
            } else {
                after.outbound@
            };
            was.dom().contains(id) ==> is[id] == (PaymentInfo {
                payment_idx: is[id].payment_idx,
                ..was[id]
            }) && (was[id].payment_idx is Some ==> is[id] == was[id])
        }),
{
    let was = if inbound {
        before.inbound@
    } else {
        before.outbound@
    };
    let is = if inbound {
        after.inbound@
    } else {
        after.outbound@
    };
    if was.dom().contains(id) && names(order, id, inbound) {
        let k = choose|k: int|
            0 <= k < order.len() && (#[trigger] order[k]).id == id && order[k].inbound == inbound;
        assert(order.contains(order[k]));
        assert(is_unindexed(order[k], before.inbound@, before.outbound@));
        assert(is[order[k].id] == indexed(was[order[k].id], (highest + 1 + k) as u64));
    }
}

/// Of two payments of one time, the backfill numbers the one with the lower identifier first, and an
/// inbound payment before the outbound one of the same identifier.
pub proof fn law_backfill_breaks_ties(
    before: Payments,
    after: Payments,
    order: Seq<Unindexed>,
    highest: u64,
    a: Unindexed,
    b: Unindexed,
)
    requires
        backfilled(before, after, order, highest),
        is_unindexed(a, before.inbound@, before.outbound@),
        is_unindexed(b, before.inbound@, before.outbound@),
        a.created_at == b.created_at,
        a.id.hi < b.id.hi || (a.id.hi == b.id.hi && a.id.lo < b.id.lo) || (a.id == b.id && a.inbound
            && !b.inbound),
    ensures
        index_after(after, a) is Some && index_after(after, b) is Some,
        highest < index_after(after, a)->0 < index_after(after, b)->0 < after.next_payment_idx,
{
    assert(order.contains(a) && order.contains(b));
    let i = choose|i: int| 0 <= i < order.len() && order[i] == a;
    let j = choose|j: int| 0 <= j < order.len() && order[j] == b;
    if j <= i {
        if j < i {
            assert(older(order[j], order[i]));
        }
    }
    assert(i < j);
    assert(index_after(after, a) == Some((highest + 1 + i) as u64)) by {
        assert(order[i].inbound == a.inbound);
    }
    assert(index_after(after, b) == Some((highest + 1 + j) as u64)) by {
        assert(order[j].inbound == b.inbound);
    }
}

/// The next index leaves no gap: it is one above the highest index after the backfill, or 1 where there
/// is no payment with an index at all.
pub proof fn law_backfill_leaves_no_gap(
    before: Payments,
    after: Payments,
    order: Seq<Unindexed>,
    highest: u64,
)
    requires
        backfilled(before, after, order, highest),
    ensures
        after.next_payment_idx == 1 || has_index(
            after.inbound@,
            (after.next_payment_idx - 1) as u64,
        ) || has_index(after.outbound@, (after.next_payment_idx - 1) as u64),
{
    if order.len() > 0 {
        let x = order[order.len() - 1];
        assert(order.contains(x));
        assert(is_unindexed(x, before.inbound@, before.outbound@));
        let index = (highest + 1 + (order.len() - 1)) as u64;
        if x.inbound {
            assert(after.inbound@[x.id] == indexed(before.inbound@[x.id], index));
            assert(after.inbound@.dom().contains(x.id));
        } else {
            assert(after.outbound@[x.id] == indexed(before.outbound@[x.id], index));
            assert(after.outbound@.dom().contains(x.id));
        }
    } else {
        if has_index(before.inbound@, highest) {
            let id = choose|id: Id| #[trigger]
                before.inbound@.dom().contains(id) && before.inbound@[id].payment_idx == Some(
                    highest,
                );
            assert(!names(order, id, true));
            assert(after.inbound@.dom().contains(id) && after.inbound@[id] == before.inbound@[id]);
        }
        if has_index(before.outbound@, highest) {
            let id = choose|id: Id| #[trigger]
                before.outbound@.dom().contains(id) && before.outbound@[id].payment_idx == Some(
                    highest,
                );
            assert(!names(order, id, false));
            assert(after.outbound@.dom().contains(id) && after.outbound@[id]
                == before.outbound@[id]);
        }
    }
}

} // verus!
