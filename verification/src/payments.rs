//! Inbound and outbound payments: their statuses, and the index that orders them.

use vstd::prelude::*;
use vstd::string::*;

use crate::error::APIError;
use crate::rpc::{is_rpc, RpcError, RpcErrorKind};
use crate::table::{lemma_mapped, lemma_slot_of, lemma_slots, Id, Table};
use crate::text::{copy_opt, join2};

verus! {

/// The status of a payment.
#[derive(Clone, Copy, Debug, PartialEq, Eq, Structural)]
pub enum HTLCStatus {
    Pending,
    Claimable,
    Succeeded,
    Cancelled,
    Failed,
}

/// How an invoice is claimed.
#[derive(Clone, Copy, Debug, PartialEq, Eq, Structural)]
pub enum InvoiceType {
    AutoClaim,
    Hodl { async_payment_recipient: bool },
}

/// The compressed public key of a node: its first byte and the rest.
#[derive(Clone, Copy, Debug, PartialEq, Eq, Structural)]
pub struct NodeId {
    pub parity: u8,
    pub x: Id,
}

/// What is kept of a payment.
#[derive(Clone, Debug, PartialEq, Eq)]
pub struct PaymentInfo {
    pub preimage: Option<Id>,
    pub secret: Option<Id>,
    pub status: HTLCStatus,
    pub amt_msat: Option<u64>,
    pub created_at: u64,
    pub updated_at: u64,
    pub payee_pubkey: NodeId,
    pub expires_at: Option<u64>,
    pub claim_deadline_height: Option<u32>,
    pub invoice_type: Option<InvoiceType>,
    pub description: Option<String>,
    pub description_hash: Option<Id>,
    pub payment_idx: Option<u64>,
    pub async_hash_index: Option<u64>,
    pub async_host_node_id: Option<NodeId>,
}

impl PaymentInfo {
    /// A copy of the payment.
    pub fn duplicate(&self) -> (r: Self)
        ensures
            r == *self,
    {
        PaymentInfo {
            preimage: self.preimage,
            secret: self.secret,
            status: self.status,
            amt_msat: self.amt_msat,
            created_at: self.created_at,
            updated_at: self.updated_at,
            payee_pubkey: self.payee_pubkey,
            expires_at: self.expires_at,
            claim_deadline_height: self.claim_deadline_height,
            invoice_type: self.invoice_type,
            description: copy_opt(&self.description),
            description_hash: self.description_hash,
            payment_idx: self.payment_idx,
            async_hash_index: self.async_hash_index,
            async_host_node_id: self.async_host_node_id,
        }
    }
}

/// The payments of a node.
#[derive(Debug)]
pub struct Payments {
    pub inbound: Table<PaymentInfo>,
    pub outbound: Table<PaymentInfo>,
    /// The index that the next payment gets; shared, so that both directions can be paged as one.
    pub next_payment_idx: u64,
}

/// Why a payment cannot be added: one with its identifier stands in the given status.
#[derive(Debug, PartialEq, Eq)]
pub struct DuplicatePayment(pub HTLCStatus);

// ---------------------------------------------------------------------------------------------
// Expiry
// ---------------------------------------------------------------------------------------------

/// A pending payment fails after its expiry, a claimable one at its expiry or its deadline.
pub open spec fn effective_status(
    status: HTLCStatus,
    expires_at: Option<u64>,
    deadline: Option<u32>,
    now: u64,
    height: u32,
) -> HTLCStatus {
    let failed = match status {
        HTLCStatus::Pending => expires_at is Some && now > expires_at->0,
        HTLCStatus::Claimable => (deadline is Some && height >= deadline->0) || (expires_at is Some
            && now >= expires_at->0),
        _ => false,
    };
    if failed {
        HTLCStatus::Failed
    } else {
        status
    }
}

/// The status that an inbound payment has at a given time and height.
pub fn effective_inbound_payment_status(
    status: HTLCStatus,
    expires_at: Option<u64>,
    claim_deadline_height: Option<u32>,
    now: u64,
    height: u32,
) -> (r: HTLCStatus)
    ensures
        r == effective_status(status, expires_at, claim_deadline_height, now, height),
{
    match status {
        HTLCStatus::Pending => match expires_at {
            Some(expiry) if now > expiry => HTLCStatus::Failed,
            _ => status,
        },
        HTLCStatus::Claimable => {
            let past_deadline = match claim_deadline_height {
                Some(deadline) => height >= deadline,
                None => false,
            };
            let expired = match expires_at {
                Some(expiry) => now >= expiry,
                None => false,
            };
            if past_deadline || expired {
                HTLCStatus::Failed
            } else {
                status
            }
        },
        _ => status,
    }
}

/// A payment as it stands at a given time and height.
pub open spec fn projected(p: PaymentInfo, now: u64, height: u32) -> PaymentInfo {
    let status = effective_status(
        p.status,
        p.expires_at,
        p.claim_deadline_height,
        now,
        height,
    );
    if status == p.status {
        p
    } else {
        PaymentInfo { status, updated_at: now, ..p }
    }
}

/// Whether a payment has expired at a given time and height.
pub open spec fn has_expired(p: PaymentInfo, now: u64, height: u32) -> bool {
    effective_status(p.status, p.expires_at, p.claim_deadline_height, now, height) != p.status
}

/// A payment after the expired pending ones were failed; claimable ones are failed with their HTLCs.
pub open spec fn settled(p: PaymentInfo, now: u64, height: u32) -> PaymentInfo {
    if p.status == HTLCStatus::Pending {
        projected(p, now, height)
    } else {
        p
    }
}

/// Whether a slot holds the given payment, claimable and expired.
spec fn is_expired_claimable(slot: (Id, PaymentInfo), id: Id, now: u64, height: u32) -> bool {
    slot.0 == id && slot.1.status == HTLCStatus::Claimable && has_expired(slot.1, now, height)
}

spec fn expired_claimable_in(
    id: Id,
    slots: Seq<(Id, PaymentInfo)>,
    now: u64,
    height: u32,
) -> bool {
    exists|j: int|
        0 <= j < slots.len() && is_expired_claimable(#[trigger] slots[j], id, now, height)
}

/// What the expiry of inbound payments leads to.
struct ExpiredInbound {
    /// Whether any payment changed.
    changed: bool,
    /// The claimable payments whose HTLCs are to be failed backwards.
    claimables: Vec<Id>,
}

/// What listing the inbound payments leads to.
#[derive(Debug)]
pub enum InboundListing {
    /// The payments to answer with, after the table was stored where that is asked for.
    Listed { payments: Vec<(Id, PaymentInfo)>, save: bool },
    /// The claimable payments whose HTLCs are to be failed backwards, after the table was stored
    /// where that is asked for; the payments are listed after that.
    FailBackwards { claimables: Vec<Id>, save: bool },
}

/// Whether an inbound payment has expired before its HTLCs came.
pub open spec fn expired_pending(p: PaymentInfo, now: u64, height: u32) -> bool {
    p.status == HTLCStatus::Pending && has_expired(p, now, height)
}

/// Whether an inbound payment has expired with HTLCs that can be claimed.
pub open spec fn expired_claimable(p: PaymentInfo, now: u64, height: u32) -> bool {
    p.status == HTLCStatus::Claimable && has_expired(p, now, height)
}

/// Whether a table holds a payment that expired before its HTLCs came.
pub open spec fn any_expired_pending(inbound: Map<Id, PaymentInfo>, now: u64, height: u32) -> bool {
    exists|id: Id| #[trigger]
        inbound.dom().contains(id) && expired_pending(inbound[id], now, height)
}

// ---------------------------------------------------------------------------------------------
// Operations
// ---------------------------------------------------------------------------------------------

/// A payment with its index: its own, or the next one.
pub open spec fn stamped(p: PaymentInfo, next: u64) -> PaymentInfo {
    if p.payment_idx is Some {
        p
    } else {
        PaymentInfo { payment_idx: Some(next), ..p }
    }
}

/// The next index after a payment was stamped; it wraps around at the end of its range.
pub open spec fn next_after(p: PaymentInfo, next: u64) -> u64 {
    if p.payment_idx is Some {
        next
    } else if next == u64::MAX {
        0
    } else {
        (next + 1) as u64
    }
}

/// What a claim event makes of a known inbound payment: a missing amount or deadline keeps the old
/// one.
pub open spec fn refreshed(
    p: PaymentInfo,
    status: HTLCStatus,
    preimage: Option<Id>,
    secret: Option<Id>,
    amt_msat: Option<u64>,
    deadline: Option<u32>,
    now: u64,
) -> PaymentInfo {
    PaymentInfo {
        status,
        preimage,
        secret,
        amt_msat: if amt_msat is Some {
            amt_msat
        } else {
            p.amt_msat
        },
        updated_at: now,
        claim_deadline_height: if deadline is Some {
            deadline
        } else {
            p.claim_deadline_height
        },
        ..p
    }
}

/// An inbound payment that only its claim event made known.
pub open spec fn discovered(
    status: HTLCStatus,
    preimage: Option<Id>,
    secret: Option<Id>,
    amt_msat: Option<u64>,
    payee_pubkey: NodeId,
    deadline: Option<u32>,
    invoice_type: Option<InvoiceType>,
    now: u64,
) -> PaymentInfo {
    PaymentInfo {
        preimage,
        secret,
        status,
        amt_msat,
        created_at: now,
        updated_at: now,
        payee_pubkey,
        expires_at: None,
        claim_deadline_height: deadline,
        invoice_type,
        description: None,
        description_hash: None,
        payment_idx: None,
        async_hash_index: None,
        async_host_node_id: None,
    }
}

/// An outbound payment that the channel manager does not know any more.
pub open spec fn is_forgotten(id: Id, p: PaymentInfo, recent: Seq<Id>) -> bool {
    p.status == HTLCStatus::Pending && !recent.contains(id)
}

fn contains_id(ids: &Vec<Id>, id: Id) -> (r: bool)
    ensures
        r == ids@.contains(id),
{
    let mut i: usize = 0;
    while i < ids.len()
        invariant
            i <= ids.len(),
            forall|k: int| 0 <= k < i ==> #[trigger] ids@[k] != id,
        decreases ids.len() - i,
    {
        if ids[i] == id {
            assert(ids@[i as int] == id);
            return true;
        }
        i = i + 1;
    }
    false
}

/// What adding an outbound payment makes of the payments, and how it is answered.
pub open spec fn is_outbound_added(
    before: Payments,
    payment_id: Id,
    payment_info: PaymentInfo,
    after: Payments,
    r: Result<
        (),
        DuplicatePayment,
    >,
) -> bool {
    &&& after.inbound == before.inbound
    &&& ({
                let existing = before.outbound@;
                if existing.dom().contains(payment_id) && existing[payment_id].status
                    != HTLCStatus::Failed {
                    &&& r == Err::<(), DuplicatePayment>(
                        DuplicatePayment(existing[payment_id].status),
                    )
                    &&& after == before
                } else {
                    &&& r is Ok
                    &&& after.outbound@ == existing.insert(
                        payment_id,
                        stamped(payment_info, before.next_payment_idx),
                    )
                    &&& after.next_payment_idx == next_after(
                        payment_info,
                        before.next_payment_idx,
                    )
                }
            })
}

/// What failing the forgotten outbound payments makes of the payments, and whether there were any.
pub open spec fn are_forgotten_failed(
    before: Payments,
    recent: Vec<Id>,
    now: u64,
    after: Payments,
    failed: bool,
) -> bool {
    &&& after.inbound == before.inbound
    &&& after.next_payment_idx == before.next_payment_idx
    &&& after.outbound@.dom() == before.outbound@.dom()
    &&& forall|id: Id| #[trigger]
                before.outbound@.dom().contains(id) ==> after.outbound@[id] == (
                if is_forgotten(id, before.outbound@[id], recent@) {
                    PaymentInfo {
                        status: HTLCStatus::Failed,
                        updated_at: now,
                        ..before.outbound@[id]
                    }
                } else {
                    before.outbound@[id]
                })
    &&& failed <==> exists|id: Id|
                before.outbound@.dom().contains(id) && #[trigger] is_forgotten(
                    id,
                    before.outbound@[id],
                    recent@,
                )
}

/// What a listing of the inbound payments makes of them, and what it leads to.
pub open spec fn is_inbound_listing(
    before: Payments,
    admitted: Result<(), APIError>,
    now: u64,
    height: u32,
    after: Payments,
    r: InboundListing,
) -> bool {
    &&& admitted is Err ==> after == before && (r matches InboundListing::Listed {
                payments,
                save,
            } && !save && payments@ == before.inbound.slots@.map_values(
                |e: (Id, PaymentInfo)| (e.0, projected(e.1, now, height)),
            ))
    &&& admitted is Ok ==> {
                &&& after.outbound == before.outbound
                &&& after.next_payment_idx == before.next_payment_idx
                &&& after.inbound@.dom() == before.inbound@.dom()
                &&& forall|id: Id| #[trigger]
                    before.inbound@.dom().contains(id) ==> after.inbound@[id] == settled(
                        before.inbound@[id],
                        now,
                        height,
                    )
                &&& match r {
                    InboundListing::Listed { payments, save } => {
                        &&& payments@ == after.inbound.slots@
                        &&& save == any_expired_pending(before.inbound@, now, height)
                        &&& forall|id: Id| #[trigger]
                            before.inbound@.dom().contains(id) ==> !expired_claimable(
                                before.inbound@[id],
                                now,
                                height,
                            )
                    },
                    InboundListing::FailBackwards { claimables, save } => {
                        &&& claimables@.len() > 0
                        &&& claimables@.no_duplicates()
                        &&& save == any_expired_pending(before.inbound@, now, height)
                        &&& forall|id: Id|
                            claimables@.contains(id) <==> (#[trigger] before.inbound@.dom().contains(id) && expired_claimable(
                                before.inbound@[id],
                                now,
                                height,
                            ))
                    },
                }
            }
}

/// What a claim event makes of the payments.
pub open spec fn is_upserted(
    before: Payments,
    payment_hash: Id,
    status: HTLCStatus,
    preimage: Option<Id>,
    secret: Option<Id>,
    amt_msat: Option<u64>,
    payee_pubkey: NodeId,
    claim_deadline_height: Option<u32>,
    invoice_type: Option<InvoiceType>,
    now: u64,
    after: Payments,
) -> bool {
    &&& after.outbound == before.outbound
    &&& ({
                let known = before.inbound@;
                if known.dom().contains(payment_hash) {
                    &&& after.inbound@ == known.insert(
                        payment_hash,
                        refreshed(
                            known[payment_hash],
                            status,
                            preimage,
                            secret,
                            amt_msat,
                            claim_deadline_height,
                            now,
                        ),
                    )
                    &&& after.next_payment_idx == before.next_payment_idx
                } else {
                    let p = discovered(
                        status,
                        preimage,
                        secret,
                        amt_msat,
                        payee_pubkey,
                        claim_deadline_height,
                        invoice_type,
                        now,
                    );
                    &&& after.inbound@ == known.insert(
                        payment_hash,
                        stamped(p, before.next_payment_idx),
                    )
                    &&& after.next_payment_idx == next_after(p, before.next_payment_idx)
                }
            })
}

/// What the end of an inbound payment makes of the payments.
pub open spec fn is_failed_backwards(
    before: Payments,
    payment_hash: Id,
    status: HTLCStatus,
    our_node_id: NodeId,
    now: u64,
    after: Payments,
) -> bool {
    &&& after.outbound == before.outbound
    &&& ({
                let known = before.inbound@;
                let next = before.next_payment_idx;
                if known.dom().contains(payment_hash) {
                    &&& after.inbound@ == known.insert(
                        payment_hash,
                        PaymentInfo {
                            status,
                            preimage: None,
                            secret: None,
                            updated_at: now,
                            ..known[payment_hash]
                        },
                    )
                    &&& after.next_payment_idx == next
                } else {
                    let p = discovered(status, None, None, None, our_node_id, None, None, now);
                    &&& after.inbound@ == known.insert(payment_hash, stamped(p, next))
                    &&& after.next_payment_idx == next_after(p, next)
                }
            })
}

/// What the write of a staged payment makes of the payments, and how it is answered.
pub open spec fn is_staged_persisted(
    before: Payments,
    payment_hash: Id,
    staged: PaymentInfo,
    written: Result<(), String>,
    after: Payments,
    r: Result<(), RpcError>,
) -> bool {
    &&& after.outbound == before.outbound
    &&& after.next_payment_idx == before.next_payment_idx
    &&& match written {
                Ok(_) => {
                    &&& r is Ok
                    &&& after.inbound@ == before.inbound@.insert(payment_hash, staged)
                },
                Err(e) => {
                    &&& r is Err && is_rpc(
                        r->Err_0,
                        RpcErrorKind::InternalError,
                        "async_order_request_outbound_invoice_persist_failed: "@ + e@,
                    )
                    &&& after.inbound == before.inbound
                },
            }
}

/// What the end of an outbound payment makes of the payments, and what is given back of it.
pub open spec fn is_outbound_updated(
    before: Payments,
    payment_id: Id,
    status: HTLCStatus,
    preimage: Option<Id>,
    now: u64,
    after: Payments,
    r: PaymentInfo,
) -> bool {
    &&& after.inbound == before.inbound
    &&& after.next_payment_idx == before.next_payment_idx
    &&& r == (PaymentInfo {
                status,
                preimage,
                updated_at: now,
                ..before.outbound@[payment_id]
            })
    &&& after.outbound@ == before.outbound@.insert(payment_id, r)
}

/// What a new status of an outbound payment makes of the payments.
pub open spec fn is_outbound_status_updated(
    before: Payments,
    payment_id: Id,
    status: HTLCStatus,
    now: u64,
    after: Payments,
) -> bool {
    &&& after.inbound == before.inbound
    &&& after.next_payment_idx == before.next_payment_idx
    &&& after.outbound@ == before.outbound@.insert(
                payment_id,
                PaymentInfo { status, updated_at: now, ..before.outbound@[payment_id] },
            )
}

impl Payments {
    pub open spec fn wf(self) -> bool {
        self.inbound.wf() && self.outbound.wf()
    }

    /// Gives a payment the next index, unless it has one.
    pub fn stamp_payment_idx(&mut self, payment_info: &mut PaymentInfo)
        ensures
            *final(payment_info) == stamped(*old(payment_info), old(self).next_payment_idx),
            final(self).next_payment_idx == next_after(
                *old(payment_info),
                old(self).next_payment_idx,
            ),
            final(self).inbound == old(self).inbound,
            final(self).outbound == old(self).outbound,
    {
        if payment_info.payment_idx.is_none() {
            payment_info.payment_idx = Some(self.next_payment_idx);
            self.next_payment_idx = if self.next_payment_idx == u64::MAX {
                0
            } else {
                self.next_payment_idx + 1
            };
        }
    }

    /// Adds an inbound payment, in place of one with the same hash.
    pub fn add_inbound_payment(&mut self, payment_hash: Id, payment_info: PaymentInfo)
        requires
            old(self).wf(),
        ensures
            final(self).wf(),
            final(self).inbound@ == old(self).inbound@.insert(
                payment_hash,
                stamped(payment_info, old(self).next_payment_idx),
            ),
            final(self).outbound == old(self).outbound,
            final(self).next_payment_idx == next_after(payment_info, old(self).next_payment_idx),
    {
        let mut payment_info = payment_info;
        self.stamp_payment_idx(&mut payment_info);
        self.inbound.insert(payment_hash, payment_info);
    }

    /// Adds an outbound payment. Only a failed one may be replaced.
    pub fn add_outbound_payment(&mut self, payment_id: Id, payment_info: PaymentInfo) -> (r: Result<
        (),
        DuplicatePayment,
    >)
        requires
            old(self).wf(),
        ensures
            final(self).wf(),
            is_outbound_added(*old(self), payment_id, payment_info, *final(self), r),
    {
        if let Some(existing_payment) = self.outbound.get(payment_id) {
            if existing_payment.status != HTLCStatus::Failed {
                return Err(DuplicatePayment(existing_payment.status));
            }
        }
        let mut payment_info = payment_info;
        self.stamp_payment_idx(&mut payment_info);
        self.outbound.insert(payment_id, payment_info);
        Ok(())
    }

    /// Fails the pending outbound payments that the channel manager does not know any more; says
    /// whether there were any.
    pub fn fail_outbound_pending_payments(&mut self, recent: &Vec<Id>, now: u64) -> (failed: bool)
        requires
            old(self).wf(),
        ensures
            final(self).wf(),
            are_forgotten_failed(*old(self), *recent, now, *final(self), failed),
    {
        let ghost before = self.outbound;
        let ghost marked = |e: (Id, PaymentInfo)|
            if is_forgotten(e.0, e.1, recent@) {
                (e.0, PaymentInfo { status: HTLCStatus::Failed, updated_at: now, ..e.1 })
            } else {
                e
            };
        let mut failed = false;
        let mut i: usize = 0;
        while i < self.outbound.slots.len()
            invariant
                i <= self.outbound.slots@.len(),
                self.outbound.slots@.len() == before.slots@.len(),
                self.outbound.wf(),
                self.outbound.index == before.index,
                self.inbound == old(self).inbound,
                self.next_payment_idx == old(self).next_payment_idx,
                marked == (|e: (Id, PaymentInfo)|
                    if is_forgotten(e.0, e.1, recent@) {
                        (e.0, PaymentInfo { status: HTLCStatus::Failed, updated_at: now, ..e.1 })
                    } else {
                        e
                    }),
                forall|j: int|
                    0 <= j < i ==> #[trigger] self.outbound.slots@[j] == marked(before.slots@[j]),
                forall|j: int|
                    i <= j < before.slots@.len() ==> #[trigger] self.outbound.slots@[j]
                        == before.slots@[j],
                failed ==> exists|j: int|
                    0 <= j < i && is_forgotten(
                        (#[trigger] before.slots@[j]).0,
                        before.slots@[j].1,
                        recent@,
                    ),
                !failed ==> forall|j: int|
                    0 <= j < i ==> !is_forgotten(
                        (#[trigger] before.slots@[j]).0,
                        before.slots@[j].1,
                        recent@,
                    ),
            decreases self.outbound.slots@.len() - i,
        {
            let id: Id = self.outbound.slots[i].0;
            assert(self.outbound.slots@[i as int] == before.slots@[i as int]);
            if self.outbound.slots[i].1.status == HTLCStatus::Pending && !contains_id(recent, id) {
                let mut payment_info = self.outbound.slots[i].1.duplicate();
                payment_info.status = HTLCStatus::Failed;
                payment_info.updated_at = now;
                self.outbound.put_at(i, payment_info);
                failed = true;
                assert(is_forgotten(
                    before.slots@[i as int].0,
                    before.slots@[i as int].1,
                    recent@,
                ));
            }
            i = i + 1;
        }
        proof {
            lemma_mapped(before, self.outbound);
            assert forall|id: Id| #[trigger] before@.dom().contains(id) implies self.outbound@[id]
                == marked((id, before@[id])).1 by {
                let j = lemma_slot_of(before, id);
                lemma_slots(self.outbound, j);
                assert(self.outbound.slots@[j] == marked(before.slots@[j]));
            }
            if failed {
                let j = choose|j: int|
                    0 <= j < i && is_forgotten(
                        (#[trigger] before.slots@[j]).0,
                        before.slots@[j].1,
                        recent@,
                    );
                lemma_slots(before, j);
            } else {
                assert forall|id: Id| before@.dom().contains(id) implies !(#[trigger] is_forgotten(
                    id,
                    before@[id],
                    recent@,
                )) by {
                    let j = lemma_slot_of(before, id);
                    assert(!is_forgotten(before.slots@[j].0, before.slots@[j].1, recent@));
                }
            }
        }
        failed
    }

    /// The inbound payments as they stand at a given time and height, without changing any.
    pub fn inbound_payments_at(&self, now: u64, height: u32) -> (r: Vec<(Id, PaymentInfo)>)
        requires
            self.wf(),
        ensures
            r@ == self.inbound.slots@.map_values(
                |e: (Id, PaymentInfo)| (e.0, projected(e.1, now, height)),
            ),
    {
        let ghost f = |e: (Id, PaymentInfo)| (e.0, projected(e.1, now, height));
        let mut out: Vec<(Id, PaymentInfo)> = Vec::new();
        let mut i: usize = 0;
        while i < self.inbound.slots.len()
            invariant
                i <= self.inbound.slots@.len(),
                f == (|e: (Id, PaymentInfo)| (e.0, projected(e.1, now, height))),
                out@ == self.inbound.slots@.take(i as int).map_values(f),
            decreases self.inbound.slots@.len() - i,
        {
            let mut p = self.inbound.slots[i].1.duplicate();
            let status = effective_inbound_payment_status(
                p.status,
                p.expires_at,
                p.claim_deadline_height,
                now,
                height,
            );
            if status != p.status {
                p.status = status;
                p.updated_at = now;
            }
            out.push((self.inbound.slots[i].0, p));
            i = i + 1;
            assert(self.inbound.slots@.take(i as int).map_values(f)
                =~= self.inbound.slots@.take(i - 1).map_values(f).push(
                f(self.inbound.slots@[i - 1]),
            ));
        }
        assert(self.inbound.slots@.take(i as int) =~= self.inbound.slots@);
        out
    }

    /// The inbound payments.
    pub fn inbound_payments(&self) -> (r: Vec<(Id, PaymentInfo)>)
        ensures
            r@ == self.inbound.slots@,
    {
        let mut out: Vec<(Id, PaymentInfo)> = Vec::new();
        let mut i: usize = 0;
        while i < self.inbound.slots.len()
            invariant
                i <= self.inbound.slots@.len(),
                out@ == self.inbound.slots@.take(i as int),
            decreases self.inbound.slots@.len() - i,
        {
            out.push((self.inbound.slots[i].0, self.inbound.slots[i].1.duplicate()));
            i = i + 1;
            assert(self.inbound.slots@.take(i as int) =~= self.inbound.slots@.take(i - 1).push(
                self.inbound.slots@[i - 1],
            ));
        }
        assert(self.inbound.slots@.take(i as int) =~= self.inbound.slots@);
        out
    }

    /// Lists the inbound payments. The expired pending ones are failed, and the expired claimable ones
    /// are to be failed backwards before the list is made. While the wallet is not admitted to change,
    /// nothing does: the payments are answered as they stand at the time and height.
    pub fn list_updated_inbound_payments(
        &mut self,
        admitted: Result<(), APIError>,
        now: u64,
        height: u32,
    ) -> (r: InboundListing)
        requires
            old(self).wf(),
        ensures
            final(self).wf(),
            is_inbound_listing(*old(self), admitted, now, height, *final(self), r),
    {
        if admitted.is_err() {
            return InboundListing::Listed {
                payments: self.inbound_payments_at(now, height),
                save: false,
            };
        }
        let ExpiredInbound { changed, claimables } = self.expire_inbound_payments(now, height);
        if claimables.len() == 0 {
            return InboundListing::Listed { payments: self.inbound_payments(), save: changed };
        }
        InboundListing::FailBackwards { claimables, save: changed }
    }

    fn expire_inbound_payments(&mut self, now: u64, height: u32) -> (r: ExpiredInbound)
        requires
            old(self).wf(),
        ensures
            final(self).wf(),
            final(self).outbound == old(self).outbound,
            final(self).next_payment_idx == old(self).next_payment_idx,
            final(self).inbound@.dom() == old(self).inbound@.dom(),
            forall|id: Id| #[trigger]
                old(self).inbound@.dom().contains(id) ==> final(self).inbound@[id] == settled(
                    old(self).inbound@[id],
                    now,
                    height,
                ),
            r.changed == any_expired_pending(old(self).inbound@, now, height),
            forall|id: Id|
                r.claimables@.contains(id) <==> (#[trigger] old(self).inbound@.dom().contains(id)
                    && expired_claimable(old(self).inbound@[id], now, height)),
            r.claimables@.no_duplicates(),
    {
        let ghost before = self.inbound;
        let mut changed = false;
        let mut claimables: Vec<Id> = Vec::new();
        let mut i: usize = 0;
        while i < self.inbound.slots.len()
            invariant
                i <= self.inbound.slots@.len(),
                self.inbound.slots@.len() == before.slots@.len(),
                self.inbound.wf(),
                before.wf(),
                self.inbound.index == before.index,
                claimables@.no_duplicates(),
                self.outbound == old(self).outbound,
                self.next_payment_idx == old(self).next_payment_idx,
                forall|j: int|
                    0 <= j < i ==> #[trigger] self.inbound.slots@[j] == (
                        before.slots@[j].0,
                        settled(before.slots@[j].1, now, height),
                    ),
                forall|j: int|
                    i <= j < before.slots@.len() ==> #[trigger] self.inbound.slots@[j]
                        == before.slots@[j],
                changed ==> exists|j: int|
                    0 <= j < i && (#[trigger] before.slots@[j]).1.status == HTLCStatus::Pending
                        && has_expired(before.slots@[j].1, now, height),
                !changed ==> forall|j: int|
                    0 <= j < i ==> !((#[trigger] before.slots@[j]).1.status == HTLCStatus::Pending
                        && has_expired(before.slots@[j].1, now, height)),
                forall|k: int|
                    0 <= k < claimables@.len() ==> expired_claimable_in(
                        #[trigger] claimables@[k],
                        before.slots@.take(i as int),
                        now,
                        height,
                    ),
                forall|j: int|
                    0 <= j < i && (#[trigger] before.slots@[j]).1.status == HTLCStatus::Claimable
                        && has_expired(before.slots@[j].1, now, height) ==> claimables@.contains(
                        before.slots@[j].0,
                    ),
            decreases self.inbound.slots@.len() - i,
        {
            assert(self.inbound.slots@[i as int] == before.slots@[i as int]);
            let status = self.inbound.slots[i].1.status;
            let effective = effective_inbound_payment_status(
                status,
                self.inbound.slots[i].1.expires_at,
                self.inbound.slots[i].1.claim_deadline_height,
                now,
                height,
            );
            let ghost listed = claimables@;
            if effective != status {
                if status == HTLCStatus::Pending {
                    let mut p = self.inbound.slots[i].1.duplicate();
                    p.status = effective;
                    p.updated_at = now;
                    self.inbound.put_at(i, p);
                    changed = true;
                    assert(before.slots@[i as int].1.status == HTLCStatus::Pending);
                } else {
                    claimables.push(self.inbound.slots[i].0);
                }
            }
            proof {
                let seen = before.slots@.take(i as int);
                assert forall|k: int| 0 <= k < listed.len() implies #[trigger] listed[k]
                    != before.slots@[i as int].0 by {
                    assert(expired_claimable_in(listed[k], seen, now, height));
                    let j = choose|j: int|
                        0 <= j < seen.len() && is_expired_claimable(
                            #[trigger] seen[j],
                            listed[k],
                            now,
                            height,
                        );
                    assert(seen[j] == before.slots@[j]);
                }
                assert forall|j: int|
                    0 <= j < i + 1 && (#[trigger] before.slots@[j]).1.status
                        == HTLCStatus::Claimable && has_expired(
                        before.slots@[j].1,
                        now,
                        height,
                    ) implies claimables@.contains(before.slots@[j].0) by {
                    if j < i {
                        assert(listed.contains(before.slots@[j].0));
                        let k = choose|k: int|
                            0 <= k < listed.len() && listed[k] == before.slots@[j].0;
                        assert(claimables@[k] == listed[k]);
                    } else {
                        assert(claimables@[listed.len() as int] == before.slots@[j].0);
                    }
                }
                let next = before.slots@.take(i + 1);
                assert forall|k: int| 0 <= k < claimables@.len() implies expired_claimable_in(
                    #[trigger] claimables@[k],
                    next,
                    now,
                    height,
                ) by {
                    if k < listed.len() {
                        assert(claimables@[k] == listed[k]);
                        let seen = before.slots@.take(i as int);
                        let j = choose|j: int|
                            0 <= j < seen.len() && is_expired_claimable(
                                #[trigger] seen[j],
                                listed[k],
                                now,
                                height,
                            );
                        assert(next[j] == seen[j]);
                    } else {
                        assert(next[i as int] == before.slots@[i as int]);
                    }
                }
            }
            i = i + 1;
        }
        proof {
            lemma_mapped(before, self.inbound);
            assert forall|id: Id| #[trigger] before@.dom().contains(id) implies self.inbound@[id]
                == settled(before@[id], now, height) by {
                let j = lemma_slot_of(before, id);
                lemma_slots(self.inbound, j);
                assert(self.inbound.slots@[j].0 == before.slots@[j].0);
            }
            if changed {
                let j = choose|j: int|
                    0 <= j < i && (#[trigger] before.slots@[j]).1.status == HTLCStatus::Pending
                        && has_expired(before.slots@[j].1, now, height);
                lemma_slots(before, j);
            } else {
                assert forall|id: Id| #[trigger] before@.dom().contains(id) implies !(
                before@[id].status == HTLCStatus::Pending && has_expired(before@[id], now, height)) by {
                    let j = lemma_slot_of(before, id);
                }
            }
            assert forall|id: Id|
                claimables@.contains(id) <==> (#[trigger] before@.dom().contains(id)
                    && before@[id].status == HTLCStatus::Claimable && has_expired(
                    before@[id],
                    now,
                    height,
                )) by {
                if claimables@.contains(id) {
                    let k = choose|k: int| 0 <= k < claimables@.len() && claimables@[k] == id;
                    let seen = before.slots@.take(i as int);
                    let j = choose|j: int|
                        0 <= j < seen.len() && is_expired_claimable(
                            #[trigger] seen[j],
                            claimables@[k],
                            now,
                            height,
                        );
                    lemma_slots(before, j);
                }
                if before@.dom().contains(id) {
                    let j = lemma_slot_of(before, id);
                }
            }
        }
        ExpiredInbound { changed, claimables }
    }

    /// Records what a claim event says of an inbound payment.
    pub fn upsert_inbound_payment(
        &mut self,
        payment_hash: Id,
        status: HTLCStatus,
        preimage: Option<Id>,
        secret: Option<Id>,
        amt_msat: Option<u64>,
        payee_pubkey: NodeId,
        claim_deadline_height: Option<u32>,
        invoice_type: Option<InvoiceType>,
        now: u64,
    )
        requires
            old(self).wf(),
        ensures
            final(self).wf(),
            is_upserted(*old(self), payment_hash, status, preimage, secret, amt_msat, payee_pubkey, claim_deadline_height, invoice_type, now, *final(self)),
    {
        let existing = match self.inbound.get(payment_hash) {
            Some(p) => Some(p.duplicate()),
            None => None,
        };
        match existing {
            Some(mut payment_info) => {
                payment_info.status = status;
                payment_info.preimage = preimage;
                payment_info.secret = secret;
                if amt_msat.is_some() {
                    payment_info.amt_msat = amt_msat;
                }
                payment_info.updated_at = now;
                if claim_deadline_height.is_some() {
                    payment_info.claim_deadline_height = claim_deadline_height;
                }
                self.inbound.insert(payment_hash, payment_info);
            },
            None => {
                let mut payment_info = PaymentInfo {
                    preimage,
                    secret,
                    status,
                    amt_msat,
                    created_at: now,
                    updated_at: now,
                    payee_pubkey,
                    expires_at: None,
                    claim_deadline_height,
                    invoice_type,
                    description: None,
                    description_hash: None,
                    payment_idx: None,
                    async_hash_index: None,
                    async_host_node_id: None,
                };
                self.stamp_payment_idx(&mut payment_info);
                self.inbound.insert(payment_hash, payment_info);
            },
        }
    }

    /// Records the end of an inbound payment whose HTLCs are failed backwards: its amount and its
    /// deadline stay as they were. Its pending RGB records are dropped after it.
    pub fn fail_htlc_backwards_and_update_inbound_payment(
        &mut self,
        payment_hash: Id,
        status: HTLCStatus,
        our_node_id: NodeId,
        now: u64,
    )
        requires
            old(self).wf(),
        ensures
            final(self).wf(),
            is_failed_backwards(*old(self), payment_hash, status, our_node_id, now, *final(self)),
    {
        self.upsert_inbound_payment(
            payment_hash,
            status,
            None,
            None,
            None,
            our_node_id,
            None,
            None,
            now,
        );
    }

    /// Gives an inbound payment its index without adding it: it is added once it is stored.
    pub fn stage_inbound_payment(&mut self, payment_info: PaymentInfo) -> (r: PaymentInfo)
        ensures
            r == stamped(payment_info, old(self).next_payment_idx),
            final(self).next_payment_idx == next_after(payment_info, old(self).next_payment_idx),
            final(self).inbound == old(self).inbound,
            final(self).outbound == old(self).outbound,
    {
        let mut payment_info = payment_info;
        self.stamp_payment_idx(&mut payment_info);
        payment_info
    }

    /// Adds an inbound payment that was staged and stored; one that could not be stored leaves the
    /// payments as they were.
    pub fn persist_staged_inbound_payment(
        &mut self,
        payment_hash: Id,
        staged: PaymentInfo,
        written: Result<(), String>,
    ) -> (r: Result<(), RpcError>)
        requires
            old(self).wf(),
        ensures
            final(self).wf(),
            is_staged_persisted(*old(self), payment_hash, staged, written, *final(self), r),
    {
        match written {
            Ok(_) => {
                self.inbound.insert(payment_hash, staged);
                Ok(())
            },
            Err(e) => Err(
                RpcError {
                    kind: RpcErrorKind::InternalError,
                    message: join2(
                        "async_order_request_outbound_invoice_persist_failed: ",
                        e.as_str(),
                    ),
                },
            ),
        }
    }

    /// Whether a payment hash may get a new invoice: it has none yet, or one that failed, was
    /// cancelled, or was never paid until it expired.
    pub open spec fn may_reuse(self, payment_hash: Id, now: u64) -> bool {
        self.inbound@.dom().contains(payment_hash) ==> {
            let p = self.inbound@[payment_hash];
            ||| p.status == HTLCStatus::Failed
            ||| p.status == HTLCStatus::Cancelled
            ||| p.status == HTLCStatus::Pending && p.expires_at is Some && now >= p.expires_at->0
        }
    }

    /// Whether a payment hash may get a new invoice.
    pub fn is_reusable(&self, payment_hash: Id, now: u64) -> (r: bool)
        requires
            self.wf(),
        ensures
            r == self.may_reuse(payment_hash, now),
    {
        match self.inbound.get(payment_hash) {
            None => true,
            Some(existing) => {
                let expired = match existing.expires_at {
                    Some(expires_at) => now >= expires_at,
                    None => false,
                };
                existing.status == HTLCStatus::Failed || existing.status == HTLCStatus::Cancelled
                    || (existing.status == HTLCStatus::Pending && expired)
            },
        }
    }

    /// Records how an outbound payment went, with its preimage, and gives it back.
    pub fn update_outbound_payment(
        &mut self,
        payment_id: Id,
        status: HTLCStatus,
        preimage: Option<Id>,
        now: u64,
    ) -> (r: PaymentInfo)
        requires
            old(self).wf(),
            old(self).outbound@.dom().contains(payment_id),
        ensures
            final(self).wf(),
            is_outbound_updated(*old(self), payment_id, status, preimage, now, *final(self), r),
    {
        let mut payment_info = match self.outbound.get(payment_id) {
            Some(p) => p.duplicate(),
            None => vstd::pervasive::unreached(),
        };
        payment_info.status = status;
        payment_info.preimage = preimage;
        payment_info.updated_at = now;
        let payment = payment_info.duplicate();
        self.outbound.insert(payment_id, payment_info);
        payment
    }

    /// Records how an outbound payment went.
    pub fn update_outbound_payment_status(&mut self, payment_id: Id, status: HTLCStatus, now: u64)
        requires
            old(self).wf(),
            old(self).outbound@.dom().contains(payment_id),
        ensures
            final(self).wf(),
            is_outbound_status_updated(*old(self), payment_id, status, now, *final(self)),
    {
        let mut payment_info = match self.outbound.get(payment_id) {
            Some(p) => p.duplicate(),
            None => vstd::pervasive::unreached(),
        };
        payment_info.status = status;
        payment_info.updated_at = now;
        self.outbound.insert(payment_id, payment_info);
    }
}

// ---------------------------------------------------------------------------------------------
// Laws
// ---------------------------------------------------------------------------------------------

/// A listing that changes nothing shows the status that each payment has once an admitted one has
/// failed what expired.
pub proof fn law_listings_agree_on_the_status(p: PaymentInfo, now: u64, height: u32)
    ensures
        projected(p, now, height).status == if expired_claimable(p, now, height) {
            HTLCStatus::Failed
        } else {
            settled(p, now, height).status
        },
{
}

/// The projected status is stable: projecting again changes nothing, and a final status never
/// changes.
pub proof fn law_expiry_is_idempotent(p: PaymentInfo, now: u64, height: u32)
    ensures
        projected(projected(p, now, height), now, height) == projected(p, now, height),
        p.status != HTLCStatus::Pending && p.status != HTLCStatus::Claimable ==> projected(
            p,
            now,
            height,
        ) == p,
{
}

/// Expiry only ever fails a payment, and once it does so it does so for ever after.
pub proof fn law_expiry_is_monotone(
    p: PaymentInfo,
    now: u64,
    height: u32,
    later: u64,
    higher: u32,
)
    requires
        now <= later,
        height <= higher,
        has_expired(p, now, height),
    ensures
        projected(p, now, height).status == HTLCStatus::Failed,
        has_expired(p, later, higher),
{
}

/// Whether every index of the payments is below the next one, and no two payments share one.
pub open spec fn well_indexed(
    inbound: Map<Id, PaymentInfo>,
    outbound: Map<Id, PaymentInfo>,
    next: u64,
) -> bool {
    &&& forall|id: Id| #[trigger]
        inbound.dom().contains(id) && inbound[id].payment_idx is Some ==> inbound[id].payment_idx->0
            < next
    &&& forall|id: Id| #[trigger]
        outbound.dom().contains(id) && outbound[id].payment_idx is Some
            ==> outbound[id].payment_idx->0 < next
    &&& forall|a: Id, b: Id| #[trigger]
        inbound.dom().contains(a) && #[trigger] inbound.dom().contains(b) && a != b
            && inbound[a].payment_idx is Some ==> inbound[a].payment_idx != inbound[b].payment_idx
    &&& forall|a: Id, b: Id| #[trigger]
        outbound.dom().contains(a) && #[trigger] outbound.dom().contains(b) && a != b
            && outbound[a].payment_idx is Some ==> outbound[a].payment_idx
            != outbound[b].payment_idx
    &&& forall|a: Id, b: Id| #[trigger]
        inbound.dom().contains(a) && #[trigger] outbound.dom().contains(b)
            && inbound[a].payment_idx is Some ==> inbound[a].payment_idx != outbound[b].payment_idx
}

/// Adding a new payment keeps the indices of all payments apart, in either direction.
pub proof fn law_new_payments_get_fresh_indices(
    inbound: Map<Id, PaymentInfo>,
    outbound: Map<Id, PaymentInfo>,
    next: u64,
    id: Id,
    p: PaymentInfo,
)
    requires
        well_indexed(inbound, outbound, next),
        p.payment_idx is None,
        next < u64::MAX,
    ensures
        well_indexed(inbound.insert(id, stamped(p, next)), outbound, next_after(p, next)),
        well_indexed(inbound, outbound.insert(id, stamped(p, next)), next_after(p, next)),
{
}

/// A payment that has not come yet fails after its expiry, and one that can be claimed fails from its
/// expiry or its deadline on, whichever is first; nothing else changes a status, and an expired payment
/// keeps everything but its status and the time of its last change.
pub proof fn law_payments_fail_at_their_expiry(p: PaymentInfo, now: u64, height: u32)
    ensures
        ({
            let q = projected(p, now, height);
            &&& p.status == HTLCStatus::Pending && p.expires_at is Some && now > p.expires_at->0
                ==> q.status == HTLCStatus::Failed
            &&& p.status == HTLCStatus::Pending && (p.expires_at is None || now <= p.expires_at->0)
                ==> q == p
            &&& p.status == HTLCStatus::Claimable && p.claim_deadline_height is Some && height
                >= p.claim_deadline_height->0 ==> q.status == HTLCStatus::Failed
            &&& p.status == HTLCStatus::Claimable && p.expires_at is Some && now >= p.expires_at->0
                ==> q.status == HTLCStatus::Failed
            &&& p.status == HTLCStatus::Claimable && (p.expires_at is None || now < p.expires_at->0)
                && (p.claim_deadline_height is None || height < p.claim_deadline_height->0) ==> q == p
            &&& q == p || (q.status == HTLCStatus::Failed && q.updated_at == now)
            &&& q.preimage == p.preimage && q.secret == p.secret && q.amt_msat == p.amt_msat
            &&& q.created_at == p.created_at && q.payee_pubkey == p.payee_pubkey && q.expires_at
                == p.expires_at
            &&& q.claim_deadline_height == p.claim_deadline_height && q.invoice_type
                == p.invoice_type && q.payment_idx == p.payment_idx
            &&& q.description == p.description && q.description_hash == p.description_hash
            &&& q.async_hash_index == p.async_hash_index && q.async_host_node_id
                == p.async_host_node_id
        }),
{
}

/// An outbound payment is never sent twice: while one with its identifier is under way or went through
/// a new one is refused with its status and changes nothing; after a failure it takes its place.
pub proof fn law_outbound_payments_are_sent_once(
    before: Payments,
    payment_id: Id,
    payment_info: PaymentInfo,
    after: Payments,
    r: Result<(), DuplicatePayment>,
)
    requires
        is_outbound_added(before, payment_id, payment_info, after, r),
    ensures
        before.outbound@.dom().contains(payment_id) && before.outbound@[payment_id].status
            != HTLCStatus::Failed ==> after == before && r == Err::<(), DuplicatePayment>(
            DuplicatePayment(before.outbound@[payment_id].status),
        ),
        !before.outbound@.dom().contains(payment_id) || before.outbound@[payment_id].status
            == HTLCStatus::Failed ==> r is Ok && after.outbound@.dom().contains(payment_id),
        r is Ok ==> after.outbound@[payment_id].status == payment_info.status
            && after.outbound@[payment_id].amt_msat == payment_info.amt_msat
            && after.outbound@[payment_id].payment_idx is Some,
        r is Ok && payment_info.payment_idx is None ==> after.outbound@[payment_id].payment_idx
            == Some(before.next_payment_idx) && after.next_payment_idx != before.next_payment_idx,
        forall|other: Id|
            other != payment_id ==> after.outbound@.dom().contains(other)
                == before.outbound@.dom().contains(other) && #[trigger] after.outbound@[other]
                == before.outbound@[other],
        after.inbound == before.inbound,
{
}

/// Two payments that are added one after the other without an index of their own get indices that
/// follow each other.
pub proof fn law_indices_follow_each_other(
    before: Payments,
    a: Id,
    first: PaymentInfo,
    middle: Payments,
    b: Id,
    second: PaymentInfo,
    after: Payments,
)
    requires
        a != b,
        first.payment_idx is None,
        second.payment_idx is None,
        before.next_payment_idx < u64::MAX,
        is_outbound_added(before, a, first, middle, Ok(())),
        is_outbound_added(middle, b, second, after, Ok(())),
    ensures
        after.outbound@[a].payment_idx is Some,
        after.outbound@[b].payment_idx is Some,
        after.outbound@[b].payment_idx->0 == after.outbound@[a].payment_idx->0 + 1,
{
}

/// After a start no pending outbound payment is left that the channel manager does not know; nothing
/// else changes, so that doing it again changes nothing.
pub proof fn law_forgotten_payments_fail(
    before: Payments,
    recent: Vec<Id>,
    now: u64,
    after: Payments,
    failed: bool,
    id: Id,
)
    requires
        are_forgotten_failed(before, recent, now, after, failed),
        before.outbound@.dom().contains(id),
    ensures
        after.outbound@.dom().contains(id),
        after.outbound@[id].status == HTLCStatus::Pending ==> recent@.contains(id),
        before.outbound@[id].status == HTLCStatus::Pending && !recent@.contains(id)
            ==> after.outbound@[id].status == HTLCStatus::Failed && after.outbound@[id].updated_at
            == now && failed,
        before.outbound@[id].status != HTLCStatus::Pending || recent@.contains(id)
            ==> after.outbound@[id] == before.outbound@[id],
        after.outbound@[id].amt_msat == before.outbound@[id].amt_msat && after.outbound@[id].preimage
            == before.outbound@[id].preimage && after.outbound@[id].payment_idx
            == before.outbound@[id].payment_idx,
        !failed ==> after.outbound@ =~= before.outbound@,
        after.inbound == before.inbound,
{
    if !failed {
        assert forall|other: Id| before.outbound@.dom().contains(other) implies after.outbound@[other]
            == before.outbound@[other] by {
            assert(!is_forgotten(other, before.outbound@[other], recent@));
        }
    }
    if before.outbound@[id].status == HTLCStatus::Pending && !recent@.contains(id) {
        assert(is_forgotten(id, before.outbound@[id], recent@));
    }
}

/// A listing of a node that may not change anything changes nothing. An admitted one fails exactly the
/// pending payments whose expiry has passed and asks to store them; it hands exactly the claimable ones
/// that expired back to be failed, and lists none before that.
pub proof fn law_listings_expire_payments(
    before: Payments,
    admitted: Result<(), APIError>,
    now: u64,
    height: u32,
    after: Payments,
    r: InboundListing,
    id: Id,
)
    requires
        is_inbound_listing(before, admitted, now, height, after, r),
        before.inbound@.dom().contains(id),
    ensures
        admitted is Err ==> after == before && (r matches InboundListing::Listed { save, .. } && !save),
        after.inbound@.dom().contains(id),
        ({
            let p = before.inbound@[id];
            let q = after.inbound@[id];
            let save = match r {
                InboundListing::Listed { save, .. } => save,
                InboundListing::FailBackwards { save, .. } => save,
            };
            &&& admitted is Ok && p.status == HTLCStatus::Pending && p.expires_at is Some && now
                > p.expires_at->0 ==> q.status == HTLCStatus::Failed && q.updated_at == now && save
            &&& p.status != HTLCStatus::Pending || p.expires_at is None || now <= p.expires_at->0
                ==> q == p
            &&& admitted is Ok && p.status == HTLCStatus::Claimable && ((p.expires_at is Some && now
                >= p.expires_at->0) || (p.claim_deadline_height is Some && height
                >= p.claim_deadline_height->0)) ==> (r matches InboundListing::FailBackwards {
                claimables,
                ..
            } && claimables@.contains(id))
            &&& r matches InboundListing::FailBackwards { claimables, .. } ==> claimables@.contains(id)
                ==> p.status == HTLCStatus::Claimable
        }),
{
}

/// A claim event of a known payment moves it to the given status with what the event brings, and keeps
/// what the event does not know: when it was made, its expiry, its kind, its index. An unknown payment
/// gets an entry of its own. No other payment changes.
pub proof fn law_claim_events_keep_what_they_do_not_know(
    before: Payments,
    payment_hash: Id,
    status: HTLCStatus,
    preimage: Option<Id>,
    secret: Option<Id>,
    amt_msat: Option<u64>,
    payee_pubkey: NodeId,
    claim_deadline_height: Option<u32>,
    invoice_type: Option<InvoiceType>,
    now: u64,
    after: Payments,
    other: Id,
)
    requires
        is_upserted(
            before,
            payment_hash,
            status,
            preimage,
            secret,
            amt_msat,
            payee_pubkey,
            claim_deadline_height,
            invoice_type,
            now,
            after,
        ),
    ensures
        after.inbound@.dom().contains(payment_hash),
        ({
            let p = before.inbound@[payment_hash];
            let q = after.inbound@[payment_hash];
            let known = before.inbound@.dom().contains(payment_hash);
            &&& q.status == status && q.preimage == preimage && q.secret == secret && q.updated_at
                == now
            &&& amt_msat is Some ==> q.amt_msat == amt_msat
            &&& claim_deadline_height is Some ==> q.claim_deadline_height == claim_deadline_height
            &&& known && amt_msat is None ==> q.amt_msat == p.amt_msat
            &&& known && claim_deadline_height is None ==> q.claim_deadline_height
                == p.claim_deadline_height
            &&& known ==> q.created_at == p.created_at && q.expires_at == p.expires_at
                && q.invoice_type == p.invoice_type && q.payment_idx == p.payment_idx
                && q.payee_pubkey == p.payee_pubkey && q.description == p.description
                && after.next_payment_idx == before.next_payment_idx
            &&& !known ==> q.created_at == now && q.payee_pubkey == payee_pubkey && q.invoice_type
                == invoice_type && q.expires_at is None && q.payment_idx == Some(
                before.next_payment_idx,
            ) && after.next_payment_idx != before.next_payment_idx
        }),
        other != payment_hash ==> after.inbound@.dom().contains(other)
            == before.inbound@.dom().contains(other) && after.inbound@[other]
            == before.inbound@[other],
        after.outbound == before.outbound,
{
}

/// A payment that is failed backwards loses its preimage and its secret and keeps its amount and its
/// deadline; no other payment changes.
pub proof fn law_failed_htlcs_forget_their_secrets(
    before: Payments,
    payment_hash: Id,
    status: HTLCStatus,
    our_node_id: NodeId,
    now: u64,
    after: Payments,
    other: Id,
)
    requires
        is_failed_backwards(before, payment_hash, status, our_node_id, now, after),
    ensures
        after.inbound@.dom().contains(payment_hash),
        ({
            let p = before.inbound@[payment_hash];
            let q = after.inbound@[payment_hash];
            &&& q.status == status && q.preimage is None && q.secret is None && q.updated_at == now
            &&& before.inbound@.dom().contains(payment_hash) ==> q.amt_msat == p.amt_msat
                && q.claim_deadline_height == p.claim_deadline_height && q.created_at == p.created_at
                && q.payment_idx == p.payment_idx && q.invoice_type == p.invoice_type
            &&& !before.inbound@.dom().contains(payment_hash) ==> q.payment_idx == Some(
                before.next_payment_idx,
            ) && q.payee_pubkey == our_node_id && q.amt_msat is None
        }),
        other != payment_hash ==> after.inbound@.dom().contains(other)
            == before.inbound@.dom().contains(other) && after.inbound@[other]
            == before.inbound@[other],
        after.outbound == before.outbound,
{
}

/// A staged payment is added exactly where it was written; a failed write leaves the payments as they
/// were and is answered with an error.
pub proof fn law_staged_payments_are_stored_first(
    before: Payments,
    payment_hash: Id,
    staged: PaymentInfo,
    written: Result<(), String>,
    after: Payments,
    r: Result<(), RpcError>,
)
    requires
        is_staged_persisted(before, payment_hash, staged, written, after, r),
    ensures
        r is Ok <==> written is Ok,
        written is Ok ==> after.inbound@.dom().contains(payment_hash) && after.inbound@[payment_hash]
            == staged,
        written is Err ==> after.inbound == before.inbound,
        after.outbound == before.outbound && after.next_payment_idx == before.next_payment_idx,
{
}

/// A payment hash is not given to a second invoice while the first may still be paid or was paid.
pub proof fn law_hashes_are_reused_only_after_the_end(payments: Payments, payment_hash: Id, now: u64)
    requires
        payments.inbound@.dom().contains(payment_hash),
    ensures
        ({
            let p = payments.inbound@[payment_hash];
            &&& p.status == HTLCStatus::Succeeded || p.status == HTLCStatus::Claimable
                ==> !payments.may_reuse(payment_hash, now)
            &&& p.status == HTLCStatus::Failed || p.status == HTLCStatus::Cancelled
                ==> payments.may_reuse(payment_hash, now)
            &&& p.status == HTLCStatus::Pending && (p.expires_at is None || now < p.expires_at->0)
                ==> !payments.may_reuse(payment_hash, now)
            &&& p.status == HTLCStatus::Pending && p.expires_at is Some && now >= p.expires_at->0
                ==> payments.may_reuse(payment_hash, now)
        }),
{
}

/// How an outbound payment went changes that payment's status, and its preimage where one is given;
/// everything else of it stays, and so do all other payments.
pub proof fn law_outbound_updates_touch_one_payment(
    before: Payments,
    payment_id: Id,
    status: HTLCStatus,
    preimage: Option<Id>,
    now: u64,
    after: Payments,
    r: PaymentInfo,
    only: Payments,
    other: Id,
)
    requires
        before.outbound@.dom().contains(payment_id),
        is_outbound_updated(before, payment_id, status, preimage, now, after, r),
        is_outbound_status_updated(before, payment_id, status, now, only),
    ensures
        ({
            let p = before.outbound@[payment_id];
            let q = after.outbound@[payment_id];
            let s = only.outbound@[payment_id];
            &&& r == q
            &&& q.status == status && s.status == status
            &&& q.updated_at == now && s.updated_at == now
            &&& q.preimage == preimage && s.preimage == p.preimage
            &&& q.amt_msat == p.amt_msat && s.amt_msat == p.amt_msat
            &&& q.created_at == p.created_at && s.created_at == p.created_at
            &&& q.payment_idx == p.payment_idx && s.payment_idx == p.payment_idx
            &&& q.payee_pubkey == p.payee_pubkey && s.payee_pubkey == p.payee_pubkey
        }),
        other != payment_id ==> after.outbound@[other] == before.outbound@[other]
            && only.outbound@[other] == before.outbound@[other],
        after.outbound@.dom() =~= before.outbound@.dom(),
        only.outbound@.dom() =~= before.outbound@.dom(),
        after.inbound == before.inbound && only.inbound == before.inbound,
        after.next_payment_idx == before.next_payment_idx && only.next_payment_idx
            == before.next_payment_idx,
{
}

/// A listing has the table stored exactly where a pending payment expired, fails backwards exactly the
/// claimable ones that expired, and lists only where there is none of those; a listing that may not
/// change anything stores and fails nothing.
pub proof fn law_listings_store_what_expired(
    before: Payments,
    admitted: Result<(), APIError>,
    now: u64,
    height: u32,
    after: Payments,
    r: InboundListing,
    id: Id,
)
    requires
        is_inbound_listing(before, admitted, now, height, after, r),
        before.inbound@.dom().contains(id),
    ensures
        admitted is Err ==> after == before && r is Listed && !r->Listed_save,
        admitted is Ok && before.inbound@[id].status == HTLCStatus::Pending && has_expired(
            before.inbound@[id],
            now,
            height,
        ) ==> if r is Listed {
            r->Listed_save
        } else {
            r->FailBackwards_save
        },
        admitted is Ok && (forall|other: Id| #[trigger]
            before.inbound@.dom().contains(other) ==> before.inbound@[other].status
                != HTLCStatus::Pending || !has_expired(before.inbound@[other], now, height)) ==> if r is Listed {
            !r->Listed_save
        } else {
            !r->FailBackwards_save
        },
        admitted is Ok && before.inbound@[id].status == HTLCStatus::Claimable && has_expired(
            before.inbound@[id],
            now,
            height,
        ) ==> (r matches InboundListing::FailBackwards { claimables, .. } && claimables@.contains(id)),
        r matches InboundListing::FailBackwards { claimables, .. } ==> claimables@.len() > 0 && (
        claimables@.contains(id) ==> before.inbound@[id].status == HTLCStatus::Claimable
            && has_expired(before.inbound@[id], now, height)),
{
    if admitted is Ok && before.inbound@[id].status == HTLCStatus::Pending && has_expired(
        before.inbound@[id],
        now,
        height,
    ) {
        assert(expired_pending(before.inbound@[id], now, height));
        assert(any_expired_pending(before.inbound@, now, height));
    }
}

/// Numbering a payment gives it the next index and moves on by one, and leaves a numbered one alone.
pub proof fn law_indices_are_given_once(p: PaymentInfo, next: u64)
    requires
        next < u64::MAX,
    ensures
        p.payment_idx is None ==> stamped(p, next).payment_idx == Some(next) && next_after(p, next)
            == next + 1,
        p.payment_idx is Some ==> stamped(p, next) == p && next_after(p, next) == next,
        stamped(p, next) == (PaymentInfo {
            payment_idx: stamped(p, next).payment_idx,
            ..p
        }),
{
}

} // verus!
