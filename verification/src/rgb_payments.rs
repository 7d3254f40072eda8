//! Settling the RGB side of payments: which pending records move which channel's balance.

use vstd::pervasive::unreached;
use vstd::prelude::*;
use vstd::string::*;
use vstd::utf8::*;

use crate::kv_store::StoreError;
use crate::sender_funding::RgbInfo;
use crate::text::{before_suffix, copy, ends_with, is_suffix, join2};

verus! {

/// What is recorded of the RGB side of a payment.
#[derive(Clone, Debug, PartialEq, Eq)]
pub struct RgbPaymentInfo {
    pub contract_id: String,
    pub amount: u64,
    pub local_rgb_amount: u64,
    pub remote_rgb_amount: u64,
    pub swap_payment: bool,
    pub inbound: bool,
}

impl RgbPaymentInfo {
    /// The record of a payment that is about to be made or received.
    pub fn new(contract_id: String, amount_rgb: u64, swap_payment: bool, inbound: bool) -> (r: Self)
        ensures
            r == (RgbPaymentInfo {
                contract_id,
                amount: amount_rgb,
                local_rgb_amount: 0,
                remote_rgb_amount: 0,
                swap_payment,
                inbound,
            }),
    {
        RgbPaymentInfo {
            contract_id,
            amount: amount_rgb,
            local_rgb_amount: 0,
            remote_rgb_amount: 0,
            swap_payment,
            inbound,
        }
    }
}

/// The key of a payment's pending record.
pub fn pending_key(payment_hash_hex: &str) -> (r: String)
    ensures
        r@ == payment_hash_hex@ + "_pending"@,
{
    join2(payment_hash_hex, "_pending")
}

/// Whether a key is longer than the pending key of a payment, and ends with it: it belongs to that
/// payment on one channel.
pub open spec fn is_scoped(key: Seq<char>, pending: Seq<char>) -> bool {
    is_suffix(encode_utf8(key), encode_utf8(pending)) && encode_utf8(key).len() > encode_utf8(
        pending,
    ).len()
}

/// Whether a key is that of a payment on a channel: 64 bytes for the channel, and the pending key.
pub open spec fn is_channel_record(key: Seq<char>, pending: Seq<char>) -> bool {
    is_suffix(encode_utf8(key), encode_utf8(pending)) && encode_utf8(key).len() == encode_utf8(
        pending,
    ).len() + 64
}

fn scoped(key: &str, pending: &str) -> (r: bool)
    ensures
        r == is_scoped(key@, pending@),
{
    ends_with(key, pending) && key.as_bytes().len() > pending.as_bytes().len()
}

fn channel_record(key: &str, pending: &str) -> (r: bool)
    ensures
        r == is_channel_record(key@, pending@),
{
    if !ends_with(key, pending) {
        return false;
    }
    let longer: usize = key.as_bytes().len();
    let shorter: usize = pending.as_bytes().len();
    longer - shorter == 64
}

/// Whether any key belongs to a payment on a channel.
pub open spec fn any_scoped(keys: Seq<String>, pending: Seq<char>) -> bool {
    exists|i: int| 0 <= i < keys.len() && is_scoped((#[trigger] keys[i])@, pending)
}

fn has_scoped(keys: &Vec<String>, pending: &str) -> (r: bool)
    ensures
        r == any_scoped(keys@, pending@),
{
    let mut i: usize = 0;
    while i < keys.len()
        invariant
            i <= keys@.len(),
            forall|j: int| 0 <= j < i ==> !is_scoped((#[trigger] keys@[j])@, pending@),
        decreases keys@.len() - i,
    {
        if scoped(keys[i].as_str(), pending) {
            return true;
        }
        i = i + 1;
    }
    false
}

/// The keys that are dropped with the pending record of a payment: those of the payment on each
/// channel.
pub fn clear_rgb_payment_pending(keys: &Vec<String>, pending: &str) -> (r: Vec<String>)
    ensures
        r@ == keys@.filter(|key: String| is_scoped(key@, pending@)),
{
    reveal(Seq::filter);
    let ghost belongs = |key: String| is_scoped(key@, pending@);
    let mut out: Vec<String> = Vec::new();
    let mut i: usize = 0;
    assert(keys@.take(0).filter(belongs) =~= Seq::empty());
    while i < keys.len()
        invariant
            i <= keys@.len(),
            belongs == (|key: String| is_scoped(key@, pending@)),
            out@ == keys@.take(i as int).filter(belongs),
        decreases keys@.len() - i,
    {
        reveal(Seq::filter);
        assert(keys@.take(i + 1).drop_last() =~= keys@.take(i as int));
        assert(keys@.take(i + 1).last() == keys@[i as int]);
        if scoped(keys[i].as_str(), pending) {
            out.push(copy(&keys[i]));
        }
        i = i + 1;
    }
    assert(keys@.take(i as int) =~= keys@);
    out
}

// ---------------------------------------------------------------------------------------------
// One channel
// ---------------------------------------------------------------------------------------------

/// What is done with the balance of a channel.
#[derive(Debug, PartialEq, Eq)]
pub enum SafeUpdate {
    Apply,
    /// The channel has no RGB balance.
    Skip,
    Fail(StoreError),
}

/// What is done with the balance of a channel, from how its RGB metadata reads.
pub open spec fn safe_update(read: Result<(), StoreError>) -> SafeUpdate {
    match read {
        Ok(_) => SafeUpdate::Apply,
        Err(e) => if e.not_found {
            SafeUpdate::Skip
        } else {
            SafeUpdate::Fail(e)
        },
    }
}

/// Updates a channel that has an RGB balance, and leaves one without it alone.
pub fn safe_update_rgb_channel_amount(read: Result<(), StoreError>) -> (r: SafeUpdate)
    ensures
        r == safe_update(read),
{
    match read {
        Ok(_) => SafeUpdate::Apply,
        Err(e) => if e.not_found {
            SafeUpdate::Skip
        } else {
            SafeUpdate::Fail(e)
        },
    }
}

// ---------------------------------------------------------------------------------------------
// All channels of a payment
// ---------------------------------------------------------------------------------------------

/// Where the settling of a payment stands: the effect that comes next, or how it ended. The inbound
/// records come before the outbound ones.
#[derive(Debug, PartialEq, Eq)]
pub enum SettleStep {
    /// Lists the records.
    List,
    /// Reads the record at the current place.
    ReadRecord,
    /// Reads whether the channel, named by the first 64 bytes of the current key, has RGB metadata.
    ReadChannel { offered: u64, received: u64 },
    /// Changes the balance of that channel.
    UpdateChannel { offered: u64, received: u64 },
    /// Removes an applied record; a failure is ignored.
    RemoveApplied(usize),
    /// Lists what is left.
    Relist,
    /// Removes the payment's own pending record; a failure is ignored.
    RemoveRaw,
    Finished(Result<(), StoreError>),
}

/// The settling of a payment.
#[derive(Debug)]
pub struct SettlePayment {
    /// The pending key of the payment.
    pub pending: String,
    /// Whether the node received the payment.
    pub receiver: bool,
    /// Whether the inbound records are looked at.
    pub inbound: bool,
    pub keys: Vec<String>,
    pub pos: usize,
    /// The places of the records that were applied.
    pub applied: Vec<usize>,
    pub applied_any: bool,
    pub step: SettleStep,
}

/// What the caller got back.
#[derive(Debug)]
pub enum SettleReply {
    Done,
    Failed(StoreError),
    Keys(Vec<String>),
    /// The record; nothing where it cannot be decoded.
    Record(Option<RgbPaymentInfo>),
}

/// The first place, from a given one on, that holds a payment on a channel.
pub open spec fn next_record(keys: Seq<String>, pending: Seq<char>, from: int) -> int
    decreases keys.len() - from,
{
    if from < 0 || from >= keys.len() || is_channel_record(keys[from]@, pending) {
        from
    } else {
        next_record(keys, pending, from + 1)
    }
}

/// Whether a record moves the balance: the record of a swap only on the side that the node is on.
pub open spec fn is_due(info: RgbPaymentInfo, receiver: bool) -> bool {
    !(info.swap_payment && receiver != info.inbound)
}

impl SettlePayment {
    pub open spec fn wf(self) -> bool {
        &&& forall|k: int|
            0 <= k < self.applied@.len() ==> (#[trigger] self.applied@[k]) < self.keys@.len()
        &&& match self.step {
            SettleStep::ReadRecord
            | SettleStep::ReadChannel { .. }
            | SettleStep::UpdateChannel { .. } => self.pos < self.keys@.len() && is_channel_record(
                self.keys@[self.pos as int]@,
                self.pending@,
            ),
            SettleStep::RemoveApplied(k) => k < self.applied@.len(),
            _ => true,
        }
    }

    pub open spec fn to(self, step: SettleStep) -> Self {
        SettlePayment { step, ..self }
    }
}

/// Whether a reply answers the effect of a step.
pub open spec fn settle_fits(step: SettleStep, reply: SettleReply) -> bool {
    match step {
        SettleStep::List | SettleStep::Relist => reply is Keys || reply is Failed,
        SettleStep::ReadRecord => reply is Record || reply is Failed,
        SettleStep::ReadChannel { .. }
        | SettleStep::RemoveApplied(_)
        | SettleStep::RemoveRaw => reply is Done || reply is Failed,
        SettleStep::UpdateChannel { .. } => reply is Done,
        SettleStep::Finished(_) => false,
    }
}

/// The current listing is done: its applied records are removed one by one.
pub open spec fn removes_applied(job: SettlePayment, next: SettlePayment, k: int) -> bool {
    if k < job.applied@.len() {
        next == job.to(SettleStep::RemoveApplied(k as usize))
    } else if job.inbound {
        next == (SettlePayment { inbound: false, step: SettleStep::List, ..job })
    } else if job.applied_any {
        next == (SettlePayment { inbound: true, step: SettleStep::Relist, ..job })
    } else {
        next == job.to(SettleStep::Finished(Ok::<(), StoreError>(())))
    }
}

/// The records are looked at from a place on.
pub open spec fn looks_on(job: SettlePayment, from: int, next: SettlePayment) -> bool {
    let at = next_record(job.keys@, job.pending@, from);
    if at < job.keys@.len() {
        next == (SettlePayment { pos: at as usize, step: SettleStep::ReadRecord, ..job })
    } else {
        removes_applied(SettlePayment { pos: job.keys@.len() as usize, ..job }, next, 0)
    }
}

/// The payment's own pending record was dealt with in one namespace.
pub open spec fn raw_done(job: SettlePayment, next: SettlePayment) -> bool {
    next == (if job.inbound {
        SettlePayment { inbound: false, step: SettleStep::Relist, ..job }
    } else {
        job.to(SettleStep::Finished(Ok::<(), StoreError>(())))
    })
}

pub open spec fn ends_with_error(job: SettlePayment, e: StoreError, next: SettlePayment) -> bool {
    next == job.to(SettleStep::Finished(Err::<(), StoreError>(e)))
}

/// What follows from a reply.
pub open spec fn settle_next(job: SettlePayment, reply: SettleReply, next: SettlePayment) -> bool {
    match job.step {
        SettleStep::List => match reply {
            SettleReply::Keys(keys) => exists|fresh: SettlePayment|
                fresh == (SettlePayment { keys, pos: 0, applied: fresh.applied, ..job })
                    && fresh.applied@.len() == 0 && #[trigger] looks_on(fresh, 0, next),
            SettleReply::Failed(e) => ends_with_error(job, e, next),
            _ => false,
        },
        SettleStep::ReadRecord => match reply {
            SettleReply::Record(Some(info)) => if is_due(info, job.receiver) {
                next == job.to(
                    SettleStep::ReadChannel {
                        offered: if job.receiver {
                            0
                        } else {
                            info.amount
                        },
                        received: if job.receiver {
                            info.amount
                        } else {
                            0
                        },
                    },
                )
            } else {
                looks_on(job, job.pos + 1, next)
            },
            SettleReply::Record(None) => looks_on(job, job.pos + 1, next),
            SettleReply::Failed(e) => if e.not_found {
                looks_on(job, job.pos + 1, next)
            } else {
                ends_with_error(job, e, next)
            },
            _ => false,
        },
        SettleStep::ReadChannel { offered, received } => match reply {
            SettleReply::Failed(e) => if e.not_found {
                looks_on(job, job.pos + 1, next)
            } else {
                ends_with_error(job, e, next)
            },
            _ => next == job.to(SettleStep::UpdateChannel { offered, received }),
        },
        SettleStep::UpdateChannel { .. } => exists|done: SettlePayment|
            done == (SettlePayment { applied: done.applied, applied_any: true, ..job })
                && done.applied@ == job.applied@.push(job.pos) && #[trigger] looks_on(
                done,
                job.pos + 1,
                next,
            ),
        SettleStep::RemoveApplied(k) => removes_applied(job, next, k + 1),
        SettleStep::Relist => match reply {
            SettleReply::Keys(keys) => if any_scoped(keys@, job.pending@) {
                raw_done(job, next)
            } else {
                next == job.to(SettleStep::RemoveRaw)
            },
            SettleReply::Failed(e) => ends_with_error(job, e, next),
            _ => false,
        },
        SettleStep::RemoveRaw => raw_done(job, next),
        SettleStep::Finished(_) => false,
    }
}

impl SettlePayment {
    /// Settles the RGB side of a payment that was received or sent.
    pub fn finalize_rgb_channel_payment(payment_hash_hex: &str, receiver: bool) -> (r: Self)
        ensures
            r.wf(),
            r.pending@ == payment_hash_hex@ + "_pending"@,
            r.receiver == receiver,
            r.inbound,
            r.keys@.len() == 0,
            r.pos == 0,
            r.applied@.len() == 0,
            !r.applied_any,
            r.step is List,
    {
        SettlePayment {
            pending: pending_key(payment_hash_hex),
            receiver,
            inbound: true,
            keys: Vec::new(),
            pos: 0,
            applied: Vec::new(),
            applied_any: false,
            step: SettleStep::List,
        }
    }

    /// The channel that the record at the current place belongs to.
    pub fn channel_id(&self) -> (r: String)
        requires
            self.wf(),
            self.step is ReadRecord || self.step is ReadChannel || self.step is UpdateChannel,
        ensures
            r@ + self.pending@ == self.keys@[self.pos as int]@,
            encode_utf8(r@).len() == 64,
    {
        before_suffix(self.keys[self.pos].as_str(), self.pending.as_str())
    }

    fn at(self, step: SettleStep) -> (r: Self)
        ensures
            r == self.to(step),
    {
        let mut r = self;
        r.step = step;
        r
    }

    fn remove_applied(self, k: usize) -> (next: Self)
        requires
            self.wf(),
        ensures
            next.wf(),
            removes_applied(self, next, k as int),
    {
        if k < self.applied.len() {
            self.at(SettleStep::RemoveApplied(k))
        } else if self.inbound {
            let mut next = self.at(SettleStep::List);
            next.inbound = false;
            next
        } else if self.applied_any {
            let mut next = self.at(SettleStep::Relist);
            next.inbound = true;
            next
        } else {
            self.at(SettleStep::Finished(Ok(())))
        }
    }

    fn look_on(self, from: usize) -> (next: Self)
        requires
            self.wf(),
            from <= self.keys@.len(),
        ensures
            next.wf(),
            looks_on(self, from as int, next),
    {
        let mut job = self;
        let mut i: usize = from;
        while i < job.keys.len()
            invariant
                job == self,
                self.wf(),
                from <= i <= job.keys@.len(),
                next_record(job.keys@, job.pending@, from as int) == next_record(
                    job.keys@,
                    job.pending@,
                    i as int,
                ),
            decreases job.keys@.len() - i,
        {
            if channel_record(job.keys[i].as_str(), job.pending.as_str()) {
                job.pos = i;
                job.step = SettleStep::ReadRecord;
                return job;
            }
            i = i + 1;
        }
        job.pos = job.keys.len();
        job.step = SettleStep::List;
        let ghost moved = SettlePayment { pos: self.keys@.len() as usize, ..self };
        let next = job.remove_applied(0);
        assert(removes_applied(moved, next, 0));
        next
    }

    fn raw_done(self) -> (next: Self)
        requires
            self.wf(),
        ensures
            next.wf(),
            raw_done(self, next),
    {
        if self.inbound {
            let mut next = self.at(SettleStep::Relist);
            next.inbound = false;
            next
        } else {
            self.at(SettleStep::Finished(Ok(())))
        }
    }

    fn fail(self, e: StoreError) -> (next: Self)
        requires
            self.wf(),
        ensures
            next.wf(),
            ends_with_error(self, e, next),
    {
        self.at(SettleStep::Finished(Err(e)))
    }

    fn skip(self) -> (next: Self)
        requires
            self.wf(),
            self.pos < self.keys@.len(),
        ensures
            next.wf(),
            looks_on(self, self.pos + 1, next),
    {
        let count: usize = self.keys.len();
        let from: usize = self.pos + 1;
        assert(from <= count);
        self.look_on(from)
    }

    fn on_keys(self, keys: Vec<String>) -> (next: Self)
        requires
            self.wf(),
            self.step is List,
        ensures
            next.wf(),
            settle_next(self, SettleReply::Keys(keys), next),
    {
        let mut fresh = self;
        fresh.keys = keys;
        fresh.pos = 0;
        fresh.applied = Vec::new();
        let ghost f = fresh;
        let next = fresh.look_on(0);
        assert(looks_on(f, 0, next));
        next
    }

    fn on_updated(self) -> (next: Self)
        requires
            self.wf(),
            self.step is UpdateChannel,
        ensures
            next.wf(),
            settle_next(self, SettleReply::Done, next),
    {
        let mut done = self;
        let pos: usize = done.pos;
        done.applied.push(pos);
        done.applied_any = true;
        let ghost d = done;
        assert(d.wf());
        let next = done.skip();
        assert(looks_on(d, self.pos + 1, next));
        next
    }

    /// Decides what follows from a reply.
    pub fn advance(self, reply: SettleReply) -> (next: Self)
        requires
            self.wf(),
            settle_fits(self.step, reply),
        ensures
            next.wf(),
            settle_next(self, reply, next),
    {
        match self.step {
            SettleStep::List => match reply {
                SettleReply::Keys(keys) => self.on_keys(keys),
                SettleReply::Failed(e) => self.fail(e),
                _ => unreached(),
            },
            SettleStep::ReadRecord => match reply {
                SettleReply::Record(Some(info)) => {
                    if info.swap_payment && self.receiver != info.inbound {
                        self.skip()
                    } else if self.receiver {
                        self.at(SettleStep::ReadChannel { offered: 0, received: info.amount })
                    } else {
                        self.at(SettleStep::ReadChannel { offered: info.amount, received: 0 })
                    }
                },
                SettleReply::Record(None) => self.skip(),
                SettleReply::Failed(e) => if e.not_found {
                    self.skip()
                } else {
                    self.fail(e)
                },
                _ => unreached(),
            },
            SettleStep::ReadChannel { offered, received } => {
                let read = match reply {
                    SettleReply::Failed(e) => Err(e),
                    _ => Ok(()),
                };
                match safe_update_rgb_channel_amount(read) {
                    SafeUpdate::Apply => self.at(
                        SettleStep::UpdateChannel { offered, received },
                    ),
                    SafeUpdate::Skip => self.skip(),
                    SafeUpdate::Fail(e) => self.fail(e),
                }
            },
            SettleStep::UpdateChannel { .. } => self.on_updated(),
            SettleStep::RemoveApplied(k) => {
                let count: usize = self.applied.len();
                assert(k < count);
                self.remove_applied(k + 1)
            },
            SettleStep::Relist => match reply {
                SettleReply::Keys(keys) => if has_scoped(&keys, self.pending.as_str()) {
                    self.raw_done()
                } else {
                    self.at(SettleStep::RemoveRaw)
                },
                SettleReply::Failed(e) => self.fail(e),
                _ => unreached(),
            },
            SettleStep::RemoveRaw => self.raw_done(),
            SettleStep::Finished(_) => unreached(),
        }
    }
}

// ---------------------------------------------------------------------------------------------
// Virtual channels
// ---------------------------------------------------------------------------------------------

/// What moves from the temporary ID of a virtual channel to the final one.
#[derive(Debug, PartialEq, Eq)]
pub struct InfoMove {
    /// The metadata to write under the final ID.
    pub write: Option<RgbInfo>,
    /// Whether the metadata under the temporary ID is removed.
    pub remove: bool,
}

/// What moves, from the metadata under the temporary ID and whether there is any under the final one.
pub open spec fn info_move(temporary: Option<RgbInfo>, has_final: bool) -> InfoMove {
    InfoMove {
        write: if has_final {
            None
        } else {
            temporary
        },
        remove: temporary is Some,
    }
}

/// Moves the metadata of a virtual channel to its final ID, unless that has some already. It is done
/// for the settled metadata, then for the pending one.
pub fn finalize_virtual_rgb_channel_info(temporary: Option<RgbInfo>, has_final: bool) -> (r:
    InfoMove)
    ensures
        r == info_move(temporary, has_final),
{
    match temporary {
        Some(info) => if has_final {
            InfoMove { write: None, remove: true }
        } else {
            InfoMove { write: Some(info), remove: true }
        },
        None => InfoMove { write: None, remove: false },
    }
}

// ---------------------------------------------------------------------------------------------
// Laws
// ---------------------------------------------------------------------------------------------

/// A record is only removed after its channel's balance was changed, and a balance is only changed
/// by a due record of a channel that has one.
pub proof fn law_records_outlive_their_balance_change(
    job: SettlePayment,
    reply: SettleReply,
    next: SettlePayment,
)
    requires
        job.wf(),
        settle_fits(job.step, reply),
        settle_next(job, reply, next),
    ensures
        next.step is UpdateChannel ==> job.step is ReadChannel && reply is Done && next.pos
            == job.pos,
        job.step is UpdateChannel ==> next.applied@ == job.applied@.push(job.pos)
            && next.applied_any,
        !(job.step is UpdateChannel) && !(job.step is List) ==> next.applied == job.applied
            && next.applied_any == job.applied_any,
{
}

/// Settling moves a balance one way only: what was received is added, what was sent is taken.
pub proof fn law_settling_moves_one_way(job: SettlePayment, reply: SettleReply, next: SettlePayment)
    requires
        job.wf(),
        settle_fits(job.step, reply),
        settle_next(job, reply, next),
        job.step is ReadRecord,
        next.step is ReadChannel,
    ensures
        job.receiver ==> (next.step matches SettleStep::ReadChannel { offered, .. } && offered == 0),
        !job.receiver ==> (next.step matches SettleStep::ReadChannel { received, .. } && received
            == 0),
{
}

// ---------------------------------------------------------------------------------------------
// The record of a claimable payment
// ---------------------------------------------------------------------------------------------

/// What is done next to bring the record of a claimable payment under the payment's own key. It is
/// kept per channel until then, so that the other side of a swap is not mistaken for it.
#[derive(Clone, Copy, Debug, PartialEq, Eq, Structural)]
pub enum ProjectStep {
    /// Reads the record of the channel at a place.
    Read(usize),
    /// Writes it under the payment's own key.
    Write(usize),
    Done,
}

/// The record of a claimable payment on its way to the payment's own key.
#[derive(Debug)]
pub struct ProjectRecord {
    /// The payment's hash, in hexadecimal.
    pub payment_hash: String,
    /// The channels that the payment came over, by their IDs in hexadecimal.
    pub channel_ids: Vec<String>,
    pub step: ProjectStep,
}

/// The step for the channel at a place, if there is one.
pub open spec fn project_from(count: nat, i: int) -> ProjectStep {
    if i < count {
        ProjectStep::Read(i as usize)
    } else {
        ProjectStep::Done
    }
}

/// What follows where a step went through or did not: the first record that can be read and written
/// is the last.
pub open spec fn project_next(count: nat, step: ProjectStep, ok: bool) -> ProjectStep {
    match step {
        ProjectStep::Read(i) => if ok {
            ProjectStep::Write(i)
        } else {
            project_from(count, i + 1)
        },
        ProjectStep::Write(i) => if ok {
            ProjectStep::Done
        } else {
            project_from(count, i + 1)
        },
        ProjectStep::Done => ProjectStep::Done,
    }
}

impl ProjectRecord {
    /// A step names one of the channels.
    pub open spec fn wf(self) -> bool {
        match self.step {
            ProjectStep::Read(i) | ProjectStep::Write(i) => i < self.channel_ids@.len(),
            ProjectStep::Done => true,
        }
    }

    /// Begins with the first channel.
    pub fn new(payment_hash: String, channel_ids: Vec<String>) -> (r: Self)
        ensures
            r.wf(),
            r.payment_hash == payment_hash,
            r.channel_ids == channel_ids,
            r.step == project_from(channel_ids@.len(), 0),
    {
        let step = if channel_ids.len() > 0 {
            ProjectStep::Read(0)
        } else {
            ProjectStep::Done
        };
        ProjectRecord { payment_hash, channel_ids, step }
    }

    /// The key of a channel's record: the channel's ID, then the payment's hash.
    pub fn source(&self, i: usize) -> (r: String)
        requires
            i < self.channel_ids@.len(),
        ensures
            r@ == self.channel_ids@[i as int]@ + self.payment_hash@,
    {
        join2(self.channel_ids[i].as_str(), self.payment_hash.as_str())
    }

    /// Goes on after a step that went through or did not.
    pub fn advance(self, ok: bool) -> (next: Self)
        requires
            self.wf(),
        ensures
            next.wf(),
            next == (ProjectRecord {
                step: project_next(self.channel_ids@.len(), self.step, ok),
                ..self
            }),
    {
        let count: usize = self.channel_ids.len();
        let step = match self.step {
            ProjectStep::Read(i) => if ok {
                ProjectStep::Write(i)
            } else if i + 1 < count {
                ProjectStep::Read(i + 1)
            } else {
                ProjectStep::Done
            },
            ProjectStep::Write(i) => if ok || i + 1 >= count {
                ProjectStep::Done
            } else {
                ProjectStep::Read(i + 1)
            },
            ProjectStep::Done => ProjectStep::Done,
        };
        ProjectRecord { payment_hash: self.payment_hash, channel_ids: self.channel_ids, step }
    }
}

/// A record is only written after the same channel's was read, and nothing follows one that was
/// written.
pub proof fn law_one_record_is_projected(count: nat, step: ProjectStep, ok: bool)
    ensures
        project_next(count, step, ok) matches ProjectStep::Write(i) ==> step == ProjectStep::Read(i)
            && ok,
        step is Write && ok ==> project_next(count, step, ok) == ProjectStep::Done,
{
}

/// A record moves exactly its amount: in where the payment was received, out where it was sent, on the
/// record's own channel. The record of the other side of a swap moves nothing.
pub proof fn law_records_move_their_amount(
    job: SettlePayment,
    info: RgbPaymentInfo,
    next: SettlePayment,
    after: SettlePayment,
)
    requires
        job.wf(),
        job.step is ReadRecord,
        settle_next(job, SettleReply::Record(Some(info)), next),
        next.step is ReadChannel ==> settle_next(next, SettleReply::Done, after),
    ensures
        !info.swap_payment || job.receiver == info.inbound ==> {
            &&& next.step matches SettleStep::ReadChannel { offered, received } && {
                &&& offered + received == info.amount
                &&& job.receiver ==> received - offered == info.amount
                &&& !job.receiver ==> offered - received == info.amount
            }
            &&& after.step matches SettleStep::UpdateChannel { offered, received } && {
                &&& offered + received == info.amount
                &&& job.receiver ==> received - offered == info.amount
                &&& !job.receiver ==> offered - received == info.amount
            }
            &&& after.pos == job.pos && after.keys == job.keys && after.inbound == job.inbound
            &&& after.applied == job.applied
        },
        info.swap_payment && job.receiver != info.inbound ==> !(next.step is ReadChannel) && !(
        next.step is UpdateChannel) && next.applied == job.applied,
{
}

/// A balance is only changed as a record that was just read says, and only where the channel has one: an
/// update follows the look at the channel, with the amounts that the record gave.
pub proof fn law_balances_change_only_as_recorded(
    job: SettlePayment,
    reply: SettleReply,
    next: SettlePayment,
)
    requires
        job.wf(),
        settle_fits(job.step, reply),
        settle_next(job, reply, next),
    ensures
        next.step matches SettleStep::UpdateChannel { offered, received } ==> job.step == (
        SettleStep::ReadChannel { offered, received }) && reply is Done && next.pos == job.pos
            && next.keys == job.keys,
        next.step is ReadChannel ==> job.step is ReadRecord && (
        reply matches SettleReply::Record(Some(_))) && next.pos == job.pos && next.keys == job.keys,
{
}

proof fn lemma_joined_bytes(a: Seq<char>, b: Seq<char>)
    ensures
        encode_utf8(a + b) == encode_utf8(a) + encode_utf8(b),
    decreases a.len(),
{
    reveal_with_fuel(encode_utf8, 2);
    if a.len() == 0 {
        assert(a + b =~= b);
    } else {
        assert((a + b).drop_first() =~= a.drop_first() + b);
        lemma_joined_bytes(a.drop_first(), b);
    }
}

proof fn lemma_next_record(keys: Seq<String>, pending: Seq<char>, from: int, i: int)
    requires
        0 <= from <= i < keys.len(),
        is_channel_record(keys[i]@, pending),
    ensures
        from <= next_record(keys, pending, from) <= i,
    decreases i - from,
{
    if from < i && !is_channel_record(keys[from]@, pending) {
        lemma_next_record(keys, pending, from + 1, i);
    }
}

/// No record of the payment is passed over: where a key further on is that of a channel, with the
/// payment's pending key behind it, the next record to be read is at that key or before it.
pub proof fn law_no_record_is_passed_over(
    job: SettlePayment,
    reply: SettleReply,
    next: SettlePayment,
    i: int,
    channel_id: Seq<char>,
)
    requires
        job.wf(),
        settle_fits(job.step, reply),
        settle_next(job, reply, next),
        job.step is List || job.step is ReadRecord || job.step is ReadChannel
            || job.step is UpdateChannel,
        !(next.step is ReadChannel) && !(next.step is UpdateChannel) && !(
        next.step matches SettleStep::Finished(Err(_))),
        0 <= i < next.keys@.len(),
        job.step is List || i > job.pos,
        next.keys@[i]@ == channel_id + job.pending@,
        encode_utf8(channel_id).len() == 64,
    ensures
        next.step is ReadRecord,
        next.pos <= i,
        !(job.step is List) ==> next.pos > job.pos && next.keys == job.keys,
        job.step is List ==> reply == SettleReply::Keys(next.keys),
{
    let pending = job.pending@;
    lemma_joined_bytes(channel_id, pending);
    let key = encode_utf8(next.keys@[i]@);
    assert(key.skip(key.len() - encode_utf8(pending).len()) =~= encode_utf8(pending));
    assert(is_channel_record(next.keys@[i]@, pending));
    if job.step is List {
        match reply {
            SettleReply::Keys(keys) => {
                let fresh = choose|fresh: SettlePayment|
                    fresh == (SettlePayment { keys, pos: 0, applied: fresh.applied, ..job })
                        && fresh.applied@.len() == 0 && #[trigger] looks_on(fresh, 0, next);
                if i < keys@.len() && is_channel_record(keys@[i]@, pending) {
                    lemma_next_record(keys@, pending, 0, i);
                }
            },
            _ => {},
        }
    } else if i < job.keys@.len() && is_channel_record(job.keys@[i]@, pending) {
        assert(job.keys.len() == job.keys@.len());
        lemma_next_record(job.keys@, pending, job.pos + 1, i);
    }
}

/// A failure of the store ends the settling with that failure, but for what is simply not there and for
/// what could not be removed: those change nothing.
pub proof fn law_store_failures_end_the_settling(
    job: SettlePayment,
    e: StoreError,
    next: SettlePayment,
)
    requires
        job.wf(),
        settle_fits(job.step, SettleReply::Failed(e)),
        settle_next(job, SettleReply::Failed(e), next),
    ensures
        job.step is List || job.step is Relist ==> next.step == SettleStep::Finished(
            Err::<(), StoreError>(e),
        ),
        (job.step is ReadRecord || job.step is ReadChannel) && !e.not_found ==> next.step
            == SettleStep::Finished(Err::<(), StoreError>(e)),
        (job.step is ReadRecord || job.step is ReadChannel) && e.not_found ==> !(
        next.step matches SettleStep::Finished(Err(_))) && next.applied == job.applied
            && next.applied_any == job.applied_any,
        job.step is RemoveApplied || job.step is RemoveRaw ==> settle_next(
            job,
            SettleReply::Done,
            next,
        ),
{
}

/// The payment's own pending record is removed where no record of it on a channel is left, and kept
/// where one is.
pub proof fn law_the_raw_record_goes_last(
    job: SettlePayment,
    keys: Vec<String>,
    next: SettlePayment,
    i: int,
    channel_id: Seq<char>,
)
    requires
        job.wf(),
        job.step is Relist,
        settle_next(job, SettleReply::Keys(keys), next),
    ensures
        0 <= i < keys@.len() && keys@[i]@ == channel_id + job.pending@ && channel_id.len() > 0 ==> !(
        next.step is RemoveRaw),
        (forall|k: int|
            0 <= k < keys@.len() ==> !is_suffix(
                encode_utf8((#[trigger] keys@[k])@),
                encode_utf8(job.pending@),
            )) ==> next.step is RemoveRaw && next.inbound == job.inbound,
{
    if 0 <= i < keys@.len() && keys@[i]@ == channel_id + job.pending@ && channel_id.len() > 0 {
        lemma_joined_bytes(channel_id, job.pending@);
        reveal_with_fuel(encode_utf8, 2);
        let key = encode_utf8(keys@[i]@);
        assert(key.skip(key.len() - encode_utf8(job.pending@).len()) =~= encode_utf8(job.pending@));
        encode_utf8_decode_utf8(channel_id);
        encode_utf8_decode_utf8(Seq::<char>::empty());
        if encode_utf8(channel_id).len() == 0 {
            assert(encode_utf8(channel_id) =~= encode_utf8(Seq::<char>::empty()));
        }
        assert(is_scoped(keys@[i]@, job.pending@));
    }
}

/// A run of a settling: states, each of which follows from the one before by the reply to its step.
pub open spec fn is_settle_run(states: Seq<SettlePayment>, replies: Seq<SettleReply>) -> bool {
    &&& states.len() == replies.len() + 1
    &&& forall|i: int| 0 <= i < states.len() ==> (#[trigger] states[i]).wf()
    &&& forall|i: int|
        #![trigger replies[i]]
        0 <= i < replies.len() ==> settle_fits(states[i].step, replies[i]) && settle_next(
            states[i],
            replies[i],
            states[i + 1],
        )
}

/// Whether the records of a side were listed before a step of a run.
pub open spec fn listed_before(
    states: Seq<SettlePayment>,
    replies: Seq<SettleReply>,
    n: int,
    inbound: bool,
) -> bool {
    exists|i: int|
        0 <= i < n && (#[trigger] states[i]).step is List && states[i].inbound == inbound
            && replies[i] is Keys
}

/// Whether an applied record was removed before a step of a run.
pub open spec fn removed_before(
    states: Seq<SettlePayment>,
    n: int,
    inbound: bool,
    keys: Vec<String>,
    pos: usize,
) -> bool {
    exists|j: int|
        0 <= j < n && (#[trigger] states[j]).step is RemoveApplied && states[j].inbound == inbound
            && states[j].keys == keys
            && states[j].applied@[states[j].step->RemoveApplied_0 as int] == pos
}

spec fn works_on_records(step: SettleStep) -> bool {
    step is ReadRecord || step is ReadChannel || step is UpdateChannel || step is RemoveApplied
}

spec fn yet_to_be_removed(now: SettlePayment, inbound: bool, keys: Vec<String>, pos: usize) -> bool {
    &&& works_on_records(now.step) && now.inbound == inbound && now.keys == keys
    &&& exists|k: int|
        0 <= k < now.applied@.len() && #[trigger] now.applied@[k] == pos && (
        now.step matches SettleStep::RemoveApplied(at) ==> at <= k)
}

spec fn settle_progress(states: Seq<SettlePayment>, replies: Seq<SettleReply>, n: int) -> bool {
    let now = states[n];
    &&& now.pending@ == states[0].pending@ && now.receiver == states[0].receiver
    &&& now.step is List && !now.inbound ==> listed_before(states, replies, n, true)
    &&& now.step is List || (works_on_records(now.step) && now.inbound) ==> !listed_before(
        states,
        replies,
        n,
        false,
    )
    &&& now.step is List && now.inbound ==> n == 0
    &&& works_on_records(now.step) ==> listed_before(states, replies, n, now.inbound) && (
    !now.inbound ==> listed_before(states, replies, n, true))
    &&& now.step is Relist || now.step is RemoveRaw || (now.step matches SettleStep::Finished(Ok(_)))
        ==> listed_before(states, replies, n, true) && listed_before(states, replies, n, false)
    &&& !(now.step matches SettleStep::Finished(Err(_))) ==> forall|i: int|
        0 <= i < n && (#[trigger] states[i]).step is UpdateChannel ==> now.applied_any && (
        removed_before(states, n, states[i].inbound, states[i].keys, states[i].pos)
            || yet_to_be_removed(now, states[i].inbound, states[i].keys, states[i].pos))
    &&& forall|i: int|
        0 <= i < n && (#[trigger] states[i]).step is UpdateChannel && works_on_records(now.step)
            && states[i].inbound == now.inbound ==> states[i].keys == now.keys && (
        !(now.step is RemoveApplied) ==> states[i].pos < now.pos)
    &&& works_on_records(now.step) ==> forall|k: int|
        0 <= k < now.applied@.len() ==> updated_before(
            states,
            n,
            now.inbound,
            now.keys,
            #[trigger] now.applied@[k],
        )
    &&& now.step is List && !now.inbound ==> forall|i: int|
        0 <= i < n && (#[trigger] states[i]).step is UpdateChannel ==> states[i].inbound
    &&& works_on_records(now.step) && now.inbound ==> forall|i: int|
        0 <= i < n && (#[trigger] states[i]).step is UpdateChannel ==> states[i].inbound
}

/// Whether a channel's balance was changed by a record before a step of a run.
pub open spec fn updated_before(
    states: Seq<SettlePayment>,
    n: int,
    inbound: bool,
    keys: Vec<String>,
    pos: usize,
) -> bool {
    exists|i: int|
        0 <= i < n && (#[trigger] states[i]).step is UpdateChannel && states[i].inbound == inbound
            && states[i].keys == keys && states[i].pos == pos
}

proof fn lemma_looks_forward(keys: Seq<String>, pending: Seq<char>, from: int)
    requires
        0 <= from,
    ensures
        next_record(keys, pending, from) >= from,
    decreases keys.len() - from,
{
    if from < keys.len() && !is_channel_record(keys[from]@, pending) {
        lemma_looks_forward(keys, pending, from + 1);
    }
}

#[verifier::spinoff_prover]
#[verifier::rlimit(80)]
proof fn lemma_settle_progress(states: Seq<SettlePayment>, replies: Seq<SettleReply>, n: int)
    requires
        is_settle_run(states, replies),
        states[0].step is List,
        states[0].inbound,
        !states[0].applied_any,
        0 <= n < states.len(),
    ensures
        settle_progress(states, replies, n),
    decreases n,
{
    if n > 0 {
        let m = n - 1;
        lemma_settle_progress(states, replies, m);
        let reply = replies[m];
        let job = states[m];
        let now = states[n];
        assert(settle_fits(job.step, reply) && settle_next(job, reply, states[m + 1]));
        assert(job.wf() && now.wf());
        assert(job.keys.len() == job.keys@.len());
        assert(now.keys.len() == now.keys@.len());
        lemma_looks_forward(job.keys@, job.pending@, job.pos + 1);
        lemma_looks_forward(now.keys@, now.pending@, 0);
        assert forall|i: int|
            0 <= i < n && (#[trigger] states[i]).step is UpdateChannel && !(
            now.step matches SettleStep::Finished(Err(_))) implies now.applied_any && (
        removed_before(states, n, states[i].inbound, states[i].keys, states[i].pos)
            || yet_to_be_removed(now, states[i].inbound, states[i].keys, states[i].pos)) by {
            let (inbound, keys, pos) = (states[i].inbound, states[i].keys, states[i].pos);
            if i == m {
                assert(now.applied@ == job.applied@.push(job.pos));
                assert(now.applied@[job.applied@.len() as int] == pos);
            } else if !removed_before(states, m, inbound, keys, pos) {
                let k = choose|k: int|
                    0 <= k < job.applied@.len() && #[trigger] job.applied@[k] == pos && (
                    job.step matches SettleStep::RemoveApplied(at) ==> at <= k);
                match job.step {
                    SettleStep::RemoveApplied(at) => {
                        if at == k {
                            assert(states[m].step is RemoveApplied);
                        } else {
                            assert(now.applied@[k] == pos);
                        }
                    },
                    _ => {
                        assert(now.applied@[k] == pos);
                    },
                }
            }
        }
        if works_on_records(now.step) {
            assert forall|k: int| 0 <= k < now.applied@.len() implies updated_before(
                states,
                n,
                now.inbound,
                now.keys,
                #[trigger] now.applied@[k],
            ) by {
                if job.step is UpdateChannel && k == job.applied@.len() {
                    assert(states[m].step is UpdateChannel);
                } else {
                    assert(job.applied@[k] == now.applied@[k]);
                }
            }
        }
    }
}

/// A settling that ends well has listed the records of both sides, in turn.
pub proof fn law_settling_looks_at_both_sides(
    states: Seq<SettlePayment>,
    replies: Seq<SettleReply>,
    n: int,
)
    requires
        is_settle_run(states, replies),
        states[0].step is List,
        states[0].inbound,
        !states[0].applied_any,
        0 <= n < states.len(),
        states[n].step matches SettleStep::Finished(Ok(_)),
    ensures
        listed_before(states, replies, n, true),
        listed_before(states, replies, n, false),
{
    lemma_settle_progress(states, replies, n);
}

/// Every record that changed a balance is removed before a settling ends well, so that it changes none
/// again; within a settling no record does so twice; and only such records are removed.
pub proof fn law_applied_records_are_removed(
    states: Seq<SettlePayment>,
    replies: Seq<SettleReply>,
    n: int,
    i: int,
    j: int,
)
    requires
        is_settle_run(states, replies),
        states[0].step is List,
        states[0].inbound,
        !states[0].applied_any,
        0 <= i < n < states.len(),
        0 <= j < n,
    ensures
        states[n].step == SettleStep::Finished(Ok::<(), StoreError>(())) && states[i].step is UpdateChannel
            ==> removed_before(states, n, states[i].inbound, states[i].keys, states[i].pos),
        i < j && states[i].step is UpdateChannel && states[j].step is UpdateChannel
            && states[i].inbound == states[j].inbound ==> states[i].keys == states[j].keys
            && states[i].pos < states[j].pos,
        states[i].step matches SettleStep::RemoveApplied(k) ==> updated_before(
            states,
            i,
            states[i].inbound,
            states[i].keys,
            states[i].applied@[k as int],
        ),
{
    lemma_settle_progress(states, replies, n);
    lemma_settle_progress(states, replies, i);
    lemma_settle_progress(states, replies, j);
}

spec fn relisted_before(
    states: Seq<SettlePayment>,
    replies: Seq<SettleReply>,
    n: int,
    inbound: bool,
) -> bool {
    exists|i: int|
        0 <= i < n && (#[trigger] states[i]).step is Relist && states[i].inbound == inbound
            && replies[i] is Keys
}

spec fn relist_progress(states: Seq<SettlePayment>, replies: Seq<SettleReply>, n: int) -> bool {
    let now = states[n];
    &&& now.step is Relist && !now.inbound ==> relisted_before(states, replies, n, true)
    &&& now.step is RemoveRaw ==> relisted_before(states, replies, n, now.inbound) && (!now.inbound
        ==> relisted_before(states, replies, n, true))
    &&& (now.step matches SettleStep::Finished(Ok(_))) && now.applied_any ==> relisted_before(
        states,
        replies,
        n,
        true,
    ) && relisted_before(states, replies, n, false)
}

proof fn lemma_relist_progress(states: Seq<SettlePayment>, replies: Seq<SettleReply>, n: int)
    requires
        is_settle_run(states, replies),
        states[0].step is List,
        0 <= n < states.len(),
    ensures
        relist_progress(states, replies, n),
    decreases n,
{
    if n > 0 {
        let m = n - 1;
        lemma_relist_progress(states, replies, m);
        let reply = replies[m];
        assert(settle_fits(states[m].step, reply) && settle_next(states[m], reply, states[m + 1]));
        assert(states[m].wf());
        assert(states[n].wf());
    }
}

/// A settling that changed any balance looks, before it ends well, for what is left of the payment on
/// both sides.
pub proof fn law_settling_cleans_up_both_sides(
    states: Seq<SettlePayment>,
    replies: Seq<SettleReply>,
    n: int,
    i: int,
)
    requires
        is_settle_run(states, replies),
        states[0].step is List,
        states[0].inbound,
        !states[0].applied_any,
        0 <= i < n < states.len(),
        states[i].step is UpdateChannel,
        states[n].step == SettleStep::Finished(Ok::<(), StoreError>(())),
    ensures
        exists|a: int|
            0 <= a < n && (#[trigger] states[a]).step is Relist && states[a].inbound
                && replies[a] is Keys,
        exists|b: int|
            0 <= b < n && (#[trigger] states[b]).step is Relist && !states[b].inbound
                && replies[b] is Keys,
{
    lemma_settle_progress(states, replies, n);
    lemma_relist_progress(states, replies, n);
}

/// What a virtual channel has under its temporary ID is removed from there; it is not lost, unless the
/// final ID had metadata already, which stays.
pub proof fn law_virtual_metadata_moves_whole(temporary: Option<RgbInfo>, has_final: bool)
    ensures
        info_move(temporary, has_final).remove <==> temporary is Some,
        !has_final ==> info_move(temporary, has_final).write == temporary,
        has_final ==> info_move(temporary, has_final).write is None,
{
}

/// The record of a claimable payment is looked for on every channel that it came over, in order, until
/// one is written: where nothing goes through on the first channels, the next one is looked at.
pub proof fn law_every_channel_is_tried_for_the_record(count: nat, i: usize, written: bool)
    requires
        count <= usize::MAX,
        i < count,
    ensures
        project_next(count, ProjectStep::Read(i), true) == ProjectStep::Write(i),
        i + 1 < count ==> project_next(count, ProjectStep::Read(i), false) == ProjectStep::Read(
            (i + 1) as usize,
        ),
        i + 1 < count ==> project_next(count, ProjectStep::Write(i), false) == ProjectStep::Read(
            (i + 1) as usize,
        ),
        i + 1 == count ==> project_next(count, ProjectStep::Read(i), false) == ProjectStep::Done,
        i + 1 == count ==> project_next(count, ProjectStep::Write(i), false) == ProjectStep::Done,
        project_next(count, ProjectStep::Write(i), true) == ProjectStep::Done,
        project_next(count, ProjectStep::Done, written) == ProjectStep::Done,
        project_from(count, 0) == ProjectStep::Read(0),
        project_from(0, 0) == ProjectStep::Done,
{
}

/// The balance of a channel that has one is updated, a channel without one is left alone, and what cannot
/// be read is reported as it is.
pub proof fn law_only_channels_without_a_balance_are_left_alone(read: Result<(), StoreError>)
    ensures
        safe_update(read) is Apply <==> read is Ok,
        safe_update(read) is Skip <==> read is Err && read->Err_0.not_found,
        read is Err && !read->Err_0.not_found ==> safe_update(read) == SafeUpdate::Fail(read->Err_0),
{
}

/// The next record is the first one on the channel from a place on, and the end where there is none.
pub proof fn law_the_next_record_is_the_first(
    keys: Seq<String>,
    pending: Seq<char>,
    from: int,
    k: int,
)
    requires
        0 <= from <= keys.len(),
    ensures
        from <= next_record(keys, pending, from) <= keys.len(),
        next_record(keys, pending, from) < keys.len() ==> is_channel_record(
            keys[next_record(keys, pending, from)]@,
            pending,
        ),
        from <= k < next_record(keys, pending, from) ==> !is_channel_record(keys[k]@, pending),
    decreases keys.len() - from,
{
    if from < keys.len() && !is_channel_record(keys[from]@, pending) {
        law_the_next_record_is_the_first(keys, pending, from + 1, k);
    }
}

} // verus!
