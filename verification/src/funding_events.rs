//! What the node makes of the channel manager's funding events.
//!
//! A [`BroadcastSafe`] follows a funding that may be broadcast, a [`ChannelPending`] one that waits to
//! be confirmed. Both say which effect comes next; the caller performs it and hands the reply back.

use vstd::pervasive::unreached;
use vstd::prelude::*;
use vstd::string::*;
use vstd::utf8::*;

use crate::error::RgbLibError;
use crate::kv_store::StoreError;
use crate::psbt::utf8_text;
use crate::receiver_funding::PendingFundingAcceptance;
use crate::recovery::RgbFundingRecoveryState;
use crate::sender_funding::{RgbSenderFundingRecord, RgbSenderFundingStage};
use crate::text::{copy, opt_is, same};

verus! {

// ---------------------------------------------------------------------------------------------
// The broadcast is safe
// ---------------------------------------------------------------------------------------------

/// Where a funding that may be broadcast stands: the effect that comes next, or how it ended.
#[derive(Debug, PartialEq, Eq)]
pub enum BroadcastStep {
    ReadRecord,
    /// Records the final ID of the channel.
    AddChannelId(RgbSenderFundingRecord),
    /// Journals that the broadcast is safe. The event is replayed whatever comes of it, so that the
    /// channel manager's state is stored before anything is broadcast.
    WriteObserved(RgbSenderFundingRecord),
    /// Journals the intent before the first call that may broadcast.
    WriteIntent(RgbSenderFundingRecord),
    /// Broadcasts, finalizes and completes.
    Commit(RgbSenderFundingRecord),
    Complete(RgbSenderFundingRecord),
    /// The funding needs no recovery any more.
    ClearGuard,
    /// The event was handled.
    Done,
    /// The event is to be replayed.
    Replay,
}

/// The handling of a funding that may be broadcast.
#[derive(Debug)]
pub struct BroadcastSafe {
    /// The temporary and the final channel ID of the event, in hexadecimal.
    pub temporary_channel_id: String,
    pub channel_id: String,
    pub step: BroadcastStep,
}

/// What the caller got back.
#[derive(Debug)]
pub enum FundingReply {
    Done,
    StoreFailed(StoreError),
    /// The wallet's call or the job that was run, or its worker, failed.
    Failed,
    Record(Result<RgbSenderFundingRecord, RgbLibError>),
    OptionalRecord(Result<Option<RgbSenderFundingRecord>, RgbLibError>),
    Flag(bool),
    Bytes(Vec<u8>),
    Acceptance(PendingFundingAcceptance),
}

pub open spec fn broadcast_fits(step: BroadcastStep, reply: FundingReply) -> bool {
    match step {
        BroadcastStep::ReadRecord => reply is Record,
        BroadcastStep::AddChannelId(_) | BroadcastStep::ClearGuard => reply is Done,
        BroadcastStep::WriteObserved(_) | BroadcastStep::WriteIntent(_) => reply is Done
            || reply is StoreFailed,
        BroadcastStep::Commit(_) | BroadcastStep::Complete(_) => reply is Done || reply is Failed,
        BroadcastStep::Done | BroadcastStep::Replay => false,
    }
}

/// Whether a record is the one that an event speaks of, and the node itself broadcasts it.
pub open spec fn is_manual_record(
    record: RgbSenderFundingRecord,
    temporary_channel_id: Seq<char>,
    channel_id: Seq<char>,
) -> bool {
    &&& record.manual_broadcast
    &&& record.temporary_channel_id@ == temporary_channel_id
    &&& record.final_channel_id matches Some(id) && id@ == channel_id
}

/// What a matching record leads to.
pub open spec fn broadcast_from(record: RgbSenderFundingRecord) -> BroadcastStep {
    let observed = record.at(RgbSenderFundingStage::BroadcastSafeObserved);
    let intent = record.at(RgbSenderFundingStage::Broadcasting);
    match record.stage {
        RgbSenderFundingStage::HandoffReady
        | RgbSenderFundingStage::HandedToLdk => if observed.valid() {
            BroadcastStep::WriteObserved(observed)
        } else {
            BroadcastStep::Replay
        },
        RgbSenderFundingStage::BroadcastSafeObserved => if intent.valid() {
            BroadcastStep::WriteIntent(intent)
        } else {
            BroadcastStep::Replay
        },
        RgbSenderFundingStage::Broadcasting
        | RgbSenderFundingStage::BroadcastCommitted => BroadcastStep::Commit(record),
        RgbSenderFundingStage::Finalized
        | RgbSenderFundingStage::DurablyCompleted => BroadcastStep::Complete(record),
        _ => BroadcastStep::Replay,
    }
}

/// What follows from a reply.
pub open spec fn broadcast_next(job: BroadcastSafe, reply: FundingReply) -> BroadcastStep {
    match job.step {
        BroadcastStep::ReadRecord => match reply {
            FundingReply::Record(Ok(record)) => if is_manual_record(
                record,
                job.temporary_channel_id@,
                job.channel_id@,
            ) {
                BroadcastStep::AddChannelId(record)
            } else {
                BroadcastStep::Replay
            },
            _ => BroadcastStep::Replay,
        },
        BroadcastStep::AddChannelId(record) => broadcast_from(record),
        BroadcastStep::WriteObserved(_) => BroadcastStep::Replay,
        BroadcastStep::WriteIntent(record) => if reply is Done {
            BroadcastStep::Commit(record)
        } else {
            BroadcastStep::Replay
        },
        BroadcastStep::Commit(_) | BroadcastStep::Complete(_) => if reply is Done {
            BroadcastStep::ClearGuard
        } else {
            BroadcastStep::Replay
        },
        BroadcastStep::ClearGuard => BroadcastStep::Done,
        BroadcastStep::Done => BroadcastStep::Done,
        BroadcastStep::Replay => BroadcastStep::Replay,
    }
}

fn broadcast_step(record: RgbSenderFundingRecord) -> (r: BroadcastStep)
    ensures
        r == broadcast_from(record),
{
    match record.stage {
        RgbSenderFundingStage::HandoffReady | RgbSenderFundingStage::HandedToLdk => {
            let mut observed = record;
            observed.stage = RgbSenderFundingStage::BroadcastSafeObserved;
            match observed.validate() {
                Ok(_) => BroadcastStep::WriteObserved(observed),
                Err(_) => BroadcastStep::Replay,
            }
        },
        RgbSenderFundingStage::BroadcastSafeObserved => {
            let mut intent = record;
            intent.stage = RgbSenderFundingStage::Broadcasting;
            match intent.validate() {
                Ok(_) => BroadcastStep::WriteIntent(intent),
                Err(_) => BroadcastStep::Replay,
            }
        },
        RgbSenderFundingStage::Broadcasting | RgbSenderFundingStage::BroadcastCommitted => {
            BroadcastStep::Commit(record)
        },
        RgbSenderFundingStage::Finalized | RgbSenderFundingStage::DurablyCompleted => {
            BroadcastStep::Complete(record)
        },
        RgbSenderFundingStage::Preparing
        | RgbSenderFundingStage::StockPromoted
        | RgbSenderFundingStage::RollingBack
        | RgbSenderFundingStage::RetryRequired => BroadcastStep::Replay,
    }
}

impl BroadcastSafe {
    /// Starts to handle a funding that may be broadcast.
    pub fn new(temporary_channel_id: String, channel_id: String) -> (r: Self)
        ensures
            r == (BroadcastSafe {
                temporary_channel_id,
                channel_id,
                step: BroadcastStep::ReadRecord,
            }),
    {
        BroadcastSafe { temporary_channel_id, channel_id, step: BroadcastStep::ReadRecord }
    }

    /// Decides what follows from a reply.
    pub fn advance(self, reply: FundingReply) -> (next: Self)
        requires
            broadcast_fits(self.step, reply),
        ensures
            next == (BroadcastSafe { step: broadcast_next(self, reply), ..self }),
    {
        let BroadcastSafe { temporary_channel_id, channel_id, step } = self;
        let step = match step {
            BroadcastStep::ReadRecord => match reply {
                FundingReply::Record(Ok(record)) => {
                    if record.manual_broadcast && same(
                        record.temporary_channel_id.as_str(),
                        temporary_channel_id.as_str(),
                    ) && opt_is(&record.final_channel_id, channel_id.as_str()) {
                        BroadcastStep::AddChannelId(record)
                    } else {
                        BroadcastStep::Replay
                    }
                },
                _ => BroadcastStep::Replay,
            },
            BroadcastStep::AddChannelId(record) => broadcast_step(record),
            BroadcastStep::WriteObserved(_) => BroadcastStep::Replay,
            BroadcastStep::WriteIntent(record) => match reply {
                FundingReply::Done => BroadcastStep::Commit(record),
                _ => BroadcastStep::Replay,
            },
            BroadcastStep::Commit(_) | BroadcastStep::Complete(_) => match reply {
                FundingReply::Done => BroadcastStep::ClearGuard,
                _ => BroadcastStep::Replay,
            },
            BroadcastStep::ClearGuard => BroadcastStep::Done,
            BroadcastStep::Done => BroadcastStep::Done,
            BroadcastStep::Replay => BroadcastStep::Replay,
        };
        BroadcastSafe { temporary_channel_id, channel_id, step }
    }
}

/// Nothing is broadcast before the intent is durable: a commit follows the acknowledged write of the
/// intent, or a record that was read with it.
pub proof fn law_broadcasts_follow_a_durable_intent(job: BroadcastSafe, reply: FundingReply)
    requires
        broadcast_fits(job.step, reply),
        broadcast_next(job, reply) is Commit,
    ensures
        (job.step is WriteIntent && reply is Done) || (job.step matches BroadcastStep::AddChannelId(
            r,
        ) && (r.stage is Broadcasting || r.stage is BroadcastCommitted)),
{
}

/// A funding is broadcast at the earliest when its event comes back: a record that was only handed
/// over is journalled, and the event replayed.
pub proof fn law_first_sight_never_broadcasts(
    job: BroadcastSafe,
    record: RgbSenderFundingRecord,
    reply: FundingReply,
    later: FundingReply,
)
    requires
        job.step == BroadcastStep::AddChannelId(record),
        record.stage is HandoffReady || record.stage is HandedToLdk,
        broadcast_fits(job.step, reply),
    ensures
        ({
            let next = BroadcastSafe { step: broadcast_next(job, reply), ..job };
            &&& next.step is WriteObserved || next.step is Replay
            &&& next.step is WriteObserved ==> broadcast_next(next, later) is Replay
        }),
{
}

// ---------------------------------------------------------------------------------------------
// The channel is pending
// ---------------------------------------------------------------------------------------------

/// Where a pending channel stands: the effect that comes next, or how it ended.
#[derive(Debug, PartialEq, Eq)]
pub enum PendingStep {
    /// Records the final ID of the channel, where it had a temporary one.
    AddChannelId,
    /// Looks whether the channel is a virtual one.
    CheckVirtual,
    ReadRecord,
    /// Completes a finalized funding.
    Complete(RgbSenderFundingRecord),
    /// Reads the stored signed transaction.
    ReadPsbt(Option<RgbSenderFundingRecord>),
    /// Looks whether the channel is colored.
    CheckColored { psbt: String, record: Option<RgbSenderFundingRecord> },
    WriteIntent(RgbSenderFundingRecord),
    /// Broadcasts, finalizes and completes.
    Commit(RgbSenderFundingRecord),
    /// Finishes a funding without a record: of a colored channel in the wallet's records only.
    SendEnd { psbt: String, colored: bool },
    /// The funding needs no recovery any more; the marker is removed after it, or nothing is.
    ClearSender { then_remove: bool },
    /// Removes the pending-funding marker.
    RemoveMarker,
    /// Drops the consignment that was kept for a replay, if it is there.
    DropConsignment,
    /// Reads the receiver's record of a temporary channel.
    ReadAcceptance(String),
    /// Reconciles the receiver's record.
    Reconcile(PendingFundingAcceptance),
    ClearReceiver(String),
    /// The funding is kept from being touched; the event is replayed.
    Quarantine(String),
    /// Frees the slot of the staged funding; nothing is left to do.
    ForgetStaged,
    /// The event was handled.
    Done,
    /// The event is to be replayed.
    Replay,
}

/// The handling of a pending channel.
#[derive(Debug)]
pub struct ChannelPending {
    pub funding_txid: String,
    /// The final channel ID, in hexadecimal.
    pub channel_id: String,
    pub temporary_channel_id: Option<String>,
    pub step: PendingStep,
}

pub open spec fn pending_fits(step: PendingStep, reply: FundingReply) -> bool {
    match step {
        PendingStep::AddChannelId
        | PendingStep::ClearSender { .. }
        | PendingStep::DropConsignment
        | PendingStep::ClearReceiver(_)
        | PendingStep::Quarantine(_)
        | PendingStep::ForgetStaged => reply is Done,
        PendingStep::CheckVirtual | PendingStep::CheckColored { .. } => reply is Flag,
        PendingStep::ReadRecord => reply is OptionalRecord,
        PendingStep::Complete(_)
        | PendingStep::Commit(_)
        | PendingStep::SendEnd { .. }
        | PendingStep::Reconcile(_) => reply is Done || reply is Failed,
        PendingStep::ReadPsbt(_) => reply is Bytes || reply is StoreFailed,
        PendingStep::WriteIntent(_) | PendingStep::RemoveMarker => reply is Done
            || reply is StoreFailed,
        PendingStep::ReadAcceptance(_) => reply is Acceptance || reply is StoreFailed,
        PendingStep::Done | PendingStep::Replay => false,
    }
}

/// What a sender's record leads to: a finalized one is completed, one that the node broadcasts itself
/// is left to its own event, any other is carried on from its signed transaction.
pub open spec fn pending_record(
    record: Option<RgbSenderFundingRecord>,
    channel_id: Seq<char>,
) -> PendingStep {
    match record {
        None => PendingStep::ReadPsbt(None),
        Some(r) => if !(r.final_channel_id matches Some(id) && id@ == channel_id) {
            PendingStep::Replay
        } else if r.stage is Finalized || r.stage is DurablyCompleted {
            PendingStep::Complete(r)
        } else if r.manual_broadcast {
            PendingStep::Done
        } else {
            PendingStep::ReadPsbt(Some(r))
        },
    }
}

/// What the signed transaction of a channel leads to.
pub open spec fn pending_colored(
    psbt: String,
    record: Option<RgbSenderFundingRecord>,
    colored: bool,
) -> PendingStep {
    if colored && record is Some {
        let intent = record->0.at(RgbSenderFundingStage::Broadcasting);
        if intent.valid() {
            PendingStep::WriteIntent(intent)
        } else {
            PendingStep::Replay
        }
    } else {
        PendingStep::SendEnd { psbt, colored }
    }
}

/// The receiver's side comes last; it is only there where the channel had a temporary ID.
pub open spec fn receiver_side(job: ChannelPending) -> PendingStep {
    match job.temporary_channel_id {
        Some(id) => PendingStep::ReadAcceptance(id),
        None => PendingStep::Done,
    }
}

/// What follows from a reply.
pub open spec fn pending_next(job: ChannelPending, reply: FundingReply, next: PendingStep) -> bool {
    match job.step {
        PendingStep::AddChannelId => next is CheckVirtual,
        PendingStep::CheckVirtual => if reply == FundingReply::Flag(true) {
            next is ForgetStaged
        } else {
            next is ReadRecord
        },
        PendingStep::ReadRecord => next == match reply {
            FundingReply::OptionalRecord(Ok(record)) => pending_record(record, job.channel_id@),
            _ => PendingStep::Replay,
        },
        PendingStep::Complete(_) => next == (if reply is Done {
            PendingStep::ClearSender { then_remove: false }
        } else {
            PendingStep::Replay
        }),
        PendingStep::ReadPsbt(record) => match reply {
            FundingReply::Bytes(bytes) => if valid_utf8(bytes@) {
                next matches PendingStep::CheckColored { psbt, record: r } && psbt@ == decode_utf8(
                    bytes@,
                ) && r == record
            } else {
                next is Replay
            },
            FundingReply::StoreFailed(e) => if e.not_found {
                next is DropConsignment
            } else {
                next is Replay
            },
            _ => false,
        },
        PendingStep::CheckColored { psbt, record } => next == pending_colored(
            psbt,
            record,
            reply == FundingReply::Flag(true),
        ),
        PendingStep::WriteIntent(record) => next == (if reply is Done {
            PendingStep::Commit(record)
        } else {
            PendingStep::Replay
        }),
        PendingStep::Commit(_) => next == (if reply is Done {
            PendingStep::ClearSender { then_remove: true }
        } else {
            PendingStep::Replay
        }),
        PendingStep::SendEnd { .. } => next == (if reply is Done {
            PendingStep::RemoveMarker
        } else {
            PendingStep::Replay
        }),
        PendingStep::ClearSender { then_remove } => next == (if then_remove {
            PendingStep::RemoveMarker
        } else {
            PendingStep::Done
        }),
        PendingStep::RemoveMarker => next == match reply {
            FundingReply::StoreFailed(e) => if e.not_found {
                receiver_side(job)
            } else {
                PendingStep::Replay
            },
            _ => receiver_side(job),
        },
        PendingStep::DropConsignment => next == receiver_side(job),
        PendingStep::ReadAcceptance(_) => next == match reply {
            FundingReply::Acceptance(record) => PendingStep::Reconcile(record),
            _ => if reply->StoreFailed_0.not_found {
                PendingStep::ForgetStaged
            } else {
                PendingStep::Quarantine(job.funding_txid)
            },
        },
        PendingStep::Reconcile(record) => next == (if reply is Done {
            PendingStep::ClearReceiver(record.funding_txid)
        } else {
            PendingStep::Quarantine(record.funding_txid)
        }),
        PendingStep::ClearReceiver(_) => next is ForgetStaged,
        PendingStep::Quarantine(_) => next is Replay,
        PendingStep::ForgetStaged => next is Done,
        PendingStep::Done | PendingStep::Replay => false,
    }
}

fn record_step(record: Option<RgbSenderFundingRecord>, channel_id: &str) -> (r: PendingStep)
    ensures
        r == pending_record(record, channel_id@),
{
    match record {
        None => PendingStep::ReadPsbt(None),
        Some(record) => {
            if !opt_is(&record.final_channel_id, channel_id) {
                PendingStep::Replay
            } else if record.stage == RgbSenderFundingStage::Finalized || record.stage
                == RgbSenderFundingStage::DurablyCompleted {
                PendingStep::Complete(record)
            } else if record.manual_broadcast {
                PendingStep::Done
            } else {
                PendingStep::ReadPsbt(Some(record))
            }
        },
    }
}

fn colored_step(psbt: String, record: Option<RgbSenderFundingRecord>, colored: bool) -> (r:
    PendingStep)
    ensures
        r == pending_colored(psbt, record, colored),
{
    if colored {
        if let Some(record) = record {
            let mut intent = record;
            intent.stage = RgbSenderFundingStage::Broadcasting;
            return match intent.validate() {
                Ok(_) => PendingStep::WriteIntent(intent),
                Err(_) => PendingStep::Replay,
            };
        }
    }
    PendingStep::SendEnd { psbt, colored }
}

/// Where the handling of a pending channel starts.
pub open spec fn pending_starts(
    funding_txid: String,
    channel_id: String,
    temporary_channel_id: Option<String>,
    r: ChannelPending,
) -> bool {
    &&& r == (ChannelPending {
                funding_txid,
                channel_id,
                temporary_channel_id,
                step: if temporary_channel_id is Some {
                    PendingStep::AddChannelId
                } else {
                    PendingStep::CheckVirtual
                },
            })
}

impl ChannelPending {
    /// Starts to handle a pending channel.
    pub fn new(
        funding_txid: String,
        channel_id: String,
        temporary_channel_id: Option<String>,
    ) -> (r: Self)
        ensures
            pending_starts(funding_txid, channel_id, temporary_channel_id, r),
    {
        let step = if temporary_channel_id.is_some() {
            PendingStep::AddChannelId
        } else {
            PendingStep::CheckVirtual
        };
        ChannelPending { funding_txid, channel_id, temporary_channel_id, step }
    }

    fn receiver_step(&self) -> (r: PendingStep)
        ensures
            r == receiver_side(*self),
    {
        match &self.temporary_channel_id {
            Some(id) => PendingStep::ReadAcceptance(copy(id)),
            None => PendingStep::Done,
        }
    }

    fn after(&self, step: PendingStep, reply: FundingReply) -> (next: PendingStep)
        requires
            pending_fits(step, reply),
        ensures
            pending_next(ChannelPending { step, ..*self }, reply, next),
    {
        match step {
            PendingStep::AddChannelId => PendingStep::CheckVirtual,
            PendingStep::CheckVirtual => match reply {
                FundingReply::Flag(true) => PendingStep::ForgetStaged,
                _ => PendingStep::ReadRecord,
            },
            PendingStep::ReadRecord => match reply {
                FundingReply::OptionalRecord(Ok(record)) => record_step(
                    record,
                    self.channel_id.as_str(),
                ),
                _ => PendingStep::Replay,
            },
            PendingStep::Complete(_) => match reply {
                FundingReply::Done => PendingStep::ClearSender { then_remove: false },
                _ => PendingStep::Replay,
            },
            PendingStep::ReadPsbt(record) => match reply {
                FundingReply::Bytes(bytes) => match utf8_text(bytes) {
                    Ok(psbt) => PendingStep::CheckColored { psbt, record },
                    Err(_) => PendingStep::Replay,
                },
                FundingReply::StoreFailed(e) => if e.not_found {
                    PendingStep::DropConsignment
                } else {
                    PendingStep::Replay
                },
                _ => unreached(),
            },
            PendingStep::CheckColored { psbt, record } => {
                let colored = match reply {
                    FundingReply::Flag(colored) => colored,
                    _ => unreached(),
                };
                colored_step(psbt, record, colored)
            },
            PendingStep::WriteIntent(record) => match reply {
                FundingReply::Done => PendingStep::Commit(record),
                _ => PendingStep::Replay,
            },
            PendingStep::Commit(_) => match reply {
                FundingReply::Done => PendingStep::ClearSender { then_remove: true },
                _ => PendingStep::Replay,
            },
            PendingStep::SendEnd { .. } => match reply {
                FundingReply::Done => PendingStep::RemoveMarker,
                _ => PendingStep::Replay,
            },
            PendingStep::ClearSender { then_remove } => if then_remove {
                PendingStep::RemoveMarker
            } else {
                PendingStep::Done
            },
            PendingStep::RemoveMarker => match reply {
                FundingReply::StoreFailed(e) => if e.not_found {
                    self.receiver_step()
                } else {
                    PendingStep::Replay
                },
                _ => self.receiver_step(),
            },
            PendingStep::DropConsignment => self.receiver_step(),
            PendingStep::ReadAcceptance(_) => match reply {
                FundingReply::Acceptance(record) => PendingStep::Reconcile(record),
                FundingReply::StoreFailed(e) => if e.not_found {
                    PendingStep::ForgetStaged
                } else {
                    PendingStep::Quarantine(copy(&self.funding_txid))
                },
                _ => unreached(),
            },
            PendingStep::Reconcile(record) => match reply {
                FundingReply::Done => PendingStep::ClearReceiver(record.funding_txid),
                _ => PendingStep::Quarantine(record.funding_txid),
            },
            PendingStep::ClearReceiver(_) => PendingStep::ForgetStaged,
            PendingStep::Quarantine(_) => PendingStep::Replay,
            PendingStep::ForgetStaged => PendingStep::Done,
            PendingStep::Done | PendingStep::Replay => unreached(),
        }
    }

    /// Decides what follows from a reply.
    pub fn advance(self, reply: FundingReply) -> (next: Self)
        requires
            pending_fits(self.step, reply),
        ensures
            next == (ChannelPending { step: next.step, ..self }),
            pending_next(self, reply, next.step),
    {
        let ChannelPending { funding_txid, channel_id, temporary_channel_id, step } = self;
        let job = ChannelPending {
            funding_txid,
            channel_id,
            temporary_channel_id,
            step: PendingStep::Done,
        };
        let step = job.after(step, reply);
        ChannelPending {
            funding_txid: job.funding_txid,
            channel_id: job.channel_id,
            temporary_channel_id: job.temporary_channel_id,
            step,
        }
    }
}

/// A funding that the node broadcasts itself is never broadcast, nor its marker removed, when its
/// channel turns pending; that is left to the event that says it is safe.
pub proof fn law_manual_broadcasts_are_left_to_their_event(
    record: RgbSenderFundingRecord,
    channel_id: Seq<char>,
)
    requires
        record.manual_broadcast,
    ensures
        ({
            let step = pending_record(Some(record), channel_id);
            step is Done || step is Replay || (step is Complete && (record.stage is Finalized
                || record.stage is DurablyCompleted))
        }),
{
}

/// A receiver's funding that cannot be reconciled is kept from being touched before the event is
/// replayed.
pub proof fn law_unreconciled_receivers_are_quarantined(
    job: ChannelPending,
    reply: FundingReply,
    next: PendingStep,
)
    requires
        pending_fits(job.step, reply),
        pending_next(job, reply, next),
        job.step is Reconcile,
        !(reply is Done),
    ensures
        next is Quarantine,
{
}

// ---------------------------------------------------------------------------------------------
// Tombstones and tallies
// ---------------------------------------------------------------------------------------------

/// Whether a record is a tombstone that goes with its channel.
pub open spec fn is_tombstone(record: RgbSenderFundingRecord, channel_id: Seq<char>) -> bool {
    record.stage is DurablyCompleted && (record.final_channel_id matches Some(id) && id@
        == channel_id)
}

/// Whether the record of a completed funding goes now that its channel is closed.
pub fn remove_finalized_sender_tombstone_for_channel(
    record: &RgbSenderFundingRecord,
    channel_id: &str,
) -> (r: bool)
    ensures
        r == is_tombstone(*record, channel_id@),
{
    record.stage == RgbSenderFundingStage::DurablyCompleted && opt_is(
        &record.final_channel_id,
        channel_id,
    )
}

/// What the reconciliation of the receiver's records came to.
#[derive(Debug)]
pub struct ReceiverTally {
    pub completed: usize,
    pub unresolved: Vec<RgbFundingRecoveryState>,
}

/// What counting a record makes of a tally.
pub open spec fn is_counted(
    before: ReceiverTally,
    outcome: Option<RgbFundingRecoveryState>,
    after: ReceiverTally,
) -> bool {
    &&& match outcome {
                None => {
                    &&& after.completed == before.completed + 1
                    &&& after.unresolved@ == before.unresolved@
                },
                Some(report) => {
                    &&& after.completed == before.completed
                    &&& after.unresolved@ == before.unresolved@.push(report)
                },
            }
}

impl ReceiverTally {
    pub fn new() -> (r: Self)
        ensures
            r.completed == 0,
            r.unresolved@.len() == 0,
    {
        ReceiverTally { completed: 0, unresolved: Vec::new() }
    }

    /// Counts a record: resolved, or still to be reported.
    pub fn count(&mut self, outcome: Option<RgbFundingRecoveryState>)
        requires
            old(self).completed < usize::MAX,
        ensures
            is_counted(*old(self), outcome, *final(self)),
    {
        match outcome {
            None => {
                self.completed = self.completed + 1;
            },
            Some(report) => {
                self.unresolved.push(report);
            },
        }
    }
}

/// A run of a funding that may be broadcast: states, each of which follows from the one before by the
/// reply to its step.
pub open spec fn is_broadcast_run(states: Seq<BroadcastSafe>, replies: Seq<FundingReply>) -> bool {
    &&& states.len() == replies.len() + 1
    &&& forall|i: int|
        #![trigger replies[i]]
        0 <= i < replies.len() ==> broadcast_fits(states[i].step, replies[i]) && states[i + 1] == (
        BroadcastSafe { step: broadcast_next(states[i], replies[i]), ..states[i] })
}

spec fn is_of_event(record: RgbSenderFundingRecord, job: BroadcastSafe) -> bool {
    &&& record.manual_broadcast
    &&& record.temporary_channel_id@ == job.temporary_channel_id@
    &&& record.final_channel_id is Some && record.final_channel_id->0@ == job.channel_id@
}

spec fn carried_through(states: Seq<BroadcastSafe>, replies: Seq<FundingReply>, n: int) -> bool {
    exists|i: int|
        0 <= i < n && ((#[trigger] states[i]).step is Commit || states[i].step is Complete)
            && replies[i] is Done
}

spec fn broadcast_progress(states: Seq<BroadcastSafe>, replies: Seq<FundingReply>, n: int) -> bool {
    let job = states[n];
    &&& job.temporary_channel_id == states[0].temporary_channel_id && job.channel_id
        == states[0].channel_id
    &&& match job.step {
        BroadcastStep::ReadRecord => true,
        BroadcastStep::AddChannelId(r) => is_of_event(r, job),
        BroadcastStep::WriteObserved(r) => is_of_event(r, job) && r.stage is BroadcastSafeObserved,
        BroadcastStep::WriteIntent(r) => is_of_event(r, job) && r.stage is Broadcasting,
        BroadcastStep::Commit(r) => is_of_event(r, job) && (r.stage is Broadcasting
            || r.stage is BroadcastCommitted),
        BroadcastStep::Complete(r) => is_of_event(r, job) && (r.stage is Finalized
            || r.stage is DurablyCompleted),
        BroadcastStep::ClearGuard => carried_through(states, replies, n),
        BroadcastStep::Done => carried_through(states, replies, n) && exists|i: int|
            0 <= i < n && (#[trigger] states[i]).step is ClearGuard,
        BroadcastStep::Replay => true,
    }
}

proof fn lemma_broadcast_progress(states: Seq<BroadcastSafe>, replies: Seq<FundingReply>, n: int)
    requires
        is_broadcast_run(states, replies),
        states[0].step is ReadRecord,
        0 <= n < states.len(),
    ensures
        broadcast_progress(states, replies, n),
    decreases n,
{
    if n > 0 {
        let m = n - 1;
        lemma_broadcast_progress(states, replies, m);
        let reply = replies[m];
        assert(states[m + 1] == (BroadcastSafe {
            step: broadcast_next(states[m], reply),
            ..states[m]
        }));
        if states[m].step is Commit || states[m].step is Complete {
            assert(states[m].step is Commit || states[m].step is Complete);
        }
        if states[m].step is ClearGuard {
            assert(states[m].step is ClearGuard);
        }
    }
}

/// The event that a broadcast is safe is handled only once the funding was carried through and its guard
/// cleared; and every record that is written, broadcast or completed on the way is that of the event's
/// channels, which the node itself broadcasts, at the stage that the step is for.
pub proof fn law_safe_broadcasts_are_carried_through(
    states: Seq<BroadcastSafe>,
    replies: Seq<FundingReply>,
    n: int,
)
    requires
        is_broadcast_run(states, replies),
        states[0].step is ReadRecord,
        0 <= n < states.len(),
    ensures
        states[n].step is Done ==> exists|i: int|
            0 <= i < n && ((#[trigger] states[i]).step is Commit || states[i].step is Complete)
                && replies[i] is Done,
        states[n].step is Done ==> exists|i: int|
            0 <= i < n && (#[trigger] states[i]).step is ClearGuard,
        states[n].step matches BroadcastStep::Commit(r) ==> r.manual_broadcast
            && r.temporary_channel_id@ == states[0].temporary_channel_id@ && r.final_channel_id is Some
            && r.final_channel_id->0@ == states[0].channel_id@ && (r.stage is Broadcasting
            || r.stage is BroadcastCommitted),
        states[n].step matches BroadcastStep::Complete(r) ==> r.manual_broadcast
            && r.temporary_channel_id@ == states[0].temporary_channel_id@ && (r.stage is Finalized
            || r.stage is DurablyCompleted),
        states[n].step matches BroadcastStep::WriteIntent(r) ==> r.stage is Broadcasting
            && r.temporary_channel_id@ == states[0].temporary_channel_id@,
        states[n].step matches BroadcastStep::WriteObserved(r) ==> r.stage is BroadcastSafeObserved
            && r.temporary_channel_id@ == states[0].temporary_channel_id@,
{
    lemma_broadcast_progress(states, replies, n);
}

/// The record of the event's channels, which the node broadcasts itself, is taken up, at whatever stage
/// it was left: a handed-over one is journalled as safe, an observed one gets its intent written, one
/// whose broadcast may have begun is carried on, and a finalized one is completed. A record is otherwise
/// unchanged by its move.
pub proof fn law_safe_broadcasts_go_on_from_their_stage(
    job: BroadcastSafe,
    record: RgbSenderFundingRecord,
)
    requires
        record.valid(),
    ensures
        job.step is ReadRecord && record.manual_broadcast && record.temporary_channel_id@
            == job.temporary_channel_id@ && record.final_channel_id is Some
            && record.final_channel_id->0@ == job.channel_id@ ==> broadcast_next(
            job,
            FundingReply::Record(Ok(record)),
        ) == BroadcastStep::AddChannelId(record),
        job.step == BroadcastStep::AddChannelId(record) ==> {
            let next = broadcast_next(job, FundingReply::Done);
            &&& record.stage is HandoffReady || record.stage is HandedToLdk ==> next
                == BroadcastStep::WriteObserved(
                (RgbSenderFundingRecord {
                    stage: RgbSenderFundingStage::BroadcastSafeObserved,
                    ..record
                }),
            )
            &&& record.stage is BroadcastSafeObserved ==> next == BroadcastStep::WriteIntent(
                (RgbSenderFundingRecord { stage: RgbSenderFundingStage::Broadcasting, ..record }),
            )
            &&& record.stage is Broadcasting || record.stage is BroadcastCommitted ==> next
                == BroadcastStep::Commit(record)
            &&& record.stage is Finalized || record.stage is DurablyCompleted ==> next
                == BroadcastStep::Complete(record)
            &&& record.stage is Preparing || record.stage is StockPromoted
                || record.stage is RollingBack || record.stage is RetryRequired ==> next is Replay
        },
        job.step == BroadcastStep::WriteIntent(record) ==> broadcast_next(job, FundingReply::Done)
            == BroadcastStep::Commit(record),
{
}

/// Whatever fails on the way has the event come again, and nothing fails it for good.
pub proof fn law_failed_broadcast_steps_are_replayed(job: BroadcastSafe, reply: FundingReply)
    requires
        broadcast_fits(job.step, reply),
        reply is Failed || reply is StoreFailed || (reply matches FundingReply::Record(Err(_))),
    ensures
        broadcast_next(job, reply) is Replay,
{
}

/// A pending channel's funding is broadcast only after its intent is durable; the intent is written for
/// the record of this very channel, of a colored one, which the node does not broadcast by another event.
pub proof fn law_pending_channels_broadcast_after_the_intent(
    job: ChannelPending,
    reply: FundingReply,
    next: PendingStep,
)
    requires
        pending_fits(job.step, reply),
        pending_next(job, reply, next),
    ensures
        next matches PendingStep::Commit(r) ==> job.step == PendingStep::WriteIntent(r)
            && reply is Done,
        next matches PendingStep::WriteIntent(r) ==> job.step is CheckColored && reply
            == FundingReply::Flag(true) && r.stage is Broadcasting && (
        job.step->CheckColored_record matches Some(orig) && r.funding_txid == orig.funding_txid
            && r.temporary_channel_id == orig.temporary_channel_id && r.final_channel_id
            == orig.final_channel_id && r.manual_broadcast == orig.manual_broadcast),
        next matches PendingStep::ReadPsbt(Some(r)) ==> job.step is ReadRecord && !r.manual_broadcast
            && r.final_channel_id is Some && r.final_channel_id->0@ == job.channel_id@ && !(
        r.stage is Finalized) && !(r.stage is DurablyCompleted),
        next matches PendingStep::Complete(r) ==> job.step is ReadRecord && r.final_channel_id is Some
            && r.final_channel_id->0@ == job.channel_id@ && (r.stage is Finalized
            || r.stage is DurablyCompleted),
        next matches PendingStep::SendEnd { colored, .. } ==> job.step is CheckColored && (colored
            <==> reply == FundingReply::Flag(true)) && (colored ==> job.step->CheckColored_record is None),
{
}

/// The marker of a pending channel is removed only once its funding was committed or finished; the
/// sender's guard is cleared only once it was committed or completed; the receiver's only once its record
/// was reconciled.
pub proof fn law_pending_markers_outlive_the_funding(
    job: ChannelPending,
    reply: FundingReply,
    next: PendingStep,
)
    requires
        pending_fits(job.step, reply),
        pending_next(job, reply, next),
    ensures
        next is RemoveMarker ==> (job.step is SendEnd && reply is Done) || job.step == (
        PendingStep::ClearSender { then_remove: true }),
        next == (PendingStep::ClearSender { then_remove: true }) ==> job.step is Commit
            && reply is Done,
        next == (PendingStep::ClearSender { then_remove: false }) ==> job.step is Complete
            && reply is Done,
        next matches PendingStep::ClearReceiver(txid) ==> (job.step matches PendingStep::Reconcile(r)
            && r.funding_txid == txid) && reply is Done,
        next matches PendingStep::Reconcile(r) ==> job.step is ReadAcceptance && reply
            == FundingReply::Acceptance(r),
        next is Done ==> job.step is ForgetStaged || job.step == (PendingStep::ClearSender {
            then_remove: false,
        }) || (job.step is ReadRecord && (reply matches FundingReply::OptionalRecord(Ok(Some(r)))
            && r.manual_broadcast)) || ((job.step is RemoveMarker || job.step is DropConsignment)
            && job.temporary_channel_id is None),
{
}

/// Every good reply takes the handling of a pending channel on, to its end: a committed funding has its
/// guard cleared and its marker removed; a completed one its guard; after that comes the receiver's side
/// of a channel that had a temporary ID, which is read, reconciled, cleared and forgotten.
pub proof fn law_pending_channels_are_handled_to_the_end(
    job: ChannelPending,
    reply: FundingReply,
    next: PendingStep,
)
    requires
        pending_fits(job.step, reply),
        pending_next(job, reply, next),
        reply is Done || reply is Flag || reply is Acceptance,
    ensures
        job.step is AddChannelId ==> next is CheckVirtual,
        job.step is CheckVirtual && reply == FundingReply::Flag(true) ==> next is ForgetStaged,
        job.step is CheckVirtual && reply == FundingReply::Flag(false) ==> next is ReadRecord,
        job.step is Commit ==> next == (PendingStep::ClearSender { then_remove: true }),
        job.step is Complete ==> next == (PendingStep::ClearSender { then_remove: false }),
        job.step == (PendingStep::ClearSender { then_remove: true }) ==> next is RemoveMarker,
        job.step == (PendingStep::ClearSender { then_remove: false }) ==> next is Done,
        job.step is SendEnd ==> next is RemoveMarker,
        (job.step is RemoveMarker || job.step is DropConsignment) && job.temporary_channel_id is Some
            ==> next == PendingStep::ReadAcceptance(job.temporary_channel_id->0),
        (job.step is RemoveMarker || job.step is DropConsignment) && job.temporary_channel_id is None
            ==> next is Done,
        job.step matches PendingStep::Reconcile(r) ==> next == PendingStep::ClearReceiver(
            r.funding_txid,
        ),
        job.step is ClearReceiver ==> next is ForgetStaged,
        job.step is ForgetStaged ==> next is Done,
        job.step is Quarantine ==> next is Replay,
{
}

/// A failure leads to a replay of the event, with the receiver's funding kept from being touched where it
/// is the receiver's; only what is simply not there is no failure.
pub proof fn law_failed_pending_steps_are_replayed(
    job: ChannelPending,
    reply: FundingReply,
    next: PendingStep,
)
    requires
        pending_fits(job.step, reply),
        pending_next(job, reply, next),
    ensures
        reply is Failed && !(job.step is Reconcile) ==> next is Replay,
        reply is Failed && job.step is Reconcile ==> next == PendingStep::Quarantine(
            job.step->Reconcile_0.funding_txid,
        ),
        (reply matches FundingReply::OptionalRecord(Err(_))) ==> next is Replay,
        job.step is WriteIntent && reply is StoreFailed ==> next is Replay,
        (reply matches FundingReply::StoreFailed(e) && !e.not_found) && !(job.step is ReadAcceptance)
            ==> next is Replay,
        (reply matches FundingReply::StoreFailed(e) && !e.not_found) && job.step is ReadAcceptance
            ==> next == PendingStep::Quarantine(job.funding_txid),
        (reply matches FundingReply::StoreFailed(e) && e.not_found) ==> {
            &&& job.step is ReadPsbt ==> next is DropConsignment
            &&& job.step is ReadAcceptance ==> next is ForgetStaged
            &&& job.step is RemoveMarker && job.temporary_channel_id is Some ==> next
                == PendingStep::ReadAcceptance(job.temporary_channel_id->0)
        },
{
}

/// A pending channel first has its final ID recorded where it had a temporary one.
pub proof fn law_pending_channels_start_with_their_id(
    funding_txid: String,
    channel_id: String,
    temporary_channel_id: Option<String>,
    r: ChannelPending,
)
    requires
        pending_starts(funding_txid, channel_id, temporary_channel_id, r),
    ensures
        temporary_channel_id is Some ==> r.step is AddChannelId,
        temporary_channel_id is None ==> r.step is CheckVirtual,
        r.funding_txid == funding_txid && r.channel_id == channel_id && r.temporary_channel_id
            == temporary_channel_id,
{
}

/// A tombstone goes exactly with the closed channel that its completed funding belongs to.
pub proof fn law_tombstones_go_with_their_channel(
    record: RgbSenderFundingRecord,
    channel_id: Seq<char>,
)
    ensures
        is_tombstone(record, channel_id) <==> record.stage == RgbSenderFundingStage::DurablyCompleted
            && record.final_channel_id is Some && record.final_channel_id->0@ == channel_id,
{
}

/// Each counted record is either completed or still to be reported, and never both.
pub proof fn law_tallies_count_every_record(
    before: ReceiverTally,
    outcome: Option<RgbFundingRecoveryState>,
    after: ReceiverTally,
)
    requires
        is_counted(before, outcome, after),
    ensures
        after.completed + after.unresolved@.len() == before.completed + before.unresolved@.len() + 1,
        outcome matches Some(report) ==> after.unresolved@.last() == report && after.completed
            == before.completed,
        outcome is None ==> after.unresolved@ == before.unresolved@,
        forall|i: int|
            0 <= i < before.unresolved@.len() ==> #[trigger] after.unresolved@[i]
                == before.unresolved@[i],
{
}

} // verus!
