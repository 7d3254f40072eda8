//! Releasing what a channel open has locked when the open fails.
//!
//! A [`Cleanup`] follows a channel whose open failed, a [`StagedAbort`] a funding transaction that
//! was staged but never fully signed. Both say which effect comes next; the caller performs it and
//! hands the reply back.

use vstd::prelude::*;
use vstd::string::*;
use vstd::utf8::*;

use crate::error::{internal, is_internal, rgb_sender_funding_error, RgbLibError};
use crate::kv_store::StoreError;
use crate::psbt::{parse_psbt, psbt_summary, utf8_text};
use crate::sender_funding::{RgbInfo, RgbSenderFundingRecord, RgbSenderFundingStage};
use crate::text::{join2, join4};

verus! {

// ---------------------------------------------------------------------------------------------
// Errors while a funding is prepared
// ---------------------------------------------------------------------------------------------

/// What a failed funding preparation leads to.
#[derive(Debug, PartialEq, Eq)]
pub enum PrepareFailure {
    /// The event is replayed: the network may come back.
    Replay,
    /// The channel is closed, so that the peer does not wait for a funding that will never come.
    Close(RgbLibError),
}

/// Whether an error may go away by itself.
pub open spec fn is_transient(e: RgbLibError) -> bool {
    e is Indexer || e is InvalidIndexer || e is Network
}

/// What a failed funding preparation leads to.
pub open spec fn prepare_failed(
    e: RgbLibError,
    r: PrepareFailure,
) -> bool {
    &&& r == (if is_transient(e) {
            PrepareFailure::Replay
        } else {
            PrepareFailure::Close(e)
        })
}

/// Replays the event after a network error, and gives the channel up after any other.
pub fn handle_funding_prepare_err(e: RgbLibError) -> (r: PrepareFailure)
    ensures
        prepare_failed(e, r),
{
    match e {
        RgbLibError::Indexer { .. }
        | RgbLibError::InvalidIndexer { .. }
        | RgbLibError::Network { .. } => PrepareFailure::Replay,
        e => PrepareFailure::Close(e),
    }
}

// ---------------------------------------------------------------------------------------------
// A journalled funding
// ---------------------------------------------------------------------------------------------

/// What is done with the journal record of a channel whose open failed.
#[derive(Clone, Copy, Debug, PartialEq, Eq, Structural)]
pub enum RecordResolution {
    /// The broadcast may have happened: it is carried through.
    Commit,
    /// The broadcast cannot have happened: everything is undone.
    Rollback,
    /// Nobody can tell: the record is kept.
    Keep,
}

/// What is done with the journal record of a channel whose open failed.
pub open spec fn resolution(record: RgbSenderFundingRecord) -> RecordResolution {
    match record.stage {
        RgbSenderFundingStage::Broadcasting
        | RgbSenderFundingStage::BroadcastCommitted
        | RgbSenderFundingStage::Finalized
        | RgbSenderFundingStage::DurablyCompleted => RecordResolution::Commit,
        RgbSenderFundingStage::Preparing
        | RgbSenderFundingStage::StockPromoted => RecordResolution::Rollback,
        RgbSenderFundingStage::HandoffReady
        | RgbSenderFundingStage::HandedToLdk
        | RgbSenderFundingStage::BroadcastSafeObserved => if record.manual_broadcast {
            RecordResolution::Rollback
        } else {
            RecordResolution::Keep
        },
        _ => RecordResolution::Keep,
    }
}

/// What is done with the journal record of a channel whose open failed.
pub fn resolve_record(record: &RgbSenderFundingRecord) -> (r: RecordResolution)
    ensures
        r == resolution(*record),
{
    match record.stage {
        RgbSenderFundingStage::Broadcasting
        | RgbSenderFundingStage::BroadcastCommitted
        | RgbSenderFundingStage::Finalized
        | RgbSenderFundingStage::DurablyCompleted => RecordResolution::Commit,
        RgbSenderFundingStage::Preparing
        | RgbSenderFundingStage::StockPromoted => RecordResolution::Rollback,
        RgbSenderFundingStage::HandoffReady
        | RgbSenderFundingStage::HandedToLdk
        | RgbSenderFundingStage::BroadcastSafeObserved => if record.manual_broadcast {
            RecordResolution::Rollback
        } else {
            RecordResolution::Keep
        },
        RgbSenderFundingStage::RollingBack | RgbSenderFundingStage::RetryRequired => RecordResolution::Keep,
    }
}

// ---------------------------------------------------------------------------------------------
// A channel whose open failed
// ---------------------------------------------------------------------------------------------

/// Where the cleanup of a channel stands: the effect that comes next.
#[derive(Debug, PartialEq, Eq)]
pub enum Cleanup {
    /// Reads the pending RGB metadata of the channel.
    ReadInfo,
    /// Takes the lease on funding operations, for a colored channel.
    LockOperation(RgbInfo),
    /// Reads the pending-funding marker of a colored channel.
    ReadColoredMarker(RgbInfo),
    /// Reads the pending-funding marker of a plain channel.
    ReadVanillaMarker,
    /// Looks the funding up in the journal.
    ReadRecord { funding_txid: String, info: RgbInfo },
    /// Carries a journalled broadcast through.
    CommitRecord(RgbSenderFundingRecord),
    /// Undoes a journalled funding.
    RollbackRecord(RgbSenderFundingRecord),
    /// Undoes the stock operation of a funding that was never journalled.
    RollbackStock { funding_txid: String, info: RgbInfo },
    /// Fails the transfers of the funding.
    FailTransfers { batch_transfer_idx: i32, info: RgbInfo },
    /// Writes the pending metadata without its transfer.
    WriteInfo(RgbInfo),
    /// Aborts the pending transaction of a plain channel.
    AbortVanilla(String),
    /// Removes the pending-funding marker.
    RemoveMarker,
    /// Nothing is left to do.
    Stopped,
}

/// What the caller got back.
#[derive(Debug)]
pub enum CleanupReply {
    Done,
    Info(Option<RgbInfo>),
    /// The pending-funding marker.
    Marker(Result<Vec<u8>, StoreError>),
    /// The journal record, if there is one.
    Record(Result<Option<RgbSenderFundingRecord>, RgbLibError>),
    /// What the wallet, or the job that was run, said.
    Wallet(Result<(), RgbLibError>),
    /// The worker did not come to its end.
    WorkerFailed(String),
}

/// Whether a reply answers the effect of a step.
pub open spec fn cleanup_fits(step: Cleanup, reply: CleanupReply) -> bool {
    match step {
        Cleanup::ReadInfo => reply is Info,
        Cleanup::LockOperation(_) | Cleanup::WriteInfo(_) | Cleanup::RemoveMarker => reply is Done,
        Cleanup::ReadColoredMarker(_) | Cleanup::ReadVanillaMarker => reply is Marker,
        Cleanup::ReadRecord { .. } => reply is Record,
        Cleanup::CommitRecord(_)
        | Cleanup::RollbackRecord(_)
        | Cleanup::RollbackStock { .. }
        | Cleanup::FailTransfers { .. }
        | Cleanup::AbortVanilla(_) => reply is Wallet || reply is WorkerFailed,
        Cleanup::Stopped => false,
    }
}

/// Whether the wallet did what it was asked.
pub open spec fn succeeded(reply: CleanupReply) -> bool {
    reply matches CleanupReply::Wallet(Ok(_))
}

/// The step that releases the transfers of a funding without a journal record: none where no
/// transfer was recorded.
pub open spec fn release_transfers(info: RgbInfo) -> Cleanup {
    match info.batch_transfer_idx {
        Some(batch_transfer_idx) => Cleanup::FailTransfers { batch_transfer_idx, info },
        None => Cleanup::RemoveMarker,
    }
}

/// What follows from a reply.
pub open spec fn cleanup_next(step: Cleanup, reply: CleanupReply, next: Cleanup) -> bool {
    match step {
        Cleanup::ReadInfo => next == match reply {
            CleanupReply::Info(Some(info)) => Cleanup::LockOperation(info),
            _ => Cleanup::ReadVanillaMarker,
        },
        Cleanup::LockOperation(info) => next == Cleanup::ReadColoredMarker(info),
        // without a readable marker nothing of a colored channel is touched
        Cleanup::ReadColoredMarker(info) => match reply {
            CleanupReply::Marker(Ok(bytes)) if valid_utf8(bytes@) => next matches Cleanup::ReadRecord {
                funding_txid,
                info: i,
            } && funding_txid@ == decode_utf8(bytes@) && i == info,
            _ => next is Stopped,
        },
        // without a marker there is nothing to abort
        Cleanup::ReadVanillaMarker => match reply {
            CleanupReply::Marker(Ok(bytes)) => if valid_utf8(bytes@) {
                next matches Cleanup::AbortVanilla(txid) && txid@ == decode_utf8(bytes@)
            } else {
                next is Stopped
            },
            _ => next is RemoveMarker,
        },
        Cleanup::ReadRecord { funding_txid, info } => next == match reply {
            CleanupReply::Record(Ok(Some(record))) => match resolution(record) {
                RecordResolution::Commit => Cleanup::CommitRecord(record),
                RecordResolution::Rollback => Cleanup::RollbackRecord(record),
                RecordResolution::Keep => Cleanup::Stopped,
            },
            CleanupReply::Record(Ok(None)) => Cleanup::RollbackStock { funding_txid, info },
            _ => Cleanup::Stopped,
        },
        Cleanup::CommitRecord(_) | Cleanup::RollbackRecord(_) | Cleanup::AbortVanilla(_) => next == (
        if succeeded(reply) {
            Cleanup::RemoveMarker
        } else {
            Cleanup::Stopped
        }),
        Cleanup::RollbackStock { info, .. } => next == (if succeeded(reply) {
            release_transfers(info)
        } else {
            Cleanup::Stopped
        }),
        Cleanup::FailTransfers { info, .. } => next == (if succeeded(reply) {
            Cleanup::WriteInfo(RgbInfo { batch_transfer_idx: None, ..info })
        } else {
            Cleanup::Stopped
        }),
        Cleanup::WriteInfo(_) => next is RemoveMarker,
        Cleanup::RemoveMarker | Cleanup::Stopped => next is Stopped,
    }
}

impl Cleanup {
    /// Releases what a channel whose open failed has locked: the transfers of a colored channel, the
    /// pending transaction of a plain one.
    pub fn handle_open_chan_fail() -> (r: Self)
        ensures
            r == Cleanup::ReadInfo,
    {
        Cleanup::ReadInfo
    }

    /// Decides what follows from a reply. Whatever cannot be released is kept, with its marker.
    pub fn advance(self, reply: CleanupReply) -> (next: Self)
        requires
            cleanup_fits(self, reply),
        ensures
            cleanup_next(self, reply, next),
    {
        match self {
            Cleanup::ReadInfo => match reply {
                CleanupReply::Info(Some(info)) => Cleanup::LockOperation(info),
                _ => Cleanup::ReadVanillaMarker,
            },
            Cleanup::LockOperation(info) => Cleanup::ReadColoredMarker(info),
            Cleanup::ReadColoredMarker(info) => match reply {
                CleanupReply::Marker(Ok(bytes)) => match utf8_text(bytes) {
                    Ok(funding_txid) => Cleanup::ReadRecord { funding_txid, info },
                    Err(_) => Cleanup::Stopped,
                },
                _ => Cleanup::Stopped,
            },
            Cleanup::ReadVanillaMarker => match reply {
                CleanupReply::Marker(Ok(bytes)) => match utf8_text(bytes) {
                    Ok(funding_txid) => Cleanup::AbortVanilla(funding_txid),
                    Err(_) => Cleanup::Stopped,
                },
                _ => Cleanup::RemoveMarker,
            },
            Cleanup::ReadRecord { funding_txid, info } => match reply {
                CleanupReply::Record(Ok(Some(record))) => match resolve_record(&record) {
                    RecordResolution::Commit => Cleanup::CommitRecord(record),
                    RecordResolution::Rollback => Cleanup::RollbackRecord(record),
                    RecordResolution::Keep => Cleanup::Stopped,
                },
                CleanupReply::Record(Ok(None)) => Cleanup::RollbackStock { funding_txid, info },
                _ => Cleanup::Stopped,
            },
            Cleanup::CommitRecord(_) | Cleanup::RollbackRecord(_) | Cleanup::AbortVanilla(_) => match reply {
                CleanupReply::Wallet(Ok(_)) => Cleanup::RemoveMarker,
                _ => Cleanup::Stopped,
            },
            Cleanup::RollbackStock { info, .. } => match reply {
                CleanupReply::Wallet(Ok(_)) => match info.batch_transfer_idx {
                    Some(batch_transfer_idx) => Cleanup::FailTransfers { batch_transfer_idx, info },
                    None => Cleanup::RemoveMarker,
                },
                _ => Cleanup::Stopped,
            },
            Cleanup::FailTransfers { info, .. } => match reply {
                CleanupReply::Wallet(Ok(_)) => {
                    let mut info = info;
                    info.batch_transfer_idx = None;
                    Cleanup::WriteInfo(info)
                },
                _ => Cleanup::Stopped,
            },
            Cleanup::WriteInfo(_) => Cleanup::RemoveMarker,
            Cleanup::RemoveMarker | Cleanup::Stopped => Cleanup::Stopped,
        }
    }
}

/// The marker of a colored channel is only removed once its funding was released or carried through.
pub proof fn law_marker_outlives_what_it_marks(step: Cleanup, reply: CleanupReply, next: Cleanup)
    requires
        cleanup_fits(step, reply),
        cleanup_next(step, reply, next),
        next is RemoveMarker,
    ensures
        step is ReadVanillaMarker || step is WriteInfo || succeeded(reply),
{
}

/// A funding that the channel manager may already have broadcast is never rolled back, and one that
/// the node itself was to broadcast and had not begun to is never committed.
pub proof fn law_resolution_respects_the_broadcast(record: RgbSenderFundingRecord)
    ensures
        resolution(record) is Rollback ==> record.stage is Preparing || record.stage is StockPromoted
            || record.manual_broadcast,
        resolution(record) is Commit ==> record.stage is Broadcasting
            || record.stage is BroadcastCommitted || record.stage is Finalized
            || record.stage is DurablyCompleted,
{
}

// ---------------------------------------------------------------------------------------------
// A staged funding
// ---------------------------------------------------------------------------------------------

/// Where the abort of a staged funding stands: the effect that comes next, or how it ended.
#[derive(Debug, PartialEq, Eq)]
pub enum StagedAbort {
    /// Looks the funding up in the journal.
    ReadRecord(String),
    /// Undoes a journalled funding.
    RollbackRecord(RgbSenderFundingRecord),
    /// Undoes the stock operation of a funding that was never journalled.
    RollbackStock(String),
    /// Reads the pending RGB metadata of the temporary channel.
    ReadInfo,
    /// Fails the transfers of the funding.
    FailTransfers { batch_transfer_idx: i32, info: RgbInfo },
    /// Writes the pending metadata without its transfer.
    WriteInfo(RgbInfo),
    /// Aborts the pending plain transaction.
    AbortVanilla(String),
    /// The abort came to its end. After a failure a replay is not safe.
    Finished(Result<(), RgbLibError>),
}

pub open spec fn abort_failed(step: StagedAbort, details: Seq<char>) -> bool {
    step matches StagedAbort::Finished(Err(e)) && is_internal(e, details)
}

/// How the abort of a staged funding starts, from what its unsigned transaction holds.
pub open spec fn abort_starts(
    parsed: Result<crate::psbt::PsbtSummaryView, Seq<char>>,
    temporary_channel_id: Seq<char>,
    is_colored: bool,
    r: StagedAbort,
) -> bool {
    match parsed {
        Ok(psbt) => if is_colored {
            r matches StagedAbort::ReadRecord(txid) && txid@ == psbt.txid
        } else {
            r matches StagedAbort::AbortVanilla(txid) && txid@ == psbt.txid
        },
        Err(e) => if is_colored {
            abort_failed(r, "cannot parse staged RGB funding PSBT: "@ + e)
        } else {
            abort_failed(
                r,
                "cannot parse staged funding PSBT for channel "@ + temporary_channel_id + ": "@ + e,
            )
        },
    }
}

/// Whether a reply answers the effect of a step.
pub open spec fn abort_fits(step: StagedAbort, reply: CleanupReply) -> bool {
    match step {
        StagedAbort::ReadRecord(_) => reply is Record,
        StagedAbort::ReadInfo => reply is Info,
        StagedAbort::WriteInfo(_) => reply is Done,
        StagedAbort::RollbackRecord(_)
        | StagedAbort::RollbackStock(_)
        | StagedAbort::FailTransfers { .. }
        | StagedAbort::AbortVanilla(_) => reply is Wallet || reply is WorkerFailed,
        StagedAbort::Finished(_) => false,
    }
}

/// After work for the wallet: on, the wallet's error, or that of the worker.
pub open spec fn after_work(
    reply: CleanupReply,
    context: Seq<char>,
    next: StagedAbort,
    on: StagedAbort,
) -> bool {
    match reply {
        CleanupReply::Wallet(Ok(_)) => next == on,
        CleanupReply::Wallet(Err(e)) => next == StagedAbort::Finished(Err::<(), RgbLibError>(e)),
        CleanupReply::WorkerFailed(e) => abort_failed(next, context + ": "@ + e@),
        _ => false,
    }
}

/// What follows from a reply.
pub open spec fn abort_next(step: StagedAbort, reply: CleanupReply, next: StagedAbort) -> bool {
    let finished = StagedAbort::Finished(Ok::<(), RgbLibError>(()));
    match step {
        StagedAbort::ReadRecord(txid) => next == match reply {
            CleanupReply::Record(Ok(Some(record))) => StagedAbort::RollbackRecord(record),
            CleanupReply::Record(Ok(None)) => StagedAbort::RollbackStock(txid),
            CleanupReply::Record(Err(e)) => StagedAbort::Finished(Err::<(), RgbLibError>(e)),
            _ => finished,
        },
        StagedAbort::RollbackRecord(_) => after_work(
            reply,
            "RGB sender rollback worker failed"@,
            next,
            finished,
        ),
        StagedAbort::RollbackStock(_) => after_work(
            reply,
            "RGB stock rollback worker failed"@,
            next,
            StagedAbort::ReadInfo,
        ),
        StagedAbort::ReadInfo => next == match reply {
            CleanupReply::Info(Some(info)) => match info.batch_transfer_idx {
                Some(batch_transfer_idx) => StagedAbort::FailTransfers { batch_transfer_idx, info },
                None => finished,
            },
            _ => finished,
        },
        StagedAbort::FailTransfers { info, .. } => after_work(
            reply,
            "RGB transfer cleanup worker failed"@,
            next,
            StagedAbort::WriteInfo(RgbInfo { batch_transfer_idx: None, ..info }),
        ),
        StagedAbort::WriteInfo(_) => next == finished,
        StagedAbort::AbortVanilla(_) => after_work(
            reply,
            "vanilla funding cleanup worker failed"@,
            next,
            finished,
        ),
        StagedAbort::Finished(_) => false,
    }
}

fn worked(reply: CleanupReply, context: &str, on: StagedAbort) -> (next: StagedAbort)
    requires
        reply is Wallet || reply is WorkerFailed,
    ensures
        after_work(reply, context@, next, on),
{
    match reply {
        CleanupReply::Wallet(Ok(_)) => on,
        CleanupReply::Wallet(Err(e)) => StagedAbort::Finished(Err(e)),
        CleanupReply::WorkerFailed(e) => StagedAbort::Finished(
            Err(rgb_sender_funding_error(context, e.as_str())),
        ),
        _ => on,
    }
}

impl StagedAbort {
    /// Undoes what the preparation of a funding staged, so that the event can be replayed.
    pub fn abort_staged_standard_funding(
        temporary_channel_id: &str,
        unsigned_psbt: &str,
        is_colored: bool,
    ) -> (r: Self)
        ensures
            abort_starts(psbt_summary(unsigned_psbt@), temporary_channel_id@, is_colored, r),
    {
        match parse_psbt(unsigned_psbt) {
            Ok(psbt) => if is_colored {
                StagedAbort::ReadRecord(psbt.txid)
            } else {
                StagedAbort::AbortVanilla(psbt.txid)
            },
            Err(e) => if is_colored {
                StagedAbort::Finished(
                    Err(internal(join2("cannot parse staged RGB funding PSBT: ", e.as_str()))),
                )
            } else {
                StagedAbort::Finished(
                    Err(
                        internal(
                            join4(
                                "cannot parse staged funding PSBT for channel ",
                                temporary_channel_id,
                                ": ",
                                e.as_str(),
                            ),
                        ),
                    ),
                )
            },
        }
    }

    /// Decides what follows from a reply.
    pub fn advance(self, reply: CleanupReply) -> (next: Self)
        requires
            abort_fits(self, reply),
        ensures
            abort_next(self, reply, next),
    {
        match self {
            StagedAbort::ReadRecord(funding_txid) => match reply {
                CleanupReply::Record(Ok(Some(record))) => StagedAbort::RollbackRecord(record),
                CleanupReply::Record(Ok(None)) => StagedAbort::RollbackStock(funding_txid),
                CleanupReply::Record(Err(e)) => StagedAbort::Finished(Err(e)),
                _ => StagedAbort::Finished(Ok(())),
            },
            StagedAbort::RollbackRecord(_) => worked(
                reply,
                "RGB sender rollback worker failed",
                StagedAbort::Finished(Ok(())),
            ),
            StagedAbort::RollbackStock(_) => worked(
                reply,
                "RGB stock rollback worker failed",
                StagedAbort::ReadInfo,
            ),
            StagedAbort::ReadInfo => match reply {
                CleanupReply::Info(Some(info)) => match info.batch_transfer_idx {
                    Some(batch_transfer_idx) => StagedAbort::FailTransfers {
                        batch_transfer_idx,
                        info,
                    },
                    None => StagedAbort::Finished(Ok(())),
                },
                _ => StagedAbort::Finished(Ok(())),
            },
            StagedAbort::FailTransfers { info, .. } => {
                let mut info = info;
                info.batch_transfer_idx = None;
                worked(reply, "RGB transfer cleanup worker failed", StagedAbort::WriteInfo(info))
            },
            StagedAbort::WriteInfo(_) => StagedAbort::Finished(Ok(())),
            StagedAbort::AbortVanilla(_) => worked(
                reply,
                "vanilla funding cleanup worker failed",
                StagedAbort::Finished(Ok(())),
            ),
            StagedAbort::Finished(outcome) => StagedAbort::Finished(outcome),
        }
    }
}

/// A failure of the wallet or of a worker always ends the abort with an error: nothing that was not
/// released is reported as released.
pub proof fn law_failed_cleanup_is_terminal(step: StagedAbort, reply: CleanupReply, next: StagedAbort)
    requires
        abort_fits(step, reply),
        abort_next(step, reply, next),
        reply is WorkerFailed || (reply matches CleanupReply::Wallet(Err(_))),
    ensures
        next matches StagedAbort::Finished(Err(_)),
{
}

/// A channel is given up after every error but one of the network, and then with that error.
pub proof fn law_only_network_errors_are_retried(e: RgbLibError, r: PrepareFailure)
    requires
        prepare_failed(e, r),
    ensures
        e is Indexer || e is InvalidIndexer || e is Network ==> r is Replay,
        !(e is Indexer || e is InvalidIndexer || e is Network) ==> r == PrepareFailure::Close(e),
{
}

/// A journalled funding is carried through where its broadcast may have begun, undone where neither the
/// node nor the channel manager can have begun it, and kept where nobody can tell.
pub proof fn law_failed_opens_follow_the_journal(record: RgbSenderFundingRecord)
    ensures
        record.stage is Broadcasting || record.stage is BroadcastCommitted
            || record.stage is Finalized || record.stage is DurablyCompleted ==> resolution(
            record,
        ) is Commit,
        record.stage is Preparing || record.stage is StockPromoted ==> resolution(
            record,
        ) is Rollback,
        record.stage is HandoffReady || record.stage is HandedToLdk
            || record.stage is BroadcastSafeObserved ==> (record.manual_broadcast
            ==> resolution(record) is Rollback) && (!record.manual_broadcast ==> resolution(
            record,
        ) is Keep),
        record.stage is RollingBack || record.stage is RetryRequired ==> resolution(record) is Keep,
{
}

/// A run of a cleanup: steps, each of which follows from the one before by its reply.
pub open spec fn is_cleanup_run(steps: Seq<Cleanup>, replies: Seq<CleanupReply>) -> bool {
    &&& steps.len() == replies.len() + 1
    &&& forall|i: int|
        #![trigger replies[i]]
        0 <= i < replies.len() ==> cleanup_fits(steps[i], replies[i]) && cleanup_next(
            steps[i],
            replies[i],
            steps[i + 1],
        )
}

spec fn went_well(steps: Seq<Cleanup>, replies: Seq<CleanupReply>, i: int) -> bool {
    replies[i] matches CleanupReply::Wallet(Ok(_))
}

spec fn released(steps: Seq<Cleanup>, replies: Seq<CleanupReply>, n: int, info: RgbInfo) -> bool {
    ||| exists|i: int|
        0 <= i < n && ((#[trigger] steps[i]) is CommitRecord || steps[i] is RollbackRecord)
            && went_well(steps, replies, i)
    ||| (exists|i: int|
        0 <= i < n && (#[trigger] steps[i]) is RollbackStock && went_well(steps, replies, i)) && (
    info.batch_transfer_idx is Some ==> exists|i: int|
        0 <= i < n && (#[trigger] steps[i]) is FailTransfers
            && steps[i]->FailTransfers_batch_transfer_idx == info.batch_transfer_idx->0 && went_well(
            steps,
            replies,
            i,
        ))
}

spec fn stock_undone(steps: Seq<Cleanup>, replies: Seq<CleanupReply>, n: int) -> bool {
    exists|i: int|
        0 <= i < n && (#[trigger] steps[i]) is RollbackStock && went_well(steps, replies, i)
}

spec fn cleanup_progress(steps: Seq<Cleanup>, replies: Seq<CleanupReply>, n: int) -> bool {
    let info = replies[0]->Info_0->0;
    let colored = replies[0] matches CleanupReply::Info(Some(_));
    match steps[n] {
        Cleanup::ReadInfo => n == 0,
        Cleanup::LockOperation(i) => n > 0 && colored && i == info,
        Cleanup::ReadColoredMarker(i) => n > 0 && colored && i == info,
        Cleanup::ReadRecord { info: i, .. } => n > 0 && colored && i == info,
        Cleanup::CommitRecord(_) | Cleanup::RollbackRecord(_) => n > 0 && colored,
        Cleanup::RollbackStock { info: i, .. } => n > 0 && colored && i == info,
        Cleanup::FailTransfers { info: i, batch_transfer_idx } => n > 0 && colored && i == info
            && info.batch_transfer_idx == Some(batch_transfer_idx) && stock_undone(steps, replies, n),
        Cleanup::WriteInfo(i) => n > 0 && colored && released(steps, replies, n, info)
            && i.batch_transfer_idx is None && i.contract_id == info.contract_id
            && i.local_rgb_amount == info.local_rgb_amount && i.remote_rgb_amount
            == info.remote_rgb_amount && i.schema == info.schema,
        Cleanup::ReadVanillaMarker => n > 0 && !colored,
        Cleanup::AbortVanilla(_) => n > 0 && !colored,
        Cleanup::RemoveMarker => n > 0 && (colored ==> released(steps, replies, n, info)),
        Cleanup::Stopped => n > 0,
    }
}

proof fn lemma_cleanup_progress(steps: Seq<Cleanup>, replies: Seq<CleanupReply>, n: int)
    requires
        is_cleanup_run(steps, replies),
        steps[0] is ReadInfo,
        0 <= n < steps.len(),
    ensures
        cleanup_progress(steps, replies, n),
    decreases n,
{
    if n > 0 {
        let m = n - 1;
        lemma_cleanup_progress(steps, replies, m);
        let reply = replies[m];
        assert(cleanup_fits(steps[m], reply) && cleanup_next(steps[m], reply, steps[m + 1]));
        match steps[m] {
            Cleanup::FailTransfers { .. } => {
                if succeeded(reply) {
                    assert(went_well(steps, replies, m));
                    let i = choose|i: int|
                        0 <= i < m && (#[trigger] steps[i]) is RollbackStock && went_well(
                            steps,
                            replies,
                            i,
                        );
                    assert(steps[i] is RollbackStock);
                    assert(steps[m] is FailTransfers);
                }
            },
            Cleanup::RollbackStock { .. } => {
                if succeeded(reply) {
                    assert(went_well(steps, replies, m));
                    assert(steps[m] is RollbackStock);
                }
            },
            Cleanup::CommitRecord(_) | Cleanup::RollbackRecord(_) => {
                if succeeded(reply) {
                    assert(went_well(steps, replies, m));
                }
            },
            _ => {},
        }
    }
}

/// The marker of a colored channel is only removed after everything that its open had locked is free:
/// its journalled funding was carried through or undone, or else the stock operation was undone and the
/// transfer that was recorded, if any, was failed. What is written of the channel then has no transfer
/// any more and is otherwise unchanged.
pub proof fn law_nothing_stays_locked_without_a_marker(
    steps: Seq<Cleanup>,
    replies: Seq<CleanupReply>,
    n: int,
    info: RgbInfo,
)
    requires
        is_cleanup_run(steps, replies),
        steps[0] is ReadInfo,
        0 < n < steps.len(),
        replies[0] == CleanupReply::Info(Some(info)),
    ensures
        steps[n] is RemoveMarker ==> {
            ||| exists|i: int|
                0 <= i < n && ((#[trigger] steps[i]) is CommitRecord || steps[i] is RollbackRecord)
                    && (replies[i] matches CleanupReply::Wallet(Ok(_)))
            ||| (exists|i: int|
                0 <= i < n && (#[trigger] steps[i]) is RollbackStock && (
                replies[i] matches CleanupReply::Wallet(Ok(_)))) && (
            info.batch_transfer_idx is Some ==> exists|i: int|
                0 <= i < n && (#[trigger] steps[i]) is FailTransfers
                    && steps[i]->FailTransfers_batch_transfer_idx == info.batch_transfer_idx->0
                    && (replies[i] matches CleanupReply::Wallet(Ok(_))))
        },
        steps[n] matches Cleanup::WriteInfo(i) ==> i == (RgbInfo {
            batch_transfer_idx: None,
            ..info
        }) || i.batch_transfer_idx is None && i.local_rgb_amount == info.local_rgb_amount,
        !(steps[n] is AbortVanilla),
{
    lemma_cleanup_progress(steps, replies, n);
    if steps[n] is RemoveMarker {
        assert(released(steps, replies, n, info));
        if exists|i: int|
            0 <= i < n && ((#[trigger] steps[i]) is CommitRecord || steps[i] is RollbackRecord)
                && went_well(steps, replies, i) {
            let i = choose|i: int|
                0 <= i < n && ((#[trigger] steps[i]) is CommitRecord || steps[i] is RollbackRecord)
                    && went_well(steps, replies, i);
            assert(steps[i] is CommitRecord || steps[i] is RollbackRecord);
        } else {
            let i = choose|i: int|
                0 <= i < n && (#[trigger] steps[i]) is RollbackStock && went_well(steps, replies, i);
            assert(steps[i] is RollbackStock);
        }
    }
}

/// Whatever could not be released stops the cleanup, so that its marker stays; what could be goes on.
pub proof fn law_failed_releases_keep_the_marker(step: Cleanup, reply: CleanupReply, next: Cleanup)
    requires
        cleanup_fits(step, reply),
        cleanup_next(step, reply, next),
    ensures
        reply is WorkerFailed || (reply matches CleanupReply::Wallet(Err(_))) ==> next is Stopped,
        reply matches CleanupReply::Wallet(Ok(_)) ==> !(next is Stopped),
        step is ReadRecord && (reply matches CleanupReply::Record(Err(_))) ==> next is Stopped,
        step is ReadRecord && (reply matches CleanupReply::Record(Ok(None))) ==> next is RollbackStock,
        step is ReadVanillaMarker && (reply matches CleanupReply::Marker(Err(_))) ==> next is RemoveMarker,
        step is ReadColoredMarker && (reply matches CleanupReply::Marker(Err(_))) ==> next is Stopped,
        step is ReadVanillaMarker && (reply matches CleanupReply::Marker(Ok(bytes)) && valid_utf8(
            bytes@,
        )) ==> next is AbortVanilla && next->AbortVanilla_0@ == decode_utf8(
            reply->Marker_0->Ok_0@,
        ),
        step is ReadColoredMarker && (reply matches CleanupReply::Marker(Ok(bytes)) && valid_utf8(
            bytes@,
        )) ==> next is ReadRecord && next->ReadRecord_funding_txid@ == decode_utf8(
            reply->Marker_0->Ok_0@,
        ),
        step is RemoveMarker ==> next is Stopped,
{
}

/// An abort of a colored funding ends well only after the journalled funding was undone, or the stock
/// operation was and, where a transfer is recorded, that transfer was failed and taken off the record;
/// that of a plain one only after its transaction was aborted.
pub proof fn law_staged_fundings_are_undone(
    step: StagedAbort,
    reply: CleanupReply,
    next: StagedAbort,
)
    requires
        abort_fits(step, reply),
        abort_next(step, reply, next),
    ensures
        next matches StagedAbort::Finished(Ok(_)) ==> {
            ||| (step is RollbackRecord || step is AbortVanilla) && (
            reply matches CleanupReply::Wallet(Ok(_)))
            ||| step is WriteInfo
            ||| step is ReadInfo && (reply matches CleanupReply::Info(info) && (info is None
                || info->0.batch_transfer_idx is None))
        },
        next is WriteInfo ==> step is FailTransfers && (reply matches CleanupReply::Wallet(Ok(_)))
            && next->WriteInfo_0.batch_transfer_idx is None && next->WriteInfo_0.contract_id
            == step->FailTransfers_info.contract_id && next->WriteInfo_0.local_rgb_amount
            == step->FailTransfers_info.local_rgb_amount && next->WriteInfo_0.remote_rgb_amount
            == step->FailTransfers_info.remote_rgb_amount,
        next is ReadInfo ==> step is RollbackStock && (reply matches CleanupReply::Wallet(Ok(_))),
        next is FailTransfers ==> step is ReadInfo && (reply matches CleanupReply::Info(Some(info))
            && info.batch_transfer_idx == Some(next->FailTransfers_batch_transfer_idx)),
        step is ReadInfo && (reply matches CleanupReply::Info(Some(info))
            && info.batch_transfer_idx is Some) ==> next is FailTransfers,
        step is ReadRecord && (reply matches CleanupReply::Record(Ok(Some(_)))) ==> next is RollbackRecord
            && reply->Record_0->Ok_0 == Some(next->RollbackRecord_0),
        step is ReadRecord && reply == CleanupReply::Record(
            Ok::<Option<RgbSenderFundingRecord>, RgbLibError>(None),
        ) ==> next == StagedAbort::RollbackStock(step->ReadRecord_0),
{
}

/// The abort of a colored funding looks into the journal, that of a plain one aborts the transaction:
/// both the one that the unsigned transaction names; one that cannot be parsed touches nothing.
pub proof fn law_aborts_start_from_the_transaction(
    parsed: Result<crate::psbt::PsbtSummaryView, Seq<char>>,
    temporary_channel_id: Seq<char>,
    is_colored: bool,
    r: StagedAbort,
)
    requires
        abort_starts(parsed, temporary_channel_id, is_colored, r),
    ensures
        parsed matches Ok(psbt) ==> (is_colored ==> r is ReadRecord && r->ReadRecord_0@ == psbt.txid)
            && (!is_colored ==> r is AbortVanilla && r->AbortVanilla_0@ == psbt.txid),
        parsed is Err ==> (r matches StagedAbort::Finished(Err(_))),
{
}

/// A cleanup goes on as long as what it reads is there: a colored channel is looked into under the lock,
/// any other by its own marker, and one without a marker is done with.
pub proof fn law_cleanups_look_into_every_channel(
    step: Cleanup,
    reply: CleanupReply,
    next: Cleanup,
)
    requires
        cleanup_next(step, reply, next),
    ensures
        step is ReadInfo ==> match reply {
            CleanupReply::Info(Some(info)) => next == Cleanup::LockOperation(info),
            _ => next == Cleanup::ReadVanillaMarker,
        },
        step matches Cleanup::LockOperation(info) ==> next == Cleanup::ReadColoredMarker(info),
        step is ReadColoredMarker ==> (next is ReadRecord <==> (reply matches CleanupReply::Marker(
            Ok(bytes),
        ) && valid_utf8(bytes@))),
        step is ReadVanillaMarker ==> (next is AbortVanilla <==> (reply matches CleanupReply::Marker(
            Ok(bytes),
        ) && valid_utf8(bytes@))),
        step is ReadVanillaMarker && !(reply matches CleanupReply::Marker(Ok(_)))
            ==> next is RemoveMarker,
{
}

/// The abort of a staged funding starts with its own transaction: a colored one by its record, any other
/// in the wallet; one that cannot be read ends at once, and says of which kind it is.
pub proof fn law_aborts_start_with_the_staged_transaction(
    parsed: Result<crate::psbt::PsbtSummaryView, Seq<char>>,
    temporary_channel_id: Seq<char>,
    is_colored: bool,
    r: StagedAbort,
)
    requires
        abort_starts(parsed, temporary_channel_id, is_colored, r),
    ensures
        parsed is Ok && is_colored ==> (r matches StagedAbort::ReadRecord(txid) && txid@
            == parsed->Ok_0.txid),
        parsed is Ok && !is_colored ==> (r matches StagedAbort::AbortVanilla(txid) && txid@
            == parsed->Ok_0.txid),
        parsed is Err ==> (r matches StagedAbort::Finished(Err(_))),
        parsed is Err && is_colored ==> is_internal(
            r->Finished_0->Err_0,
            "cannot parse staged RGB funding PSBT: "@ + parsed->Err_0,
        ),
        parsed is Err && !is_colored ==> is_internal(
            r->Finished_0->Err_0,
            "cannot parse staged funding PSBT for channel "@ + temporary_channel_id + ": "@
                + parsed->Err_0,
        ),
{
}

} // verus!
