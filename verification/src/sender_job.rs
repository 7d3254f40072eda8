//! Carrying an interrupted sender funding on, one outside effect at a time.
//!
//! A [`SenderJob`] says which effect comes next; the caller performs it against the wallet and the
//! store and hands the reply back. The job decides from the reply what follows.

use vstd::prelude::*;
use vstd::pervasive::unreached;
use vstd::string::*;

use crate::error::{internal, is_internal, rgb_sender_funding_error, RgbLibError};
use crate::kv_store::StoreError;
use crate::recovery::{rgb_funding_recovery_view, sender_report, RgbFundingRecoveryState};
use crate::sender_funding::{
    is_final_stage, is_handoff_stage, rgb_sender_recovery_action, sender_recovery_action, RgbInfo,
    RgbSenderConsignmentDelivery, RgbSenderFundingRecord, RgbSenderFundingStage,
    RgbSenderRecoveryAction,
};
use crate::sender_recovery::{
    canonical, check_signed_psbt, common_status, inconsistent_transfers, is_out, optional_status,
    optional_status_name, overflows, persist_canonical_rgb_channel_info, sender_stage_name,
    sender_transfer_status, signed_psbt_checked, status_name, total, total_amount,
    transfer_is_out, uniform, TransferStatus,
};
use crate::text::{copy, join3, join5, same, text};

verus! {

/// Where a job stands: the effect that comes next.
#[derive(Clone, Copy, Debug, PartialEq, Eq, Structural)]
pub enum SenderStep {
    /// Rollback: the intent is journalled before anything is undone.
    RollbackWriteIntent,
    RollbackReadStock,
    RollbackStock,
    RollbackReadTransfers,
    RollbackFailTransfers,
    RollbackBackup,
    /// Removes one of the abandoned metadata entries: of the temporary channel (settled, then
    /// pending), then of the final one.
    RollbackRemoveInfo(u8),
    RollbackRemoveMapping,
    RollbackRemovePsbt,
    RollbackWriteRetry,
    RollbackRemoveRecord,
    /// Resuming: the signed transaction is checked before the broadcast intent is journalled.
    ResumeReadPsbt,
    ResumeWriteIntent,
    /// Committing the broadcast.
    CommitReadTransfers,
    CommitReadPsbt,
    CommitSend,
    CommitRecheckTransfers,
    CommitWriteStage,
    /// Finalizing.
    FinalizeReadTransfers,
    FinalizeFirstBackup,
    FinalizeReadStock,
    FinalizeStock,
    FinalizeSecondBackup,
    FinalizeRemoveMapping,
    FinalizeRemovePsbt,
    FinalizeWriteStage,
    /// The finalized record is read back before it is completed.
    ReadBack,
    /// Completing.
    CompleteReadTransfers,
    CompleteReadStock,
    CompleteReadLegacyInfo,
    CompleteBackup,
    CompleteReadInfo,
    CompleteWriteInfo,
    CompleteRemoveMarker,
    CompleteWriteStage,
}

/// A job in progress.
#[derive(Debug)]
pub struct SenderJob {
    /// The record, at the stage that was last journalled or is about to be.
    pub record: RgbSenderFundingRecord,
    /// The channel metadata that completion is to keep.
    pub info: Option<RgbInfo>,
    /// The checked signed transaction.
    pub psbt: Option<String>,
    pub step: SenderStep,
    /// Whether the finalized record is to be completed too.
    pub then_complete: bool,
}

/// What the caller is to do.
#[derive(Debug)]
pub enum SenderEffect {
    /// Write the record to the journal, under its transaction ID.
    WriteRecord(RgbSenderFundingRecord),
    /// Read the journal record of a transaction.
    ReadRecord(String),
    /// Remove the journal record of a transaction.
    RemoveRecord(String),
    /// Ask the wallet which stock operation is pending.
    ReadStock,
    RollbackStock(String),
    FinalizeStock(String),
    /// List the statuses of the transfers of a transaction.
    ListTransfers(String),
    /// Fail the transfers of a batch.
    FailTransfers(i32),
    /// Back the wallet up to the remote store, and have it acknowledged.
    Backup,
    RemoveChannelInfo { channel_id: String, pending: bool },
    ReadChannelInfo(String),
    /// Write channel metadata, and have it acknowledged by the remote store.
    WriteChannelInfo(String, RgbInfo),
    /// Remove the pending-funding entry of a channel.
    RemovePendingFunding(String),
    /// Remove the stored signed transaction.
    RemovePsbt(String),
    /// Read the stored signed transaction.
    ReadPsbt(String),
    /// Finish the transfer of a transaction with its signed form.
    SendEnd { funding_txid: String, signed_psbt: String, delivery: RgbSenderConsignmentDelivery },
}

/// What the caller got back.
#[derive(Debug)]
pub enum SenderReply {
    Done,
    StoreFailed(StoreError),
    WalletFailed(RgbLibError),
    /// A journal record that cannot be decoded, and why.
    Undecodable(String),
    Record(RgbSenderFundingRecord),
    /// The pending stock operation, if any.
    Stock(Option<String>),
    Transfers(Vec<TransferStatus>),
    /// Whether any transfer was failed.
    Flag(bool),
    Bytes(Vec<u8>),
    Info(RgbInfo),
    /// The transaction that was sent.
    Txid(String),
}

/// What follows from a reply.
#[derive(Debug)]
pub enum SenderProgress {
    Continue(SenderJob),
    Finished(Result<(), RgbLibError>),
}

// ---------------------------------------------------------------------------------------------
// Model
// ---------------------------------------------------------------------------------------------

/// The effect of a step.
pub open spec fn effect_of(job: SenderJob) -> SenderEffect {
    let r = job.record;
    let txid = r.funding_txid;
    match job.step {
        SenderStep::RollbackWriteIntent
        | SenderStep::RollbackWriteRetry
        | SenderStep::ResumeWriteIntent
        | SenderStep::CommitWriteStage
        | SenderStep::FinalizeWriteStage
        | SenderStep::CompleteWriteStage => SenderEffect::WriteRecord(r),
        SenderStep::RollbackReadStock
        | SenderStep::FinalizeReadStock
        | SenderStep::CompleteReadStock => SenderEffect::ReadStock,
        SenderStep::RollbackStock => SenderEffect::RollbackStock(txid),
        SenderStep::FinalizeStock => SenderEffect::FinalizeStock(txid),
        SenderStep::RollbackReadTransfers
        | SenderStep::CommitReadTransfers
        | SenderStep::CommitRecheckTransfers
        | SenderStep::FinalizeReadTransfers
        | SenderStep::CompleteReadTransfers => SenderEffect::ListTransfers(txid),
        SenderStep::RollbackFailTransfers => SenderEffect::FailTransfers(r.batch_transfer_idx),
        SenderStep::RollbackBackup
        | SenderStep::FinalizeFirstBackup
        | SenderStep::FinalizeSecondBackup
        | SenderStep::CompleteBackup => SenderEffect::Backup,
        SenderStep::RollbackRemoveInfo(k) => SenderEffect::RemoveChannelInfo {
            channel_id: if k < 2 {
                r.temporary_channel_id
            } else {
                r.final_channel_id->0
            },
            pending: k % 2 == 1,
        },
        SenderStep::RollbackRemoveMapping
        | SenderStep::FinalizeRemoveMapping
        | SenderStep::CompleteRemoveMarker => SenderEffect::RemovePendingFunding(
            r.final_channel_id->0,
        ),
        SenderStep::RollbackRemovePsbt | SenderStep::FinalizeRemovePsbt => SenderEffect::RemovePsbt(
            txid,
        ),
        SenderStep::RollbackRemoveRecord => SenderEffect::RemoveRecord(txid),
        SenderStep::ResumeReadPsbt | SenderStep::CommitReadPsbt => SenderEffect::ReadPsbt(txid),
        SenderStep::CommitSend => SenderEffect::SendEnd {
            funding_txid: txid,
            signed_psbt: job.psbt->0,
            delivery: r.consignment_delivery,
        },
        SenderStep::ReadBack => SenderEffect::ReadRecord(txid),
        SenderStep::CompleteReadLegacyInfo
        | SenderStep::CompleteReadInfo => SenderEffect::ReadChannelInfo(r.final_channel_id->0),
        SenderStep::CompleteWriteInfo => SenderEffect::WriteChannelInfo(
            r.final_channel_id->0,
            job.info->0,
        ),
    }
}

impl SenderJob {
    /// The values that the job's step works on are there.
    pub open spec fn wf(self) -> bool {
        match self.step {
            SenderStep::RollbackRemoveInfo(k) => k < 4 && (k >= 2 ==> self.record.final_channel_id is Some),
            SenderStep::RollbackRemoveMapping
            | SenderStep::FinalizeRemoveMapping
            | SenderStep::CompleteReadTransfers
            | SenderStep::CompleteReadStock
            | SenderStep::CompleteReadLegacyInfo => self.record.final_channel_id is Some,
            SenderStep::CommitSend => self.psbt is Some,
            SenderStep::CompleteBackup
            | SenderStep::CompleteReadInfo
            | SenderStep::CompleteWriteInfo
            | SenderStep::CompleteRemoveMarker
            | SenderStep::CompleteWriteStage => self.record.final_channel_id is Some
                && self.info is Some,
            _ => true,
        }
    }

    pub open spec fn to(self, step: SenderStep) -> Self {
        SenderJob { step, ..self }
    }
}

/// Whether a reply answers the effect of a step.
pub open spec fn fits(step: SenderStep, reply: SenderReply) -> bool {
    match step {
        SenderStep::RollbackWriteIntent
        | SenderStep::RollbackWriteRetry
        | SenderStep::ResumeWriteIntent
        | SenderStep::CommitWriteStage
        | SenderStep::FinalizeWriteStage
        | SenderStep::CompleteWriteStage
        | SenderStep::RollbackRemoveInfo(_)
        | SenderStep::RollbackRemoveMapping
        | SenderStep::FinalizeRemoveMapping
        | SenderStep::CompleteRemoveMarker
        | SenderStep::RollbackRemovePsbt
        | SenderStep::FinalizeRemovePsbt
        | SenderStep::RollbackRemoveRecord
        | SenderStep::CompleteWriteInfo => reply is Done || reply is StoreFailed,
        SenderStep::RollbackReadStock
        | SenderStep::FinalizeReadStock
        | SenderStep::CompleteReadStock => reply is Stock || reply is WalletFailed,
        SenderStep::RollbackStock
        | SenderStep::FinalizeStock
        | SenderStep::RollbackBackup
        | SenderStep::FinalizeFirstBackup
        | SenderStep::FinalizeSecondBackup
        | SenderStep::CompleteBackup => reply is Done || reply is WalletFailed,
        SenderStep::RollbackReadTransfers
        | SenderStep::CommitReadTransfers
        | SenderStep::CommitRecheckTransfers
        | SenderStep::FinalizeReadTransfers
        | SenderStep::CompleteReadTransfers => reply is Transfers || reply is WalletFailed,
        SenderStep::RollbackFailTransfers => reply is Flag || reply is WalletFailed,
        SenderStep::ResumeReadPsbt | SenderStep::CommitReadPsbt => reply is Bytes
            || reply is StoreFailed,
        SenderStep::CommitSend => reply is Txid || reply is WalletFailed,
        SenderStep::ReadBack => reply is Record || reply is StoreFailed || reply is Undecodable,
        SenderStep::CompleteReadLegacyInfo | SenderStep::CompleteReadInfo => reply is Info
            || reply is StoreFailed,
    }
}

pub open spec fn goes(out: SenderProgress, job: SenderJob) -> bool {
    out == SenderProgress::Continue(job)
}

pub open spec fn fails(out: SenderProgress, details: Seq<char>) -> bool {
    out matches SenderProgress::Finished(Err(e)) && is_internal(e, details)
}

pub open spec fn ends(out: SenderProgress) -> bool {
    out == SenderProgress::Finished(Ok::<(), RgbLibError>(()))
}

/// The record is about to be journalled at a stage, if it may be.
pub open spec fn writes(
    out: SenderProgress,
    job: SenderJob,
    stage: RgbSenderFundingStage,
    step: SenderStep,
) -> bool {
    let next = SenderJob { record: job.record.at(stage), step, ..job };
    if next.record.valid() {
        goes(out, next)
    } else {
        fails(out, next.record.rejection())
    }
}

/// After a journal write: on, or failed.
pub open spec fn after_write(reply: SenderReply, out: SenderProgress, on: bool) -> bool {
    match reply {
        SenderReply::StoreFailed(e) => fails(
            out,
            "cannot persist sender funding journal"@ + ": "@ + e.text@,
        ),
        _ => on,
    }
}

/// After a removal: what was not there counts as removed.
pub open spec fn after_removal(
    reply: SenderReply,
    out: SenderProgress,
    context: Seq<char>,
    on: bool,
) -> bool {
    match reply {
        SenderReply::StoreFailed(e) => if e.not_found {
            on
        } else {
            fails(out, context + ": "@ + e.text@)
        },
        _ => on,
    }
}

/// After a wallet call: on, or failed with the wallet's own error.
pub open spec fn after_wallet(reply: SenderReply, out: SenderProgress, on: bool) -> bool {
    match reply {
        SenderReply::WalletFailed(e) => out == SenderProgress::Finished(Err::<(), RgbLibError>(e)),
        _ => on,
    }
}

/// How many metadata entries a rollback removes.
pub open spec fn abandoned_entries(record: RgbSenderFundingRecord) -> int {
    if record.final_channel_id is Some {
        4
    } else {
        2
    }
}

/// The removal of the pending-funding entry, where the channel is known, else that of the signed
/// transaction.
pub open spec fn removal_step(
    record: RgbSenderFundingRecord,
    mapping: SenderStep,
    psbt: SenderStep,
) -> SenderStep {
    if record.final_channel_id is Some {
        mapping
    } else {
        psbt
    }
}

/// A transfer list is looked at: on with its common status, or failed.
pub open spec fn with_status(
    job: SenderJob,
    reply: SenderReply,
    out: SenderProgress,
    on: spec_fn(Option<TransferStatus>) -> bool,
) -> bool {
    match reply {
        SenderReply::Transfers(v) => if uniform(v@) {
            on(common_status(v@))
        } else {
            fails(out, inconsistent_transfers(job.record.funding_txid@))
        },
        _ => after_wallet(reply, out, true),
    }
}

/// The start of a completion.
pub open spec fn completion_starts(record: RgbSenderFundingRecord, out: SenderProgress) -> bool {
    let txid = record.funding_txid@;
    if record.stage == RgbSenderFundingStage::DurablyCompleted {
        ends(out)
    } else if record.stage != RgbSenderFundingStage::Finalized {
        fails(
            out,
            "sender funding '"@ + txid + "' cannot complete from stage "@ + sender_stage_name(
                record.stage,
            ),
        )
    } else if record.final_channel_id is None {
        fails(out, "finalized sender funding '"@ + txid + "' is missing its channel ID"@)
    } else {
        goes(
            out,
            SenderJob {
                record,
                info: None,
                psbt: None,
                step: SenderStep::CompleteReadTransfers,
                then_complete: false,
            },
        )
    }
}

/// The start of a commit: nothing is left to do for a record at a final stage, but to complete it.
pub open spec fn commit_starts(job: SenderJob, out: SenderProgress) -> bool {
    if is_final_stage(job.record.stage) {
        finished(job, out)
    } else {
        goes(out, job.to(SenderStep::CommitReadTransfers))
    }
}

/// The record is finalized: it is read back and completed where that was asked for.
pub open spec fn finished(job: SenderJob, out: SenderProgress) -> bool {
    if job.then_complete {
        goes(out, job.to(SenderStep::ReadBack))
    } else {
        ends(out)
    }
}

/// A record that was read from the journal is trusted only if it is valid and stands under its own
/// transaction ID.
pub open spec fn record_read(
    key: Seq<char>,
    record: RgbSenderFundingRecord,
    r: Result<(), RgbLibError>,
) -> bool {
    if !record.valid() {
        r is Err && is_internal(r->Err_0, record.rejection())
    } else if record.funding_txid@ != key {
        r is Err && is_internal(
            r->Err_0,
            "sender funding journal key does not match its transaction ID"@,
        )
    } else {
        r is Ok
    }
}

/// What follows from a reply during a rollback.
pub open spec fn rollback_step(job: SenderJob, reply: SenderReply, out: SenderProgress) -> bool {
    let txid = job.record.funding_txid@;
    match job.step {
        SenderStep::RollbackWriteIntent => after_write(
            reply,
            out,
            goes(out, job.to(SenderStep::RollbackReadStock)),
        ),
        SenderStep::RollbackReadStock => match reply {
            SenderReply::Stock(None) => goes(out, job.to(SenderStep::RollbackReadTransfers)),
            SenderReply::Stock(Some(op)) => if op@ == txid {
                goes(out, job.to(SenderStep::RollbackStock))
            } else {
                fails(
                    out,
                    "sender funding '"@ + txid + "' cannot roll back RGB operation '"@ + op@ + "'"@,
                )
            },
            _ => after_wallet(reply, out, true),
        },
        SenderStep::RollbackStock => after_wallet(
            reply,
            out,
            goes(out, job.to(SenderStep::RollbackReadTransfers)),
        ),
        SenderStep::RollbackReadTransfers => with_status(
            job,
            reply,
            out,
            |status: Option<TransferStatus>|
                match status {
                    Some(TransferStatus::Initiated) => goes(
                        out,
                        job.to(SenderStep::RollbackFailTransfers),
                    ),
                    Some(TransferStatus::Failed) => goes(out, job.to(SenderStep::RollbackBackup)),
                    Some(s) => fails(
                        out,
                        "refusing to roll back RGB funding '"@ + txid + "' in transfer status "@
                            + status_name(s),
                    ),
                    None => fails(
                        out,
                        "RGB funding transfer '"@ + txid + "' is missing during rollback"@,
                    ),
                },
        ),
        SenderStep::RollbackFailTransfers => match reply {
            SenderReply::Flag(true) => goes(out, job.to(SenderStep::RollbackBackup)),
            SenderReply::Flag(false) => fails(
                out,
                "RGB funding transfer '"@ + txid + "' remained initiated during rollback"@,
            ),
            _ => after_wallet(reply, out, true),
        },
        SenderStep::RollbackBackup => after_wallet(
            reply,
            out,
            goes(out, job.to(SenderStep::RollbackRemoveInfo(0))),
        ),
        SenderStep::RollbackRemoveInfo(k) => after_removal(
            reply,
            out,
            "cannot remove abandoned RGB channel metadata"@,
            goes(
                out,
                job.to(
                    if k + 1 < abandoned_entries(job.record) {
                        SenderStep::RollbackRemoveInfo((k + 1) as u8)
                    } else {
                        removal_step(
                            job.record,
                            SenderStep::RollbackRemoveMapping,
                            SenderStep::RollbackRemovePsbt,
                        )
                    },
                ),
            ),
        ),
        SenderStep::RollbackRemoveMapping => after_removal(
            reply,
            out,
            "cannot remove abandoned pending-funding mapping"@,
            goes(out, job.to(SenderStep::RollbackRemovePsbt)),
        ),
        SenderStep::RollbackRemovePsbt => after_removal(
            reply,
            out,
            "cannot remove abandoned signed funding PSBT"@,
            writes(
                out,
                job,
                RgbSenderFundingStage::RetryRequired,
                SenderStep::RollbackWriteRetry,
            ),
        ),
        SenderStep::RollbackWriteRetry => after_write(
            reply,
            out,
            goes(out, job.to(SenderStep::RollbackRemoveRecord)),
        ),
        SenderStep::RollbackRemoveRecord => match reply {
            SenderReply::StoreFailed(e) => fails(
                out,
                "cannot remove sender funding journal"@ + ": "@ + e.text@,
            ),
            _ => ends(out),
        },
        _ => true,
    }
}

/// What follows from a reply while a broadcast is resumed or committed.
pub open spec fn commit_step(job: SenderJob, reply: SenderReply, out: SenderProgress) -> bool {
    let txid = job.record.funding_txid@;
    match job.step {
        SenderStep::ResumeReadPsbt => psbt_read(
            job,
            reply,
            out,
            |s: String|
                if is_handoff_stage(job.record.stage) {
                    writes(
                        out,
                        job,
                        RgbSenderFundingStage::Broadcasting,
                        SenderStep::ResumeWriteIntent,
                    )
                } else {
                    commit_starts(job, out)
                },
        ),
        SenderStep::ResumeWriteIntent => after_write(reply, out, commit_starts(job, out)),
        SenderStep::CommitReadTransfers => with_status(
            job,
            reply,
            out,
            |status: Option<TransferStatus>|
                goes(
                    out,
                    job.to(
                        if status == Some(TransferStatus::Initiated) {
                            SenderStep::CommitReadPsbt
                        } else {
                            SenderStep::CommitRecheckTransfers
                        },
                    ),
                ),
        ),
        SenderStep::CommitReadPsbt => psbt_read(
            job,
            reply,
            out,
            |s: String| goes(out, SenderJob { psbt: Some(s), step: SenderStep::CommitSend, ..job }),
        ),
        SenderStep::CommitSend => match reply {
            SenderReply::Txid(t) => if t@ == txid {
                goes(out, job.to(SenderStep::CommitRecheckTransfers))
            } else {
                fails(
                    out,
                    "RGB funding broadcast returned transaction '"@ + t@ + "' instead of '"@ + txid
                        + "'"@,
                )
            },
            _ => after_wallet(reply, out, true),
        },
        SenderStep::CommitRecheckTransfers => with_status(
            job,
            reply,
            out,
            |status: Option<TransferStatus>|
                if is_out(status) {
                    writes(
                        out,
                        job,
                        RgbSenderFundingStage::BroadcastCommitted,
                        SenderStep::CommitWriteStage,
                    )
                } else {
                    fails(
                        out,
                        "cannot commit RGB funding '"@ + txid + "' from transfer status "@
                            + optional_status_name(status),
                    )
                },
        ),
        SenderStep::CommitWriteStage => after_write(
            reply,
            out,
            goes(out, job.to(SenderStep::FinalizeReadTransfers)),
        ),
        _ => true,
    }
}

/// The stored signed transaction is looked at: on with its checked text, or failed.
pub open spec fn psbt_read(
    job: SenderJob,
    reply: SenderReply,
    out: SenderProgress,
    on: spec_fn(String) -> bool,
) -> bool {
    match reply {
        SenderReply::Bytes(b) => exists|r: Result<String, RgbLibError>|
            #[trigger] signed_psbt_checked(job.record.funding_txid@, b@, r) && match r {
                Ok(s) => on(s),
                Err(e) => out == SenderProgress::Finished(Err::<(), RgbLibError>(e)),
            },
        SenderReply::StoreFailed(e) => fails(
            out,
            "cannot recover signed funding PSBT"@ + ": "@ + e.text@,
        ),
        _ => true,
    }
}

/// What follows from a reply while a broadcast is finalized.
pub open spec fn finalize_step(job: SenderJob, reply: SenderReply, out: SenderProgress) -> bool {
    let txid = job.record.funding_txid@;
    match job.step {
        SenderStep::FinalizeReadTransfers => with_status(
            job,
            reply,
            out,
            |status: Option<TransferStatus>|
                if is_out(status) {
                    goes(out, job.to(SenderStep::FinalizeFirstBackup))
                } else {
                    fails(
                        out,
                        "cannot finalize RGB funding '"@ + txid + "' from transfer status "@
                            + optional_status_name(status),
                    )
                },
        ),
        SenderStep::FinalizeFirstBackup => after_wallet(
            reply,
            out,
            goes(out, job.to(SenderStep::FinalizeReadStock)),
        ),
        SenderStep::FinalizeReadStock => match reply {
            SenderReply::Stock(None) => goes(out, job.to(SenderStep::FinalizeSecondBackup)),
            SenderReply::Stock(Some(op)) => if op@ == txid {
                goes(out, job.to(SenderStep::FinalizeStock))
            } else {
                fails(
                    out,
                    "sender funding '"@ + txid + "' cannot finalize RGB operation '"@ + op@ + "'"@,
                )
            },
            _ => after_wallet(reply, out, true),
        },
        SenderStep::FinalizeStock => after_wallet(
            reply,
            out,
            goes(out, job.to(SenderStep::FinalizeSecondBackup)),
        ),
        SenderStep::FinalizeSecondBackup => after_wallet(
            reply,
            out,
            goes(
                out,
                job.to(
                    removal_step(
                        job.record,
                        SenderStep::FinalizeRemoveMapping,
                        SenderStep::FinalizeRemovePsbt,
                    ),
                ),
            ),
        ),
        SenderStep::FinalizeRemoveMapping => after_removal(
            reply,
            out,
            "cannot remove finalized pending-funding mapping"@,
            goes(out, job.to(SenderStep::FinalizeRemovePsbt)),
        ),
        SenderStep::FinalizeRemovePsbt => after_removal(
            reply,
            out,
            "cannot remove finalized signed funding PSBT"@,
            writes(
                out,
                job,
                RgbSenderFundingStage::Finalized,
                SenderStep::FinalizeWriteStage,
            ),
        ),
        SenderStep::FinalizeWriteStage => after_write(reply, out, finished(job, out)),
        SenderStep::ReadBack => match reply {
            SenderReply::Record(record) => exists|r: Result<(), RgbLibError>|
                #[trigger] record_read(txid, record, r) && match r {
                    Ok(_) => completion_starts(record, out),
                    Err(e) => out == SenderProgress::Finished(Err::<(), RgbLibError>(e)),
                },
            SenderReply::Undecodable(e) => fails(
                out,
                "cannot decode sender funding journal"@ + ": "@ + e@,
            ),
            SenderReply::StoreFailed(e) => fails(
                out,
                "cannot read sender funding journal"@ + ": "@ + e.text@,
            ),
            _ => true,
        },
        _ => true,
    }
}

/// What follows from a reply while a finalized funding is completed.
pub open spec fn complete_step(job: SenderJob, reply: SenderReply, out: SenderProgress) -> bool {
    let txid = job.record.funding_txid@;
    let channel = job.record.final_channel_id->0@;
    match job.step {
        SenderStep::CompleteReadTransfers => with_status(
            job,
            reply,
            out,
            |status: Option<TransferStatus>|
                if is_out(status) {
                    goes(out, job.to(SenderStep::CompleteReadStock))
                } else {
                    fails(
                        out,
                        "finalized sender funding '"@ + txid
                            + "' has unexpected transfer status "@ + optional_status_name(status),
                    )
                },
        ),
        SenderStep::CompleteReadStock => match reply {
            SenderReply::Stock(Some(_)) => fails(
                out,
                "finalized sender funding '"@ + txid + "' still has a pending stock journal"@,
            ),
            SenderReply::Stock(None) => match job.record.rgb_info {
                Some(info) => goes(
                    out,
                    SenderJob { info: Some(info), step: SenderStep::CompleteBackup, ..job },
                ),
                None => goes(out, job.to(SenderStep::CompleteReadLegacyInfo)),
            },
            _ => after_wallet(reply, out, true),
        },
        SenderStep::CompleteReadLegacyInfo => match reply {
            SenderReply::Info(info) => goes(
                out,
                SenderJob { info: Some(info), step: SenderStep::CompleteBackup, ..job },
            ),
            SenderReply::StoreFailed(e) => fails(
                out,
                "legacy finalized sender funding has no recoverable channel metadata"@ + ": "@
                    + e.text@,
            ),
            _ => true,
        },
        SenderStep::CompleteBackup => after_wallet(
            reply,
            out,
            if total(job.info->0) > u64::MAX {
                fails(out, overflows(channel))
            } else {
                goes(out, job.to(SenderStep::CompleteReadInfo))
            },
        ),
        SenderStep::CompleteReadInfo => match reply {
            SenderReply::Info(found) => canonical_read(job, Ok(found), out),
            SenderReply::StoreFailed(e) => canonical_read(job, Err(e), out),
            _ => true,
        },
        SenderStep::CompleteWriteInfo => match reply {
            SenderReply::StoreFailed(e) => fails(
                out,
                "canonical RGB channel metadata was not acknowledged by VSS"@ + ": "@ + e.text@,
            ),
            _ => goes(out, job.to(SenderStep::CompleteRemoveMarker)),
        },
        SenderStep::CompleteRemoveMarker => after_removal(
            reply,
            out,
            "cannot remove finalized RGB pending-funding marker"@,
            writes(
                out,
                job,
                RgbSenderFundingStage::DurablyCompleted,
                SenderStep::CompleteWriteStage,
            ),
        ),
        SenderStep::CompleteWriteStage => after_write(reply, out, ends(out)),
        _ => true,
    }
}

/// The stored metadata is looked at: on with what is to be kept, or failed.
pub open spec fn canonical_read(
    job: SenderJob,
    found: Result<RgbInfo, StoreError>,
    out: SenderProgress,
) -> bool {
    exists|r: Result<RgbInfo, RgbLibError>|
        #[trigger] canonical(job.record.final_channel_id->0@, job.info->0, found, r) && match r {
            Ok(info) => goes(
                out,
                SenderJob { info: Some(info), step: SenderStep::CompleteWriteInfo, ..job },
            ),
            Err(e) => out == SenderProgress::Finished(Err::<(), RgbLibError>(e)),
        }
}

/// What follows from a reply.
pub open spec fn sender_step(job: SenderJob, reply: SenderReply, out: SenderProgress) -> bool {
    &&& rollback_step(job, reply, out)
    &&& commit_step(job, reply, out)
    &&& finalize_step(job, reply, out)
    &&& complete_step(job, reply, out)
    &&& out matches SenderProgress::Continue(next) ==> next.wf()
}

// ---------------------------------------------------------------------------------------------
// Implementation
// ---------------------------------------------------------------------------------------------

fn fail(details: String) -> (out: SenderProgress)
    ensures
        fails(out, details@),
{
    SenderProgress::Finished(Err(internal(details)))
}

fn fail_store(context: &str, e: &StoreError) -> (out: SenderProgress)
    ensures
        fails(out, context@ + ": "@ + e.text@),
{
    SenderProgress::Finished(Err(rgb_sender_funding_error(context, e.text.as_str())))
}

/// Checks a record that was read from the journal under the given key.
pub fn read_rgb_sender_funding_record(key: &str, record: &RgbSenderFundingRecord) -> (r: Result<
    (),
    RgbLibError,
>)
    ensures
        record_read(key@, *record, r),
{
    record.validate()?;
    if !same(record.funding_txid.as_str(), key) {
        return Err(internal(text("sender funding journal key does not match its transaction ID")));
    }
    Ok(())
}

/// What the store holds under a transaction ID of the journal.
#[derive(Debug)]
pub enum StoredRecord {
    Decoded(RgbSenderFundingRecord),
    /// The entry cannot be decoded, and why.
    Undecodable(String),
    /// The entry cannot be read, or is not there.
    Unread(StoreError),
}

/// How reading a journal record ends: a missing one is none, and one that is there must be valid and
/// stand under its own transaction ID.
pub open spec fn optional_record(
    key: Seq<char>,
    stored: StoredRecord,
    r: Result<Option<RgbSenderFundingRecord>, RgbLibError>,
) -> bool {
    match stored {
        StoredRecord::Decoded(record) => match r {
            Ok(found) => found == Some(record) && record_read(key, record, Ok(())),
            Err(e) => record_read(key, record, Err(e)),
        },
        StoredRecord::Undecodable(error) => r matches Err(e) && is_internal(
            e,
            "cannot decode sender funding journal"@ + ": "@ + error@,
        ),
        StoredRecord::Unread(error) => if error.not_found {
            r == Ok::<Option<RgbSenderFundingRecord>, RgbLibError>(None)
        } else {
            r matches Err(e) && is_internal(
                e,
                "cannot read sender funding journal"@ + ": "@ + error.text@,
            )
        },
    }
}

/// Reads a journal record that need not be there.
pub fn read_rgb_sender_funding_record_optional(key: &str, stored: StoredRecord) -> (r: Result<
    Option<RgbSenderFundingRecord>,
    RgbLibError,
>)
    ensures
        optional_record(key@, stored, r),
{
    match stored {
        StoredRecord::Decoded(record) => match read_rgb_sender_funding_record(key, &record) {
            Ok(_) => Ok(Some(record)),
            Err(e) => Err(e),
        },
        StoredRecord::Undecodable(error) => Err(
            rgb_sender_funding_error("cannot decode sender funding journal", error.as_str()),
        ),
        StoredRecord::Unread(error) => if error.not_found {
            Ok(None)
        } else {
            Err(rgb_sender_funding_error("cannot read sender funding journal", error.text.as_str()))
        },
    }
}

/// A channel that the channel manager has funded.
#[derive(Debug)]
pub struct FundedChannel {
    pub channel_id: String,
    pub funding_txid: Option<String>,
}

/// Whether a channel is the one that a record funds.
pub open spec fn is_channel_of(channel: FundedChannel, record: RgbSenderFundingRecord) -> bool {
    &&& record.final_channel_id is Some
    &&& channel.channel_id@ == record.final_channel_id->0@
    &&& channel.funding_txid is Some
    &&& channel.funding_txid->0@ == record.funding_txid@
}

/// Whether the channel of a record is durable.
pub open spec fn is_sender_durable(
    record: RgbSenderFundingRecord,
    funded_channels: Vec<FundedChannel>,
    r: bool,
) -> bool {
    &&& r <==> exists|i: int|
            0 <= i < funded_channels@.len() && is_channel_of(
                #[trigger] funded_channels@[i],
                record,
            )
}

/// Whether the channel of a record is durable: the channel manager has it funded, under its final ID
/// and by the record's transaction.
pub fn rgb_sender_channel_is_durable(
    record: &RgbSenderFundingRecord,
    funded_channels: &Vec<FundedChannel>,
) -> (r: bool)
    ensures
        is_sender_durable(*record, *funded_channels, r),
{
    let final_channel_id = match &record.final_channel_id {
        Some(id) => id,
        None => {
            return false;
        },
    };
    let mut i: usize = 0;
    while i < funded_channels.len()
        invariant
            i <= funded_channels@.len(),
            record.final_channel_id == Some(*final_channel_id),
            forall|j: int|
                0 <= j < i ==> !is_channel_of(#[trigger] funded_channels@[j], *record),
        decreases funded_channels@.len() - i,
    {
        let channel = &funded_channels[i];
        if let Some(txid) = &channel.funding_txid {
            if same(channel.channel_id.as_str(), final_channel_id.as_str()) && same(
                txid.as_str(),
                record.funding_txid.as_str(),
            ) {
                assert(is_channel_of(funded_channels@[i as int], *record));
                return true;
            }
        }
        i = i + 1;
    }
    false
}

impl SenderJob {
    fn goto(self, step: SenderStep) -> (out: SenderProgress)
        ensures
            goes(out, self.to(step)),
    {
        SenderProgress::Continue(SenderJob { step, ..self })
    }

    fn write(self, stage: RgbSenderFundingStage, step: SenderStep) -> (out: SenderProgress)
        ensures
            writes(out, self, stage, step),
    {
        let mut job = self;
        job.record.stage = stage;
        job.step = step;
        match job.record.validate() {
            Ok(_) => SenderProgress::Continue(job),
            Err(e) => SenderProgress::Finished(Err(e)),
        }
    }

    fn finish(self) -> (out: SenderProgress)
        ensures
            finished(self, out),
    {
        if self.then_complete {
            self.goto(SenderStep::ReadBack)
        } else {
            SenderProgress::Finished(Ok(()))
        }
    }

    fn commit(self) -> (out: SenderProgress)
        ensures
            commit_starts(self, out),
    {
        if self.record.stage == RgbSenderFundingStage::Finalized || self.record.stage
            == RgbSenderFundingStage::DurablyCompleted {
            self.finish()
        } else {
            self.goto(SenderStep::CommitReadTransfers)
        }
    }

    /// The effect that comes next.
    pub fn effect(&self) -> (r: SenderEffect)
        requires
            self.wf(),
        ensures
            r == effect_of(*self),
    {
        let txid = copy(&self.record.funding_txid);
        match self.step {
            SenderStep::RollbackWriteIntent
            | SenderStep::RollbackWriteRetry
            | SenderStep::ResumeWriteIntent
            | SenderStep::CommitWriteStage
            | SenderStep::FinalizeWriteStage
            | SenderStep::CompleteWriteStage => SenderEffect::WriteRecord(self.record.duplicate()),
            SenderStep::RollbackReadStock
            | SenderStep::FinalizeReadStock
            | SenderStep::CompleteReadStock => SenderEffect::ReadStock,
            SenderStep::RollbackStock => SenderEffect::RollbackStock(txid),
            SenderStep::FinalizeStock => SenderEffect::FinalizeStock(txid),
            SenderStep::RollbackReadTransfers
            | SenderStep::CommitReadTransfers
            | SenderStep::CommitRecheckTransfers
            | SenderStep::FinalizeReadTransfers
            | SenderStep::CompleteReadTransfers => SenderEffect::ListTransfers(txid),
            SenderStep::RollbackFailTransfers => SenderEffect::FailTransfers(
                self.record.batch_transfer_idx,
            ),
            SenderStep::RollbackBackup
            | SenderStep::FinalizeFirstBackup
            | SenderStep::FinalizeSecondBackup
            | SenderStep::CompleteBackup => SenderEffect::Backup,
            SenderStep::RollbackRemoveInfo(k) => SenderEffect::RemoveChannelInfo {
                channel_id: if k < 2 {
                    copy(&self.record.temporary_channel_id)
                } else {
                    self.channel_id()
                },
                pending: k % 2 == 1,
            },
            SenderStep::RollbackRemoveMapping
            | SenderStep::FinalizeRemoveMapping
            | SenderStep::CompleteRemoveMarker => SenderEffect::RemovePendingFunding(
                self.channel_id(),
            ),
            SenderStep::RollbackRemovePsbt
            | SenderStep::FinalizeRemovePsbt => SenderEffect::RemovePsbt(txid),
            SenderStep::RollbackRemoveRecord => SenderEffect::RemoveRecord(txid),
            SenderStep::ResumeReadPsbt | SenderStep::CommitReadPsbt => SenderEffect::ReadPsbt(txid),
            SenderStep::CommitSend => SenderEffect::SendEnd {
                funding_txid: txid,
                signed_psbt: match &self.psbt {
                    Some(s) => copy(s),
                    None => unreached(),
                },
                delivery: self.record.consignment_delivery,
            },
            SenderStep::ReadBack => SenderEffect::ReadRecord(txid),
            SenderStep::CompleteReadLegacyInfo
            | SenderStep::CompleteReadInfo => SenderEffect::ReadChannelInfo(self.channel_id()),
            SenderStep::CompleteWriteInfo => SenderEffect::WriteChannelInfo(
                self.channel_id(),
                match &self.info {
                    Some(i) => i.duplicate(),
                    None => unreached(),
                },
            ),
        }
    }

    fn channel_id(&self) -> (r: String)
        requires
            self.record.final_channel_id is Some,
        ensures
            r == self.record.final_channel_id->0,
    {
        match &self.record.final_channel_id {
            Some(id) => copy(id),
            None => unreached(),
        }
    }

    fn advance_rollback(self, reply: SenderReply) -> (out: SenderProgress)
        requires
            self.wf(),
            fits(self.step, reply),
        ensures
            rollback_step(self, reply, out),
            is_rollback(self.step) ==> (out matches SenderProgress::Continue(next) ==> next.wf()),
    {
        match (self.step, reply) {
            (
                SenderStep::RollbackWriteIntent | SenderStep::RollbackWriteRetry,
                SenderReply::StoreFailed(e),
            ) => fail_store(
                "cannot persist sender funding journal",
                &e,
            ),
            (SenderStep::RollbackWriteIntent, _) => self.goto(SenderStep::RollbackReadStock),
            (SenderStep::RollbackReadStock, SenderReply::Stock(None)) => self.goto(
                SenderStep::RollbackReadTransfers,
            ),
            (SenderStep::RollbackReadStock, SenderReply::Stock(Some(op))) => {
                if same(op.as_str(), self.record.funding_txid.as_str()) {
                    self.goto(SenderStep::RollbackStock)
                } else {
                    fail(
                        join5(
                            "sender funding '",
                            self.record.funding_txid.as_str(),
                            "' cannot roll back RGB operation '",
                            op.as_str(),
                            "'",
                        ),
                    )
                }
            },
            (
                SenderStep::RollbackReadStock
                | SenderStep::RollbackStock
                | SenderStep::RollbackReadTransfers
                | SenderStep::RollbackFailTransfers
                | SenderStep::RollbackBackup,
                SenderReply::WalletFailed(e),
            ) => SenderProgress::Finished(Err(e)),
            (SenderStep::RollbackStock, _) => self.goto(SenderStep::RollbackReadTransfers),
            (SenderStep::RollbackReadTransfers, SenderReply::Transfers(v)) => {
                match sender_transfer_status(&v, self.record.funding_txid.as_str()) {
                    Err(e) => SenderProgress::Finished(Err(e)),
                    Ok(Some(TransferStatus::Initiated)) => self.goto(
                        SenderStep::RollbackFailTransfers,
                    ),
                    Ok(Some(TransferStatus::Failed)) => self.goto(SenderStep::RollbackBackup),
                    Ok(Some(s)) => {
                        let mut m = join3(
                            "refusing to roll back RGB funding '",
                            self.record.funding_txid.as_str(),
                            "' in transfer status ",
                        );
                        m.append(s.name());
                        fail(m)
                    },
                    Ok(None) => fail(
                        join3(
                            "RGB funding transfer '",
                            self.record.funding_txid.as_str(),
                            "' is missing during rollback",
                        ),
                    ),
                }
            },
            (SenderStep::RollbackFailTransfers, SenderReply::Flag(failed)) => {
                if failed {
                    self.goto(SenderStep::RollbackBackup)
                } else {
                    fail(
                        join3(
                            "RGB funding transfer '",
                            self.record.funding_txid.as_str(),
                            "' remained initiated during rollback",
                        ),
                    )
                }
            },
            (SenderStep::RollbackBackup, _) => self.goto(SenderStep::RollbackRemoveInfo(0)),
            (SenderStep::RollbackRemoveInfo(k), reply) => {
                if let SenderReply::StoreFailed(e) = &reply {
                    if !e.not_found {
                        return fail_store("cannot remove abandoned RGB channel metadata", e);
                    }
                }
                let has_final = self.record.final_channel_id.is_some();
                let entries: u8 = if has_final {
                    4
                } else {
                    2
                };
                if k + 1 < entries {
                    self.goto(SenderStep::RollbackRemoveInfo(k + 1))
                } else if has_final {
                    self.goto(SenderStep::RollbackRemoveMapping)
                } else {
                    self.goto(SenderStep::RollbackRemovePsbt)
                }
            },
            (SenderStep::RollbackRemoveMapping, reply) => {
                if let SenderReply::StoreFailed(e) = &reply {
                    if !e.not_found {
                        return fail_store("cannot remove abandoned pending-funding mapping", e);
                    }
                }
                self.goto(SenderStep::RollbackRemovePsbt)
            },
            (SenderStep::RollbackRemovePsbt, reply) => {
                if let SenderReply::StoreFailed(e) = &reply {
                    if !e.not_found {
                        return fail_store("cannot remove abandoned signed funding PSBT", e);
                    }
                }
                self.write(RgbSenderFundingStage::RetryRequired, SenderStep::RollbackWriteRetry)
            },
            (SenderStep::RollbackWriteRetry, _) => self.goto(SenderStep::RollbackRemoveRecord),
            (SenderStep::RollbackRemoveRecord, SenderReply::StoreFailed(e)) => fail_store(
                "cannot remove sender funding journal",
                &e,
            ),
            _ => SenderProgress::Finished(Ok(())),
        }
    }

    fn advance_commit(self, reply: SenderReply) -> (out: SenderProgress)
        requires
            self.wf(),
            fits(self.step, reply),
        ensures
            commit_step(self, reply, out),
            is_commit(self.step) ==> (out matches SenderProgress::Continue(next) ==> next.wf()),
    {
        match (self.step, reply) {
            (SenderStep::ResumeReadPsbt | SenderStep::CommitReadPsbt, SenderReply::StoreFailed(e)) => fail_store(
                "cannot recover signed funding PSBT",
                &e,
            ),
            (SenderStep::ResumeReadPsbt, SenderReply::Bytes(b)) => {
                let checked = check_signed_psbt(self.record.funding_txid.as_str(), b);
                assert(signed_psbt_checked(self.record.funding_txid@, b@, checked));
                match checked {
                    Err(e) => SenderProgress::Finished(Err(e)),
                    Ok(_) => {
                        if self.record.stage == RgbSenderFundingStage::HandoffReady
                            || self.record.stage == RgbSenderFundingStage::HandedToLdk
                            || self.record.stage == RgbSenderFundingStage::BroadcastSafeObserved {
                            self.write(
                                RgbSenderFundingStage::Broadcasting,
                                SenderStep::ResumeWriteIntent,
                            )
                        } else {
                            self.commit()
                        }
                    },
                }
            },
            (SenderStep::ResumeWriteIntent | SenderStep::CommitWriteStage, SenderReply::StoreFailed(e)) => fail_store(
                "cannot persist sender funding journal",
                &e,
            ),
            (SenderStep::ResumeWriteIntent, _) => self.commit(),
            (
                SenderStep::CommitReadTransfers
                | SenderStep::CommitSend
                | SenderStep::CommitRecheckTransfers,
                SenderReply::WalletFailed(e),
            ) => SenderProgress::Finished(Err(e)),
            (SenderStep::CommitReadTransfers, SenderReply::Transfers(v)) => {
                match sender_transfer_status(&v, self.record.funding_txid.as_str()) {
                    Err(e) => SenderProgress::Finished(Err(e)),
                    Ok(Some(TransferStatus::Initiated)) => self.goto(SenderStep::CommitReadPsbt),
                    Ok(_) => self.goto(SenderStep::CommitRecheckTransfers),
                }
            },
            (SenderStep::CommitReadPsbt, SenderReply::Bytes(b)) => {
                let checked = check_signed_psbt(self.record.funding_txid.as_str(), b);
                assert(signed_psbt_checked(self.record.funding_txid@, b@, checked));
                match checked {
                    Err(e) => SenderProgress::Finished(Err(e)),
                    Ok(s) => SenderProgress::Continue(
                        SenderJob { psbt: Some(s), step: SenderStep::CommitSend, ..self },
                    ),
                }
            },
            (SenderStep::CommitSend, SenderReply::Txid(t)) => {
                if same(t.as_str(), self.record.funding_txid.as_str()) {
                    self.goto(SenderStep::CommitRecheckTransfers)
                } else {
                    fail(
                        join5(
                            "RGB funding broadcast returned transaction '",
                            t.as_str(),
                            "' instead of '",
                            self.record.funding_txid.as_str(),
                            "'",
                        ),
                    )
                }
            },
            (SenderStep::CommitRecheckTransfers, SenderReply::Transfers(v)) => {
                match sender_transfer_status(&v, self.record.funding_txid.as_str()) {
                    Err(e) => SenderProgress::Finished(Err(e)),
                    Ok(status) => {
                        if transfer_is_out(status) {
                            self.write(
                                RgbSenderFundingStage::BroadcastCommitted,
                                SenderStep::CommitWriteStage,
                            )
                        } else {
                            let mut m = join3(
                                "cannot commit RGB funding '",
                                self.record.funding_txid.as_str(),
                                "' from transfer status ",
                            );
                            m.append(optional_status(status).as_str());
                            fail(m)
                        }
                    },
                }
            },
            (SenderStep::CommitWriteStage, _) => self.goto(SenderStep::FinalizeReadTransfers),
            _ => SenderProgress::Finished(Ok(())),
        }
    }

    fn advance_finalize(self, reply: SenderReply) -> (out: SenderProgress)
        requires
            self.wf(),
            fits(self.step, reply),
        ensures
            finalize_step(self, reply, out),
            is_finalize(self.step) ==> (out matches SenderProgress::Continue(next) ==> next.wf()),
    {
        match (self.step, reply) {
            (
                SenderStep::FinalizeReadTransfers
                | SenderStep::FinalizeFirstBackup
                | SenderStep::FinalizeReadStock
                | SenderStep::FinalizeStock
                | SenderStep::FinalizeSecondBackup,
                SenderReply::WalletFailed(e),
            ) => SenderProgress::Finished(Err(e)),
            (SenderStep::FinalizeReadTransfers, SenderReply::Transfers(v)) => {
                match sender_transfer_status(&v, self.record.funding_txid.as_str()) {
                    Err(e) => SenderProgress::Finished(Err(e)),
                    Ok(status) => {
                        if transfer_is_out(status) {
                            self.goto(SenderStep::FinalizeFirstBackup)
                        } else {
                            let mut m = join3(
                                "cannot finalize RGB funding '",
                                self.record.funding_txid.as_str(),
                                "' from transfer status ",
                            );
                            m.append(optional_status(status).as_str());
                            fail(m)
                        }
                    },
                }
            },
            (SenderStep::FinalizeFirstBackup, _) => self.goto(SenderStep::FinalizeReadStock),
            (SenderStep::FinalizeReadStock, SenderReply::Stock(None)) => self.goto(
                SenderStep::FinalizeSecondBackup,
            ),
            (SenderStep::FinalizeReadStock, SenderReply::Stock(Some(op))) => {
                if same(op.as_str(), self.record.funding_txid.as_str()) {
                    self.goto(SenderStep::FinalizeStock)
                } else {
                    fail(
                        join5(
                            "sender funding '",
                            self.record.funding_txid.as_str(),
                            "' cannot finalize RGB operation '",
                            op.as_str(),
                            "'",
                        ),
                    )
                }
            },
            (SenderStep::FinalizeStock, _) => self.goto(SenderStep::FinalizeSecondBackup),
            (SenderStep::FinalizeSecondBackup, _) => {
                if self.record.final_channel_id.is_some() {
                    self.goto(SenderStep::FinalizeRemoveMapping)
                } else {
                    self.goto(SenderStep::FinalizeRemovePsbt)
                }
            },
            (SenderStep::FinalizeRemoveMapping, reply) => {
                if let SenderReply::StoreFailed(e) = &reply {
                    if !e.not_found {
                        return fail_store("cannot remove finalized pending-funding mapping", e);
                    }
                }
                self.goto(SenderStep::FinalizeRemovePsbt)
            },
            (SenderStep::FinalizeRemovePsbt, reply) => {
                if let SenderReply::StoreFailed(e) = &reply {
                    if !e.not_found {
                        return fail_store("cannot remove finalized signed funding PSBT", e);
                    }
                }
                self.write(RgbSenderFundingStage::Finalized, SenderStep::FinalizeWriteStage)
            },
            (SenderStep::FinalizeWriteStage, SenderReply::StoreFailed(e)) => fail_store(
                "cannot persist sender funding journal",
                &e,
            ),
            (SenderStep::FinalizeWriteStage, _) => self.finish(),
            (SenderStep::ReadBack, SenderReply::Record(record)) => {
                let checked = read_rgb_sender_funding_record(
                    self.record.funding_txid.as_str(),
                    &record,
                );
                assert(record_read(self.record.funding_txid@, record, checked));
                match checked {
                    Err(e) => SenderProgress::Finished(Err(e)),
                    Ok(_) => complete_finalized_sender_funding(record),
                }
            },
            (SenderStep::ReadBack, SenderReply::Undecodable(e)) => SenderProgress::Finished(
                Err(rgb_sender_funding_error("cannot decode sender funding journal", e.as_str())),
            ),
            (SenderStep::ReadBack, SenderReply::StoreFailed(e)) => fail_store(
                "cannot read sender funding journal",
                &e,
            ),
            _ => SenderProgress::Finished(Ok(())),
        }
    }

    fn advance_complete(self, reply: SenderReply) -> (out: SenderProgress)
        requires
            self.wf(),
            fits(self.step, reply),
        ensures
            complete_step(self, reply, out),
            is_complete(self.step) ==> (out matches SenderProgress::Continue(next) ==> next.wf()),
    {
        match (self.step, reply) {
            (
                SenderStep::CompleteReadTransfers
                | SenderStep::CompleteReadStock
                | SenderStep::CompleteBackup,
                SenderReply::WalletFailed(e),
            ) => SenderProgress::Finished(Err(e)),
            (SenderStep::CompleteReadTransfers, SenderReply::Transfers(v)) => {
                match sender_transfer_status(&v, self.record.funding_txid.as_str()) {
                    Err(e) => SenderProgress::Finished(Err(e)),
                    Ok(status) => {
                        if transfer_is_out(status) {
                            self.goto(SenderStep::CompleteReadStock)
                        } else {
                            let mut m = join3(
                                "finalized sender funding '",
                                self.record.funding_txid.as_str(),
                                "' has unexpected transfer status ",
                            );
                            m.append(optional_status(status).as_str());
                            fail(m)
                        }
                    },
                }
            },
            (SenderStep::CompleteReadStock, SenderReply::Stock(Some(_))) => fail(
                join3(
                    "finalized sender funding '",
                    self.record.funding_txid.as_str(),
                    "' still has a pending stock journal",
                ),
            ),
            (SenderStep::CompleteReadStock, _) => {
                let known = match &self.record.rgb_info {
                    Some(info) => Some(info.duplicate()),
                    None => None,
                };
                match known {
                    Some(info) => SenderProgress::Continue(
                        SenderJob { info: Some(info), step: SenderStep::CompleteBackup, ..self },
                    ),
                    None => self.goto(SenderStep::CompleteReadLegacyInfo),
                }
            },
            (SenderStep::CompleteReadLegacyInfo, SenderReply::Info(info)) => SenderProgress::Continue(
                SenderJob { info: Some(info), step: SenderStep::CompleteBackup, ..self },
            ),
            (SenderStep::CompleteReadLegacyInfo, SenderReply::StoreFailed(e)) => fail_store(
                "legacy finalized sender funding has no recoverable channel metadata",
                &e,
            ),
            (SenderStep::CompleteBackup, _) => {
                let channel_id = self.channel_id();
                let checked = match &self.info {
                    Some(info) => total_amount(channel_id.as_str(), info),
                    None => unreached(),
                };
                match checked {
                    Err(e) => SenderProgress::Finished(Err(e)),
                    Ok(_) => self.goto(SenderStep::CompleteReadInfo),
                }
            },
            (SenderStep::CompleteReadInfo, reply) => {
                let found: Result<RgbInfo, StoreError> = match reply {
                    SenderReply::Info(info) => Ok(info),
                    SenderReply::StoreFailed(e) => Err(e),
                    _ => unreached(),
                };
                let channel_id = self.channel_id();
                let kept = match &self.info {
                    Some(expected) => persist_canonical_rgb_channel_info(
                        channel_id.as_str(),
                        expected,
                        found,
                    ),
                    None => unreached(),
                };
                assert(canonical(
                    self.record.final_channel_id->0@,
                    self.info->0,
                    found,
                    kept,
                ));
                match kept {
                    Err(e) => SenderProgress::Finished(Err(e)),
                    Ok(info) => SenderProgress::Continue(
                        SenderJob { info: Some(info), step: SenderStep::CompleteWriteInfo, ..self },
                    ),
                }
            },
            (SenderStep::CompleteWriteInfo, SenderReply::StoreFailed(e)) => fail_store(
                "canonical RGB channel metadata was not acknowledged by VSS",
                &e,
            ),
            (SenderStep::CompleteWriteInfo, _) => self.goto(SenderStep::CompleteRemoveMarker),
            (SenderStep::CompleteRemoveMarker, reply) => {
                if let SenderReply::StoreFailed(e) = &reply {
                    if !e.not_found {
                        return fail_store("cannot remove finalized RGB pending-funding marker", e);
                    }
                }
                self.write(RgbSenderFundingStage::DurablyCompleted, SenderStep::CompleteWriteStage)
            },
            (SenderStep::CompleteWriteStage, SenderReply::StoreFailed(e)) => fail_store(
                "cannot persist sender funding journal",
                &e,
            ),
            _ => SenderProgress::Finished(Ok(())),
        }
    }

    /// Takes the reply to the job's effect and says what follows.
    pub fn advance(self, reply: SenderReply) -> (out: SenderProgress)
        requires
            self.wf(),
            fits(self.step, reply),
        ensures
            sender_step(self, reply, out),
    {
        match self.step {
            SenderStep::RollbackWriteIntent
            | SenderStep::RollbackReadStock
            | SenderStep::RollbackStock
            | SenderStep::RollbackReadTransfers
            | SenderStep::RollbackFailTransfers
            | SenderStep::RollbackBackup
            | SenderStep::RollbackRemoveInfo(_)
            | SenderStep::RollbackRemoveMapping
            | SenderStep::RollbackRemovePsbt
            | SenderStep::RollbackWriteRetry
            | SenderStep::RollbackRemoveRecord => self.advance_rollback(reply),
            SenderStep::ResumeReadPsbt
            | SenderStep::ResumeWriteIntent
            | SenderStep::CommitReadTransfers
            | SenderStep::CommitReadPsbt
            | SenderStep::CommitSend
            | SenderStep::CommitRecheckTransfers
            | SenderStep::CommitWriteStage => self.advance_commit(reply),
            SenderStep::FinalizeReadTransfers
            | SenderStep::FinalizeFirstBackup
            | SenderStep::FinalizeReadStock
            | SenderStep::FinalizeStock
            | SenderStep::FinalizeSecondBackup
            | SenderStep::FinalizeRemoveMapping
            | SenderStep::FinalizeRemovePsbt
            | SenderStep::FinalizeWriteStage
            | SenderStep::ReadBack => self.advance_finalize(reply),
            _ => self.advance_complete(reply),
        }
    }
}

pub open spec fn is_rollback(step: SenderStep) -> bool {
    match step {
        SenderStep::RollbackWriteIntent
        | SenderStep::RollbackReadStock
        | SenderStep::RollbackStock
        | SenderStep::RollbackReadTransfers
        | SenderStep::RollbackFailTransfers
        | SenderStep::RollbackBackup
        | SenderStep::RollbackRemoveInfo(_)
        | SenderStep::RollbackRemoveMapping
        | SenderStep::RollbackRemovePsbt
        | SenderStep::RollbackWriteRetry
        | SenderStep::RollbackRemoveRecord => true,
        _ => false,
    }
}

pub open spec fn is_commit(step: SenderStep) -> bool {
    match step {
        SenderStep::ResumeReadPsbt
        | SenderStep::ResumeWriteIntent
        | SenderStep::CommitReadTransfers
        | SenderStep::CommitReadPsbt
        | SenderStep::CommitSend
        | SenderStep::CommitRecheckTransfers
        | SenderStep::CommitWriteStage => true,
        _ => false,
    }
}

pub open spec fn is_finalize(step: SenderStep) -> bool {
    match step {
        SenderStep::FinalizeReadTransfers
        | SenderStep::FinalizeFirstBackup
        | SenderStep::FinalizeReadStock
        | SenderStep::FinalizeStock
        | SenderStep::FinalizeSecondBackup
        | SenderStep::FinalizeRemoveMapping
        | SenderStep::FinalizeRemovePsbt
        | SenderStep::FinalizeWriteStage
        | SenderStep::ReadBack => true,
        _ => false,
    }
}

pub open spec fn is_complete(step: SenderStep) -> bool {
    !is_rollback(step) && !is_commit(step) && !is_finalize(step)
}

// ---------------------------------------------------------------------------------------------
// Starting
// ---------------------------------------------------------------------------------------------

/// How the rollback of a funding starts.
pub open spec fn rolls_back(
    record: RgbSenderFundingRecord,
    out: SenderProgress,
) -> bool {
    &&& ({
            let intent = record.at(RgbSenderFundingStage::RollingBack);
            if intent.valid() {
                goes(
                    out,
                    SenderJob {
                        record: intent,
                        info: None,
                        psbt: None,
                        step: SenderStep::RollbackWriteIntent,
                        then_complete: false,
                    },
                )
            } else {
                fails(out, intent.rejection())
            }
        })
}

/// Starts to roll a funding back.
pub fn rollback_rgb_sender_funding(record: RgbSenderFundingRecord) -> (out: SenderProgress)
    ensures
        rolls_back(record, out),
{
    let job = SenderJob {
        record,
        info: None,
        psbt: None,
        step: SenderStep::RollbackWriteIntent,
        then_complete: false,
    };
    job.write(RgbSenderFundingStage::RollingBack, SenderStep::RollbackWriteIntent)
}

/// Starts to commit and finalize a broadcast, and to complete it where that is asked for.
pub fn commit_and_finalize_rgb_sender_funding(
    record: RgbSenderFundingRecord,
    then_complete: bool,
) -> (out: SenderProgress)
    ensures
        commit_starts(
            SenderJob {
                record,
                info: None,
                psbt: None,
                step: SenderStep::CommitReadTransfers,
                then_complete,
            },
            out,
        ),
{
    let job = SenderJob {
        record,
        info: None,
        psbt: None,
        step: SenderStep::CommitReadTransfers,
        then_complete,
    };
    job.commit()
}

/// Starts to complete a finalized funding.
pub fn complete_finalized_sender_funding(record: RgbSenderFundingRecord) -> (out: SenderProgress)
    ensures
        completion_starts(record, out),
{
    if record.stage == RgbSenderFundingStage::DurablyCompleted {
        return SenderProgress::Finished(Ok(()));
    }
    if record.stage != RgbSenderFundingStage::Finalized {
        let mut m = join3(
            "sender funding '",
            record.funding_txid.as_str(),
            "' cannot complete from stage ",
        );
        m.append(record.stage.name());
        return fail(m);
    }
    if record.final_channel_id.is_none() {
        return fail(
            join3(
                "finalized sender funding '",
                record.funding_txid.as_str(),
                "' is missing its channel ID",
            ),
        );
    }
    SenderProgress::Continue(
        SenderJob {
            record,
            info: None,
            psbt: None,
            step: SenderStep::CompleteReadTransfers,
            then_complete: false,
        },
    )
}

/// Whether a record's broadcast can be resumed from its stage.
pub open spec fn is_resumable_stage(stage: RgbSenderFundingStage) -> bool {
    is_handoff_stage(stage) || stage == RgbSenderFundingStage::Broadcasting || stage
        == RgbSenderFundingStage::BroadcastCommitted
}

/// How the resumption of a broadcast starts.
pub open spec fn resumes(
    record: RgbSenderFundingRecord,
    channel_is_durable: bool,
    then_complete: bool,
    out: SenderProgress,
) -> bool {
    &&& ({
            let job = SenderJob {
                record,
                info: None,
                psbt: None,
                step: SenderStep::ResumeReadPsbt,
                then_complete,
            };
            if !channel_is_durable {
                fails(
                    out,
                    "cannot resume RGB funding '"@ + record.funding_txid@
                        + "': matching durable channel state is unavailable"@,
                )
            } else if is_final_stage(record.stage) {
                finished(job, out)
            } else if !is_resumable_stage(record.stage) {
                fails(
                    out,
                    "cannot resume RGB funding '"@ + record.funding_txid@ + "' from stage "@
                        + sender_stage_name(record.stage),
                )
            } else {
                goes(out, job)
            }
        })
}

/// Starts to resume a broadcast from durable channel state.
pub fn resume_rgb_sender_broadcast(
    record: RgbSenderFundingRecord,
    channel_is_durable: bool,
    then_complete: bool,
) -> (out: SenderProgress)
    ensures
        resumes(record, channel_is_durable, then_complete, out),
{
    let job = SenderJob {
        record,
        info: None,
        psbt: None,
        step: SenderStep::ResumeReadPsbt,
        then_complete,
    };
    if !channel_is_durable {
        return fail(
            join3(
                "cannot resume RGB funding '",
                job.record.funding_txid.as_str(),
                "': matching durable channel state is unavailable",
            ),
        );
    }
    match job.record.stage {
        RgbSenderFundingStage::Finalized | RgbSenderFundingStage::DurablyCompleted => job.finish(),
        RgbSenderFundingStage::HandoffReady
        | RgbSenderFundingStage::HandedToLdk
        | RgbSenderFundingStage::BroadcastSafeObserved
        | RgbSenderFundingStage::Broadcasting
        | RgbSenderFundingStage::BroadcastCommitted => SenderProgress::Continue(job),
        _ => {
            let mut m = join3(
                "cannot resume RGB funding '",
                job.record.funding_txid.as_str(),
                "' from stage ",
            );
            m.append(job.record.stage.name());
            fail(m)
        },
    }
}

// ---------------------------------------------------------------------------------------------
// Reconciling
// ---------------------------------------------------------------------------------------------

/// What the startup reconciliation does with a record.
#[derive(Debug)]
pub enum SenderReconciliation {
    /// Nothing is left to do.
    Settled,
    /// Only the record itself is left to remove; a failure is reported as of a channel that is not
    /// durable.
    RemoveRecord,
    /// The chain must be asked whether it knows the transaction.
    Observe,
    /// The job runs; a failure is reported with what is known of the transaction.
    Run { progress: SenderProgress, known: Option<bool> },
    /// Only an operator can help.
    Report(RgbFundingRecoveryState),
}

/// What is done with a record once all that can be known of its transaction is.
pub open spec fn acts(
    record: RgbSenderFundingRecord,
    durable: bool,
    known: Option<bool>,
    out: SenderReconciliation,
) -> bool {
    match sender_recovery_action(
        record.stage,
        record.manual_broadcast,
        durable,
        known == Some(true),
    ) {
        RgbSenderRecoveryAction::Finalize => out matches SenderReconciliation::Run {
            progress,
            known: k,
        } && k == known && commit_starts(fresh(record, SenderStep::CommitReadTransfers), progress),
        RgbSenderRecoveryAction::ResumeBroadcast => out matches SenderReconciliation::Run {
            progress,
            known: k,
        } && k == known && resume_starts(record, progress),
        RgbSenderRecoveryAction::Rollback => out matches SenderReconciliation::Run {
            progress,
            known: k,
        } && k == known && rollback_starts(record, progress),
        RgbSenderRecoveryAction::FailClosed => out == SenderReconciliation::Report(
            sender_report(record, durable, Ok(known), None),
        ),
    }
}

/// A job for a record that is completed once it is finalized.
pub open spec fn fresh(record: RgbSenderFundingRecord, step: SenderStep) -> SenderJob {
    SenderJob { record, info: None, psbt: None, step, then_complete: true }
}

/// The start of a resumption whose channel is durable.
pub open spec fn resume_starts(record: RgbSenderFundingRecord, out: SenderProgress) -> bool {
    let job = fresh(record, SenderStep::ResumeReadPsbt);
    if is_final_stage(record.stage) {
        finished(job, out)
    } else if !is_resumable_stage(record.stage) {
        fails(
            out,
            "cannot resume RGB funding '"@ + record.funding_txid@ + "' from stage "@
                + sender_stage_name(record.stage),
        )
    } else {
        goes(out, job)
    }
}

/// The start of a rollback: the intent is journalled first.
pub open spec fn rollback_starts(record: RgbSenderFundingRecord, out: SenderProgress) -> bool {
    let intent = record.at(RgbSenderFundingStage::RollingBack);
    if intent.valid() {
        goes(
            out,
            SenderJob {
                record: intent,
                info: None,
                psbt: None,
                step: SenderStep::RollbackWriteIntent,
                then_complete: false,
            },
        )
    } else {
        fails(out, intent.rejection())
    }
}

/// What the reconciliation does with a record before the chain is asked.
pub open spec fn reconciles(
    record: RgbSenderFundingRecord,
    durable: bool,
    out: SenderReconciliation,
) -> bool {
    if record.stage == RgbSenderFundingStage::RetryRequired {
        out is RemoveRecord
    } else if record.stage == RgbSenderFundingStage::DurablyCompleted && durable {
        out is Settled
    } else if record.stage == RgbSenderFundingStage::Finalized && durable {
        out matches SenderReconciliation::Run { progress, known } && known is None
            && completion_starts(record, progress)
    } else if sender_recovery_action(record.stage, record.manual_broadcast, durable, false)
        == RgbSenderRecoveryAction::FailClosed {
        out is Observe
    } else {
        acts(record, durable, None, out)
    }
}

fn act(record: RgbSenderFundingRecord, channel_is_durable: bool, known: Option<bool>) -> (out:
    SenderReconciliation)
    ensures
        acts(record, channel_is_durable, known, out),
{
    match rgb_sender_recovery_action(&record, channel_is_durable, known.unwrap_or(false)) {
        RgbSenderRecoveryAction::Finalize => SenderReconciliation::Run {
            progress: commit_and_finalize_rgb_sender_funding(record, true),
            known,
        },
        RgbSenderRecoveryAction::ResumeBroadcast => SenderReconciliation::Run {
            progress: resume_rgb_sender_broadcast(record, channel_is_durable, true),
            known,
        },
        RgbSenderRecoveryAction::Rollback => SenderReconciliation::Run {
            progress: rollback_rgb_sender_funding(record),
            known,
        },
        RgbSenderRecoveryAction::FailClosed => SenderReconciliation::Report(
            rgb_funding_recovery_view(&record, channel_is_durable, Ok(known), None),
        ),
    }
}

/// Decides what startup does with a journal record, given whether its channel is durable.
pub fn reconcile_rgb_sender_funding(record: RgbSenderFundingRecord, channel_is_durable: bool) -> (out:
    SenderReconciliation)
    ensures
        reconciles(record, channel_is_durable, out),
{
    if record.stage == RgbSenderFundingStage::RetryRequired {
        return SenderReconciliation::RemoveRecord;
    }
    if record.stage == RgbSenderFundingStage::DurablyCompleted && channel_is_durable {
        return SenderReconciliation::Settled;
    }
    if record.stage == RgbSenderFundingStage::Finalized && channel_is_durable {
        return SenderReconciliation::Run {
            progress: complete_finalized_sender_funding(record),
            known: None,
        };
    }
    if rgb_sender_recovery_action(&record, channel_is_durable, false)
        == RgbSenderRecoveryAction::FailClosed {
        return SenderReconciliation::Observe;
    }
    act(record, channel_is_durable, None)
}

/// What the reconciliation does with a record after the chain was asked.
pub open spec fn reconciles_observed(
    record: RgbSenderFundingRecord,
    channel_is_durable: bool,
    observation: Result<bool, String>,
    out: SenderReconciliation,
) -> bool {
    &&& match observation {
            Ok(known) => acts(record, channel_is_durable, Some(known), out),
            Err(e) => out == SenderReconciliation::Report(
                sender_report(record, channel_is_durable, Err(e), None),
            ),
        }
}

/// Decides what startup does with a record after the chain was asked; the error comes as its
/// message.
pub fn reconcile_observed_sender_funding(
    record: RgbSenderFundingRecord,
    channel_is_durable: bool,
    observation: Result<bool, String>,
) -> (out: SenderReconciliation)
    ensures
        reconciles_observed(record, channel_is_durable, observation, out),
{
    match observation {
        Ok(known) => act(record, channel_is_durable, Some(known)),
        Err(e) => SenderReconciliation::Report(
            rgb_funding_recovery_view(&record, channel_is_durable, Err(e), None),
        ),
    }
}

/// What is reported of a record after its job ended.
pub open spec fn is_reconciled(
    record: RgbSenderFundingRecord,
    channel_is_durable: bool,
    known: Option<bool>,
    result: Result<(), String>,
    r: Option<RgbFundingRecoveryState>,
) -> bool {
    &&& match result {
            Ok(_) => r is None,
            Err(e) => r == Some(sender_report(record, channel_is_durable, Ok(known), Some(e))),
        }
}

/// What is reported of a record after its job ended: nothing, or the failure together with what was
/// known of the transaction.
pub fn reconciliation_outcome(
    record: &RgbSenderFundingRecord,
    channel_is_durable: bool,
    known: Option<bool>,
    result: Result<(), String>,
) -> (r: Option<RgbFundingRecoveryState>)
    ensures
        is_reconciled(*record, channel_is_durable, known, result, r),
{
    match result {
        Ok(_) => None,
        Err(e) => Some(rgb_funding_recovery_view(record, channel_is_durable, Ok(known), Some(e))),
    }
}

// ---------------------------------------------------------------------------------------------
// Laws
// ---------------------------------------------------------------------------------------------

/// The place of a step in the order of all steps.
pub open spec fn position(step: SenderStep) -> int {
    match step {
        SenderStep::RollbackWriteIntent => 0,
        SenderStep::RollbackReadStock => 1,
        SenderStep::RollbackStock => 2,
        SenderStep::RollbackReadTransfers => 3,
        SenderStep::RollbackFailTransfers => 4,
        SenderStep::RollbackBackup => 5,
        SenderStep::RollbackRemoveInfo(k) => 6 + k,
        SenderStep::RollbackRemoveMapping => 300,
        SenderStep::RollbackRemovePsbt => 301,
        SenderStep::RollbackWriteRetry => 302,
        SenderStep::RollbackRemoveRecord => 303,
        SenderStep::ResumeReadPsbt => 400,
        SenderStep::ResumeWriteIntent => 401,
        SenderStep::CommitReadTransfers => 402,
        SenderStep::CommitReadPsbt => 403,
        SenderStep::CommitSend => 404,
        SenderStep::CommitRecheckTransfers => 405,
        SenderStep::CommitWriteStage => 406,
        SenderStep::FinalizeReadTransfers => 407,
        SenderStep::FinalizeFirstBackup => 408,
        SenderStep::FinalizeReadStock => 409,
        SenderStep::FinalizeStock => 410,
        SenderStep::FinalizeSecondBackup => 411,
        SenderStep::FinalizeRemoveMapping => 412,
        SenderStep::FinalizeRemovePsbt => 413,
        SenderStep::FinalizeWriteStage => 414,
        SenderStep::ReadBack => 415,
        SenderStep::CompleteReadTransfers => 416,
        SenderStep::CompleteReadStock => 417,
        SenderStep::CompleteReadLegacyInfo => 418,
        SenderStep::CompleteBackup => 419,
        SenderStep::CompleteReadInfo => 420,
        SenderStep::CompleteWriteInfo => 421,
        SenderStep::CompleteRemoveMarker => 422,
        SenderStep::CompleteWriteStage => 423,
    }
}

/// Every reply moves a job strictly forward: a job never repeats a step, never turns from a rollback
/// to a broadcast or back, and ends after finitely many effects.
pub proof fn law_jobs_only_move_forward(job: SenderJob, reply: SenderReply, next: SenderJob)
    requires
        job.wf(),
        fits(job.step, reply),
        sender_step(job, reply, SenderProgress::Continue(next)),
    ensures
        position(job.step) < position(next.step) <= 423,
        is_rollback(job.step) == is_rollback(next.step),
{
}

/// Whether a step only comes after the wallet's undone state was backed up.
pub open spec fn removes_rollback_evidence(step: SenderStep) -> bool {
    is_rollback(step) && position(step) > position(SenderStep::RollbackBackup)
}

/// A rollback removes no evidence before the remote store holds the clean wallet: the first removal
/// follows an acknowledged backup, and nothing else.
pub proof fn law_rollback_evidence_outlives_the_backup(
    job: SenderJob,
    reply: SenderReply,
    next: SenderJob,
)
    requires
        job.wf(),
        fits(job.step, reply),
        sender_step(job, reply, SenderProgress::Continue(next)),
        removes_rollback_evidence(next.step),
        !removes_rollback_evidence(job.step),
    ensures
        job.step == SenderStep::RollbackBackup,
        reply is Done,
{
}

/// Whether a step only comes after the finalized wallet was backed up.
pub open spec fn removes_broadcast_evidence(step: SenderStep) -> bool {
    position(SenderStep::FinalizeSecondBackup) < position(step)
}

/// A finalized broadcast keeps its signed transaction until the remote store holds the finalized
/// wallet.
pub proof fn law_signed_transaction_outlives_the_backup(
    job: SenderJob,
    reply: SenderReply,
    next: SenderJob,
)
    requires
        job.wf(),
        fits(job.step, reply),
        sender_step(job, reply, SenderProgress::Continue(next)),
        removes_broadcast_evidence(next.step),
        !removes_broadcast_evidence(job.step),
        !is_final_stage(job.record.stage),
    ensures
        job.step == SenderStep::FinalizeSecondBackup,
        reply is Done,
{
}

/// A funding is marked as completed only after its canonical metadata was acknowledged, and its
/// marker removed.
pub proof fn law_completion_follows_durable_metadata(
    job: SenderJob,
    reply: SenderReply,
    next: SenderJob,
)
    requires
        job.wf(),
        fits(job.step, reply),
        sender_step(job, reply, SenderProgress::Continue(next)),
    ensures
        next.step == SenderStep::CompleteRemoveMarker ==> job.step == SenderStep::CompleteWriteInfo
            && reply is Done,
        next.step == SenderStep::CompleteWriteStage ==> job.step == SenderStep::CompleteRemoveMarker
            && next.record.stage == RgbSenderFundingStage::DurablyCompleted,
{
}

/// A failed effect ends the job with an error, but for the removal of what is not there.
pub proof fn law_failures_end_the_job(job: SenderJob, reply: SenderReply, out: SenderProgress)
    requires
        job.wf(),
        fits(job.step, reply),
        sender_step(job, reply, out),
        reply is WalletFailed || (reply matches SenderReply::StoreFailed(e) && !e.not_found),
    ensures
        out matches SenderProgress::Finished(r) && r is Err,
{
}

/// A job never touches more of its record than the stage, until the finalized record is read back.
pub proof fn law_jobs_change_only_the_stage(job: SenderJob, reply: SenderReply, next: SenderJob)
    requires
        job.wf(),
        fits(job.step, reply),
        sender_step(job, reply, SenderProgress::Continue(next)),
        job.step != SenderStep::ReadBack,
    ensures
        next.record == job.record.at(next.record.stage),
{
}

/// Startup never removes a record before its rollback was backed up, and never runs a job against a
/// channel that is not durable, but a rollback.
pub proof fn law_reconciliation_is_fail_closed(
    record: RgbSenderFundingRecord,
    durable: bool,
    known: Option<bool>,
    out: SenderReconciliation,
    job: SenderJob,
)
    requires
        acts(record, durable, known, out),
        out == (SenderReconciliation::Run { progress: SenderProgress::Continue(job), known }),
    ensures
        !durable ==> is_rollback(job.step) && known != Some(true),
        durable ==> !is_rollback(job.step),
{
}

/// Whether a reply lists transfers, all in one status.
pub open spec fn all_are(reply: SenderReply, status: TransferStatus) -> bool {
    reply matches SenderReply::Transfers(v) && v@.len() > 0 && forall|i: int|
        0 <= i < v@.len() ==> #[trigger] v@[i] == status
}

/// Whether a reply lists transfers that are all out: the chain is waited for, or was.
pub open spec fn all_out(reply: SenderReply) -> bool {
    reply matches SenderReply::Transfers(v) && v@.len() > 0 && forall|i: int|
        0 <= i < v@.len() ==> #[trigger] v@[i] == TransferStatus::WaitingConfirmations || v@[i]
            == TransferStatus::WaitingSafeHeight || v@[i] == TransferStatus::Settled
}

/// A rollback skips nothing: its intent is journalled, only its own stock operation is undone, its
/// transfers are failed unless they were already, the wallet is backed up, every metadata entry is
/// removed in turn, then the marker of a known channel and the signed transaction; the record itself goes
/// last.
pub proof fn law_rollbacks_skip_nothing(job: SenderJob, reply: SenderReply, next: SenderJob)
    requires
        job.wf(),
        fits(job.step, reply),
        sender_step(job, reply, SenderProgress::Continue(next)),
    ensures
        ({
            let txid = job.record.funding_txid@;
            let known = job.record.final_channel_id is Some;
            match next.step {
                SenderStep::RollbackWriteIntent => false,
                SenderStep::RollbackReadStock => job.step is RollbackWriteIntent && reply is Done,
                SenderStep::RollbackStock => job.step is RollbackReadStock && (
                reply matches SenderReply::Stock(Some(op)) && op@ == txid),
                SenderStep::RollbackReadTransfers => (job.step is RollbackReadStock && reply
                    == SenderReply::Stock(None)) || (job.step is RollbackStock && reply is Done),
                SenderStep::RollbackFailTransfers => job.step is RollbackReadTransfers && all_are(
                    reply,
                    TransferStatus::Initiated,
                ),
                SenderStep::RollbackBackup => (job.step is RollbackReadTransfers && all_are(
                    reply,
                    TransferStatus::Failed,
                )) || (job.step is RollbackFailTransfers && reply == SenderReply::Flag(true)),
                SenderStep::RollbackRemoveInfo(k) => (k == 0 && job.step is RollbackBackup
                    && reply is Done) || (k > 0 && job.step == SenderStep::RollbackRemoveInfo(
                    (k - 1) as u8,
                ) && (k >= 2 ==> known)),
                SenderStep::RollbackRemoveMapping => known && job.step
                    == SenderStep::RollbackRemoveInfo(3),
                SenderStep::RollbackRemovePsbt => if known {
                    job.step is RollbackRemoveMapping
                } else {
                    job.step == SenderStep::RollbackRemoveInfo(1)
                },
                SenderStep::RollbackWriteRetry => job.step is RollbackRemovePsbt
                    && next.record.stage is RetryRequired,
                SenderStep::RollbackRemoveRecord => job.step is RollbackWriteRetry && reply is Done,
                _ => true,
            }
        }),
{
}

/// Whatever job ends well ends with the last of its steps: a rollback by removing the record, a
/// completion by journalling it, a finalization by journalling that; or there was nothing left to do.
pub proof fn law_jobs_end_with_their_last_step(job: SenderJob, reply: SenderReply)
    requires
        job.wf(),
        fits(job.step, reply),
        sender_step(job, reply, SenderProgress::Finished(Ok::<(), RgbLibError>(()))),
    ensures
        ({
            ||| job.step is RollbackRemoveRecord && reply is Done
            ||| job.step is CompleteWriteStage && reply is Done
            ||| job.step is FinalizeWriteStage && reply is Done && !job.then_complete
            ||| (job.step is ResumeReadPsbt || job.step is ResumeWriteIntent) && (
            job.record.stage is Finalized || job.record.stage is DurablyCompleted)
                && !job.then_complete
            ||| job.step is ReadBack && (reply matches SenderReply::Record(r)
                && r.stage is DurablyCompleted)
        }),
{
}

/// A broadcast skips nothing: the stored transaction is checked before the intent is journalled and
/// before it is sent, it is sent only while its transfers are initiated, and the broadcast counts as
/// committed only once all its transfers are out.
pub proof fn law_broadcasts_skip_nothing(job: SenderJob, reply: SenderReply, next: SenderJob)
    requires
        job.wf(),
        fits(job.step, reply),
        sender_step(job, reply, SenderProgress::Continue(next)),
    ensures
        ({
            let txid = job.record.funding_txid@;
            match next.step {
                SenderStep::ResumeReadPsbt => false,
                SenderStep::ResumeWriteIntent => job.step is ResumeReadPsbt && reply is Bytes && (
                job.record.stage is HandoffReady || job.record.stage is HandedToLdk
                    || job.record.stage is BroadcastSafeObserved) && next.record.stage is Broadcasting,
                SenderStep::CommitReadTransfers => (job.step is ResumeWriteIntent && reply is Done)
                    || (job.step is ResumeReadPsbt && reply is Bytes && !(
                job.record.stage is HandoffReady) && !(job.record.stage is HandedToLdk) && !(
                job.record.stage is BroadcastSafeObserved)),
                SenderStep::CommitReadPsbt => job.step is CommitReadTransfers && all_are(
                    reply,
                    TransferStatus::Initiated,
                ),
                SenderStep::CommitSend => job.step is CommitReadPsbt && reply is Bytes
                    && next.psbt is Some && signed_psbt_checked(
                    txid,
                    reply->Bytes_0@,
                    Ok(next.psbt->0),
                ),
                SenderStep::CommitRecheckTransfers => (job.step is CommitReadTransfers && !all_are(
                    reply,
                    TransferStatus::Initiated,
                )) || (job.step is CommitSend && (reply matches SenderReply::Txid(t) && t@ == txid)),
                SenderStep::CommitWriteStage => job.step is CommitRecheckTransfers && all_out(reply)
                    && next.record.stage is BroadcastCommitted,
                SenderStep::FinalizeReadTransfers => job.step is CommitWriteStage && reply is Done,
                _ => true,
            }
        }),
{
}

/// A finalization skips nothing: the transfers are out, the wallet is backed up, only the funding's own
/// stock operation is finalized, the wallet is backed up again, then the marker of a known channel and the
/// signed transaction go, and the record is journalled as finalized.
pub proof fn law_finalizations_skip_nothing(job: SenderJob, reply: SenderReply, next: SenderJob)
    requires
        job.wf(),
        fits(job.step, reply),
        sender_step(job, reply, SenderProgress::Continue(next)),
    ensures
        ({
            let txid = job.record.funding_txid@;
            let known = job.record.final_channel_id is Some;
            match next.step {
                SenderStep::FinalizeFirstBackup => job.step is FinalizeReadTransfers && all_out(reply),
                SenderStep::FinalizeReadStock => job.step is FinalizeFirstBackup && reply is Done,
                SenderStep::FinalizeStock => job.step is FinalizeReadStock && (
                reply matches SenderReply::Stock(Some(op)) && op@ == txid),
                SenderStep::FinalizeSecondBackup => (job.step is FinalizeReadStock && reply
                    == SenderReply::Stock(None)) || (job.step is FinalizeStock && reply is Done),
                SenderStep::FinalizeRemoveMapping => known && job.step is FinalizeSecondBackup
                    && reply is Done,
                SenderStep::FinalizeRemovePsbt => if known {
                    job.step is FinalizeRemoveMapping
                } else {
                    job.step is FinalizeSecondBackup && reply is Done
                },
                SenderStep::FinalizeWriteStage => job.step is FinalizeRemovePsbt
                    && next.record.stage is Finalized,
                SenderStep::ReadBack => job.then_complete && ((job.step is FinalizeWriteStage
                    && reply is Done) || ((job.step is ResumeReadPsbt || job.step is ResumeWriteIntent)
                    && (job.record.stage is Finalized || job.record.stage is DurablyCompleted))),
                _ => true,
            }
        }),
{
}

/// A completion skips nothing: the record that it completes is the journalled one of this transaction,
/// its transfers are out and its stock operation is gone, the allocation of the record, or of the store
/// where the record has none, is what the channel ends up with, and the wallet is backed up before that is
/// written.
pub proof fn law_completions_skip_nothing(job: SenderJob, reply: SenderReply, next: SenderJob)
    requires
        job.wf(),
        fits(job.step, reply),
        sender_step(job, reply, SenderProgress::Continue(next)),
    ensures
        match next.step {
            SenderStep::CompleteReadTransfers => job.step is ReadBack && (
            reply matches SenderReply::Record(r) && next.record == r && r.funding_txid@
                == job.record.funding_txid@ && r.stage is Finalized && r.final_channel_id is Some),
            SenderStep::CompleteReadStock => job.step is CompleteReadTransfers && all_out(reply),
            SenderStep::CompleteReadLegacyInfo => job.step is CompleteReadStock && reply
                == SenderReply::Stock(None) && job.record.rgb_info is None,
            SenderStep::CompleteBackup => (job.step is CompleteReadStock && reply
                == SenderReply::Stock(None) && job.record.rgb_info is Some && next.info
                == job.record.rgb_info) || (job.step is CompleteReadLegacyInfo && (
            reply matches SenderReply::Info(info) && next.info == Some(info))),
            SenderStep::CompleteReadInfo => job.step is CompleteBackup && reply is Done && next.info
                == job.info,
            SenderStep::CompleteWriteInfo => job.step is CompleteReadInfo && next.info is Some
                && next.info->0.local_rgb_amount + next.info->0.remote_rgb_amount
                == job.info->0.local_rgb_amount + job.info->0.remote_rgb_amount
                && next.info->0.contract_id@ == job.info->0.contract_id@,
            SenderStep::CompleteRemoveMarker => job.step is CompleteWriteInfo && reply is Done,
            SenderStep::CompleteWriteStage => job.step is CompleteRemoveMarker
                && next.record.stage is DurablyCompleted,
            _ => true,
        },
{
}

/// A good reply never fails a job whose record is in order: the wallet's and the store's acknowledgements
/// take it on.
pub proof fn law_acknowledged_steps_go_on(job: SenderJob, reply: SenderReply, out: SenderProgress)
    requires
        job.wf(),
        fits(job.step, reply),
        sender_step(job, reply, out),
        job.record.well_formed(),
        job.record.final_channel_id is Some,
        job.info is Some ==> job.info->0.local_rgb_amount + job.info->0.remote_rgb_amount <= u64::MAX,
        reply is Done || reply == SenderReply::Stock(None) || reply == SenderReply::Flag(true),
    ensures
        !(out matches SenderProgress::Finished(Err(_))),
{
}

/// What each step does is done to the job's own funding: its transaction, its batch, its channels; and a
/// signed transaction is sent by the delivery that the record says.
pub proof fn law_effects_touch_only_their_funding(job: SenderJob)
    requires
        job.wf(),
    ensures
        ({
            let r = job.record;
            match effect_of(job) {
                SenderEffect::WriteRecord(w) => w == r,
                SenderEffect::ReadRecord(t) => t == r.funding_txid,
                SenderEffect::RemoveRecord(t) => t == r.funding_txid && job.step is RollbackRemoveRecord,
                SenderEffect::ReadStock => true,
                SenderEffect::RollbackStock(t) => t == r.funding_txid && job.step is RollbackStock,
                SenderEffect::FinalizeStock(t) => t == r.funding_txid && job.step is FinalizeStock,
                SenderEffect::ListTransfers(t) => t == r.funding_txid,
                SenderEffect::FailTransfers(idx) => idx == r.batch_transfer_idx
                    && job.step is RollbackFailTransfers,
                SenderEffect::Backup => job.step is RollbackBackup || job.step is FinalizeFirstBackup
                    || job.step is FinalizeSecondBackup || job.step is CompleteBackup,
                SenderEffect::RemoveChannelInfo { channel_id, .. } => job.step is RollbackRemoveInfo
                    && (channel_id == r.temporary_channel_id || r.final_channel_id == Some(
                    channel_id,
                )),
                SenderEffect::ReadChannelInfo(id) => r.final_channel_id == Some(id),
                SenderEffect::WriteChannelInfo(id, info) => r.final_channel_id == Some(id)
                    && job.info == Some(info),
                SenderEffect::RemovePendingFunding(id) => r.final_channel_id == Some(id),
                SenderEffect::RemovePsbt(t) => t == r.funding_txid,
                SenderEffect::ReadPsbt(t) => t == r.funding_txid,
                SenderEffect::SendEnd { funding_txid, signed_psbt, delivery } => funding_txid
                    == r.funding_txid && job.psbt == Some(signed_psbt) && delivery
                    == r.consignment_delivery,
            }
        }),
        job.step is RollbackBackup || job.step is FinalizeFirstBackup
            || job.step is FinalizeSecondBackup || job.step is CompleteBackup ==> effect_of(
            job,
        ) is Backup,
        job.step is RollbackRemoveMapping || job.step is FinalizeRemoveMapping
            || job.step is CompleteRemoveMarker ==> effect_of(job) is RemovePendingFunding,
        job.step is CommitSend ==> effect_of(job) is SendEnd,
        job.step is RollbackFailTransfers ==> effect_of(job) is FailTransfers,
        job.step is RollbackRemoveRecord ==> effect_of(job) is RemoveRecord,
        job.step is CompleteWriteInfo ==> effect_of(job) is WriteChannelInfo,
{
}

/// A rollback removes the settled and the pending metadata of the temporary channel, and of the final one
/// where it is known: four different entries, or two.
pub proof fn law_rollbacks_remove_every_entry(job: SenderJob, a: u8, b: u8)
    requires
        a < b < 4,
        job.record.final_channel_id is Some,
        job.record.final_channel_id->0@ != job.record.temporary_channel_id@,
    ensures
        effect_of(job.to(SenderStep::RollbackRemoveInfo(a))) != effect_of(
            job.to(SenderStep::RollbackRemoveInfo(b)),
        ),
        abandoned_entries(job.record) == 4,
        abandoned_entries(RgbSenderFundingRecord { final_channel_id: None, ..job.record }) == 2,
        effect_of(job.to(SenderStep::RollbackRemoveInfo(0)))->channel_id
            == job.record.temporary_channel_id,
        effect_of(job.to(SenderStep::RollbackRemoveInfo(1)))->channel_id
            == job.record.temporary_channel_id,
{
}

/// A record is trusted only where it is valid and stands under its own transaction; one that is missing is
/// none, and one that cannot be read is an error.
pub proof fn law_journal_records_are_trusted_by_their_key(
    key: Seq<char>,
    stored: StoredRecord,
    r: Result<Option<RgbSenderFundingRecord>, RgbLibError>,
)
    requires
        optional_record(key, stored, r),
    ensures
        r matches Ok(Some(record)) ==> stored == StoredRecord::Decoded(record) && record.valid()
            && record.funding_txid@ == key,
        (stored matches StoredRecord::Decoded(record) && record.valid() && record.funding_txid@ == key)
            ==> (r matches Ok(Some(_))),
        (stored matches StoredRecord::Decoded(record) && !(record.valid() && record.funding_txid@
            == key)) ==> r is Err,
        stored is Undecodable ==> r is Err,
        (stored matches StoredRecord::Unread(e) && e.not_found) ==> (r matches Ok(None)),
        (stored matches StoredRecord::Unread(e) && !e.not_found) ==> r is Err,
{
}

/// A channel counts as durable only where the channel manager has it funded under its final ID and by
/// this very transaction.
pub proof fn law_durable_channels_match_in_full(
    record: RgbSenderFundingRecord,
    funded_channels: Vec<FundedChannel>,
    r: bool,
    i: int,
)
    requires
        is_sender_durable(record, funded_channels, r),
    ensures
        record.final_channel_id is None ==> !r,
        0 <= i < funded_channels@.len() && record.final_channel_id is Some
            && funded_channels@[i].channel_id@ == record.final_channel_id->0@
            && funded_channels@[i].funding_txid is Some && funded_channels@[i].funding_txid->0@
            == record.funding_txid@ ==> r,
        r ==> exists|k: int|
            0 <= k < funded_channels@.len() && (#[trigger] funded_channels@[k]).channel_id@
                == record.final_channel_id->0@ && funded_channels@[k].funding_txid is Some
                && funded_channels@[k].funding_txid->0@ == record.funding_txid@,
{
    if 0 <= i < funded_channels@.len() && record.final_channel_id is Some
        && funded_channels@[i].channel_id@ == record.final_channel_id->0@
        && funded_channels@[i].funding_txid is Some && funded_channels@[i].funding_txid->0@
        == record.funding_txid@ {
        assert(is_channel_of(funded_channels@[i], record));
    }
    if r {
        let k = choose|k: int|
            0 <= k < funded_channels@.len() && is_channel_of(#[trigger] funded_channels@[k], record);
        assert(funded_channels@[k].channel_id@ == record.final_channel_id->0@);
    }
}

/// A rollback begins by journalling its intent, a resumption by checking the stored transaction of a
/// channel on record; a resumption is refused without that channel, and from the stages that nothing can
/// be resumed from.
pub proof fn law_jobs_begin_at_their_first_step(
    record: RgbSenderFundingRecord,
    durable: bool,
    then_complete: bool,
    undone: SenderProgress,
    resumed: SenderProgress,
)
    requires
        record.valid(),
        record.final_channel_id is Some,
        rolls_back(record, undone),
        resumes(record, durable, then_complete, resumed),
    ensures
        undone matches SenderProgress::Continue(job) && job.step is RollbackWriteIntent
            && job.record.stage is RollingBack && job.record.funding_txid == record.funding_txid
            && job.record.batch_transfer_idx == record.batch_transfer_idx,
        !durable ==> (resumed matches SenderProgress::Finished(Err(_))),
        durable && (record.stage is HandoffReady || record.stage is HandedToLdk
            || record.stage is BroadcastSafeObserved || record.stage is Broadcasting
            || record.stage is BroadcastCommitted) ==> (resumed matches SenderProgress::Continue(job)
            && job.step is ResumeReadPsbt && job.record == record && job.then_complete
            == then_complete),
        record.stage is Preparing || record.stage is StockPromoted || record.stage is RollingBack
            || record.stage is RetryRequired ==> (resumed matches SenderProgress::Finished(Err(_))),
        durable && (record.stage is Finalized || record.stage is DurablyCompleted) && then_complete ==> (
        resumed matches SenderProgress::Continue(job) && job.step is ReadBack),
{
}

/// A startup settles a completed record of a durable channel, completes a finalized one, carries one on
/// whose channel is durable, undoes one that nothing can have broadcast, and otherwise asks the chain
/// before anything.
pub proof fn law_startup_reconciles_every_stage(
    record: RgbSenderFundingRecord,
    durable: bool,
    out: SenderReconciliation,
)
    requires
        reconciles(record, durable, out),
        record.valid(),
    ensures
        record.stage is RetryRequired ==> out is RemoveRecord,
        durable && record.stage is DurablyCompleted ==> out is Settled,
        durable && record.stage is Finalized ==> (out matches SenderReconciliation::Run {
            progress: SenderProgress::Continue(job),
            ..
        } && job.step is CompleteReadTransfers && job.record == record),
        durable && (record.stage is Broadcasting || record.stage is BroadcastCommitted) ==> (
        out matches SenderReconciliation::Run { progress: SenderProgress::Continue(job), .. }
            && job.step is CommitReadTransfers && job.then_complete),
        durable && (record.stage is HandoffReady || record.stage is HandedToLdk
            || record.stage is BroadcastSafeObserved) ==> (out matches SenderReconciliation::Run {
            progress: SenderProgress::Continue(job),
            ..
        } && job.step is ResumeReadPsbt && job.then_complete),
        !durable && (record.stage is Preparing || record.stage is StockPromoted
            || record.stage is RollingBack || (record.manual_broadcast && (record.stage is HandoffReady
            || record.stage is HandedToLdk || record.stage is BroadcastSafeObserved))) ==> (
        out matches SenderReconciliation::Run { progress: SenderProgress::Continue(job), .. }
            && job.step is RollbackWriteIntent),
        !durable && (record.stage is Broadcasting || record.stage is BroadcastCommitted
            || record.stage is Finalized || record.stage is DurablyCompleted) ==> out is Observe,
        !durable && !record.manual_broadcast && (record.stage is HandoffReady
            || record.stage is HandedToLdk || record.stage is BroadcastSafeObserved)
            ==> out is Observe,
{
}

/// After the chain was asked, a record whose channel is missing is never touched where the chain knows
/// its transaction or could not be asked; it is reported.
pub proof fn law_observed_records_are_reported(
    record: RgbSenderFundingRecord,
    durable: bool,
    observation: Result<bool, String>,
    out: SenderReconciliation,
)
    requires
        reconciles_observed(record, durable, observation, out),
    ensures
        observation is Err ==> out is Report,
        !durable && observation == Ok::<bool, String>(true) ==> out is Report,
        out matches SenderReconciliation::Report(report) ==> report.funding_txid == record.funding_txid
            && report.channel_is_durable == durable,
{
}

/// What is left of a job is reported exactly where it failed, with its error.
pub proof fn law_failed_jobs_are_reported(
    record: RgbSenderFundingRecord,
    durable: bool,
    known: Option<bool>,
    result: Result<(), String>,
    r: Option<RgbFundingRecoveryState>,
)
    requires
        is_reconciled(record, durable, known, result, r),
    ensures
        r is Some <==> result is Err,
        result matches Err(e) ==> r->0.error == Some(e) && r->0.funding_txid == record.funding_txid
            && r->0.transaction_is_known == known && r->0.channel_is_durable == durable,
{
}

} // verus!
