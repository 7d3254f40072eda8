//! Carrying an interrupted receiver funding on, one outside effect at a time.
//!
//! A [`ReceiverJob`] says which effect comes next; the caller performs it against the wallet and the
//! store and hands the reply back. The job decides from the reply what follows.

use vstd::pervasive::unreached;
use vstd::prelude::*;
use vstd::string::*;

use crate::error::{internal, is_internal, rgb_sender_funding_error, RgbLibError};
use crate::kv_store::StoreError;
use crate::receiver_funding::{
    bad_receiver_txid, receiver_final_channel_id, receiver_recovery_action,
    rgb_receiver_recovery_action, FundingAcceptanceStage, PendingFundingAcceptance,
    RgbReceiverRecoveryAction,
};
use crate::recovery::{
    contains_id, is_receiver_report, listed, rgb_receiver_funding_recovery_view, RgbFundingRecoveryState,
};
use crate::sender_funding::RgbInfo;
use crate::sender_recovery::{canonical, persist_canonical_rgb_channel_info};
use crate::text::{copy, fixed_hex, join2, join3, join5, same};

verus! {

/// Where a job stands: the effect that comes next.
#[derive(Clone, Copy, Debug, PartialEq, Eq, Structural)]
pub enum ReceiverStep {
    /// Rollback: the intent is journalled before anything is undone.
    WriteRollingBack,
    ReadStock,
    RollbackStock,
    RollbackBackup,
    /// Removes what the acceptance left behind.
    RemoveArtifact(u8),
    WriteRetryRequired,
    RemoveRolledBackJournal,
    /// Finalizing.
    WriteFinalizing,
    FinalizeTransfer,
    WriteFinalized,
    /// Completing: the consignment is retained before the transfer is checked again.
    RetainConsignment,
    CompleteTransfer,
    CompleteBackup,
    ReadInfo,
    WriteInfo,
    /// Removes what the temporary channel left behind.
    RemoveTemporary(u8),
    RemoveCompletedJournal,
}

/// A job in progress.
#[derive(Debug)]
pub struct ReceiverJob {
    /// The record, at the stage that was last journalled or is about to be.
    pub record: PendingFundingAcceptance,
    /// The final channel ID.
    pub channel_id: String,
    /// The channel metadata that completion is to keep.
    pub info: Option<RgbInfo>,
    pub step: ReceiverStep,
}

/// What the caller got back.
#[derive(Debug)]
pub enum ReceiverReply {
    Done,
    StoreFailed(StoreError),
    WalletFailed(RgbLibError),
    /// The pending stock operation, if any.
    Stock(Option<String>),
    Info(RgbInfo),
}

/// What follows from a reply.
#[derive(Debug)]
pub enum ReceiverProgress {
    Continue(ReceiverJob),
    Finished(Result<(), RgbLibError>),
}

/// Where an entry stands that a job removes.
#[derive(Clone, Copy, Debug, PartialEq, Eq, Structural)]
pub enum ArtifactSpace {
    ChannelInfo,
    PendingChannelInfo,
    Consignment,
}

/// How a stage is written in messages.
pub open spec fn stage_name(stage: FundingAcceptanceStage) -> Seq<char> {
    match stage {
        FundingAcceptanceStage::Validating => "Validating"@,
        FundingAcceptanceStage::Prepared => "Prepared"@,
        FundingAcceptanceStage::Promoted => "Promoted"@,
        FundingAcceptanceStage::Finalizing => "Finalizing"@,
        FundingAcceptanceStage::Finalized => "Finalized"@,
        FundingAcceptanceStage::RollingBack => "RollingBack"@,
        FundingAcceptanceStage::RetryRequired => "RetryRequired"@,
    }
}

fn name_of(stage: FundingAcceptanceStage) -> (r: &'static str)
    ensures
        r@ == stage_name(stage),
{
    match stage {
        FundingAcceptanceStage::Validating => "Validating",
        FundingAcceptanceStage::Prepared => "Prepared",
        FundingAcceptanceStage::Promoted => "Promoted",
        FundingAcceptanceStage::Finalizing => "Finalizing",
        FundingAcceptanceStage::Finalized => "Finalized",
        FundingAcceptanceStage::RollingBack => "RollingBack",
        FundingAcceptanceStage::RetryRequired => "RetryRequired",
    }
}

// ---------------------------------------------------------------------------------------------
// Model
// ---------------------------------------------------------------------------------------------

/// The entries that a rollback removes, in order.
pub open spec fn abandoned(job: ReceiverJob, k: u8) -> (ArtifactSpace, String) {
    let temporary = job.record.temporary_channel_id;
    match k {
        0 => (ArtifactSpace::ChannelInfo, temporary),
        1 => (ArtifactSpace::PendingChannelInfo, temporary),
        2 => (ArtifactSpace::ChannelInfo, job.channel_id),
        3 => (ArtifactSpace::PendingChannelInfo, job.channel_id),
        4 => (ArtifactSpace::Consignment, temporary),
        5 => (ArtifactSpace::Consignment, job.record.funding_txid),
        _ => (ArtifactSpace::Consignment, job.channel_id),
    }
}

/// The entries that a completion removes, in order.
pub open spec fn superseded(job: ReceiverJob, k: u8) -> (ArtifactSpace, String) {
    let temporary = job.record.temporary_channel_id;
    match k {
        0 => (ArtifactSpace::ChannelInfo, temporary),
        1 => (ArtifactSpace::PendingChannelInfo, temporary),
        2 => (ArtifactSpace::Consignment, temporary),
        3 => (ArtifactSpace::Consignment, job.record.funding_txid),
        _ => (ArtifactSpace::Consignment, job.channel_id),
    }
}

impl ReceiverJob {
    /// The values that the job's step works on are there.
    pub open spec fn wf(self) -> bool {
        match self.step {
            ReceiverStep::RemoveArtifact(k) => k < 7,
            ReceiverStep::RemoveTemporary(k) => k < 5,
            ReceiverStep::FinalizeTransfer
            | ReceiverStep::WriteFinalized
            | ReceiverStep::RetainConsignment
            | ReceiverStep::CompleteTransfer
            | ReceiverStep::CompleteBackup
            | ReceiverStep::ReadInfo => self.record.consignment is Some
                && self.record.rgb_info is Some,
            ReceiverStep::WriteInfo => self.info is Some,
            _ => true,
        }
    }

    pub open spec fn to(self, step: ReceiverStep) -> Self {
        ReceiverJob { step, ..self }
    }

    /// The same job with its record at another stage.
    pub open spec fn staged(self, stage: FundingAcceptanceStage, step: ReceiverStep) -> Self {
        ReceiverJob { record: self.record.at(stage), step, ..self }
    }
}

/// Whether a reply answers the effect of a step.
pub open spec fn receiver_fits(step: ReceiverStep, reply: ReceiverReply) -> bool {
    match step {
        ReceiverStep::WriteRollingBack
        | ReceiverStep::RemoveArtifact(_)
        | ReceiverStep::WriteRetryRequired
        | ReceiverStep::RemoveRolledBackJournal
        | ReceiverStep::WriteFinalizing
        | ReceiverStep::WriteFinalized
        | ReceiverStep::RetainConsignment
        | ReceiverStep::WriteInfo
        | ReceiverStep::RemoveTemporary(_)
        | ReceiverStep::RemoveCompletedJournal => reply is Done || reply is StoreFailed,
        ReceiverStep::ReadStock => reply is Stock || reply is WalletFailed,
        ReceiverStep::RollbackStock
        | ReceiverStep::RollbackBackup
        | ReceiverStep::FinalizeTransfer
        | ReceiverStep::CompleteTransfer
        | ReceiverStep::CompleteBackup => reply is Done || reply is WalletFailed,
        ReceiverStep::ReadInfo => reply is Info || reply is StoreFailed,
    }
}

pub open spec fn goes(out: ReceiverProgress, job: ReceiverJob) -> bool {
    out == ReceiverProgress::Continue(job)
}

pub open spec fn ends(out: ReceiverProgress) -> bool {
    out == ReceiverProgress::Finished(Ok::<(), RgbLibError>(()))
}

pub open spec fn errs(out: ReceiverProgress, e: RgbLibError) -> bool {
    out == ReceiverProgress::Finished(Err::<(), RgbLibError>(e))
}

pub open spec fn fails(out: ReceiverProgress, details: Seq<char>) -> bool {
    out matches ReceiverProgress::Finished(Err(e)) && is_internal(e, details)
}

/// After a write or a removal: on, or failed. A removal counts what was not there as removed.
pub open spec fn after_store(
    reply: ReceiverReply,
    out: ReceiverProgress,
    removal: bool,
    context: Seq<char>,
    on: bool,
) -> bool {
    match reply {
        ReceiverReply::StoreFailed(e) => if removal && e.not_found {
            on
        } else {
            fails(out, context + ": "@ + e.text@)
        },
        _ => on,
    }
}

/// After a wallet call: on, or failed with the wallet's own error.
pub open spec fn after_wallet(reply: ReceiverReply, out: ReceiverProgress, on: bool) -> bool {
    match reply {
        ReceiverReply::WalletFailed(e) => errs(out, e),
        _ => on,
    }
}

/// The start of a rollback.
pub open spec fn rollback_starts(job: ReceiverJob, out: ReceiverProgress) -> bool {
    if job.record.stage == FundingAcceptanceStage::RollingBack {
        goes(out, job.to(ReceiverStep::ReadStock))
    } else {
        goes(
            out,
            job.staged(FundingAcceptanceStage::RollingBack, ReceiverStep::WriteRollingBack),
        )
    }
}

/// The start of a finalization.
pub open spec fn finalization_starts(job: ReceiverJob, out: ReceiverProgress) -> bool {
    if job.record.stage == FundingAcceptanceStage::Finalizing {
        transfers(job, out)
    } else {
        goes(
            out,
            job.staged(FundingAcceptanceStage::Finalizing, ReceiverStep::WriteFinalizing),
        )
    }
}

/// The transfer is made sure of, where the record has what that takes.
pub open spec fn transfers(job: ReceiverJob, out: ReceiverProgress) -> bool {
    let txid = job.record.funding_txid@;
    if job.record.consignment is None {
        fails(out, "receiver funding '"@ + txid + "' is missing its durable consignment"@)
    } else if job.record.rgb_info is None {
        fails(out, "receiver funding '"@ + txid + "' is missing durable channel metadata"@)
    } else {
        goes(out, job.to(ReceiverStep::FinalizeTransfer))
    }
}

/// The start of a completion.
pub open spec fn completion_starts(job: ReceiverJob, out: ReceiverProgress) -> bool {
    let txid = job.record.funding_txid@;
    if job.record.stage != FundingAcceptanceStage::Finalized {
        fails(
            out,
            "receiver funding '"@ + txid + "' cannot complete from stage "@ + stage_name(
                job.record.stage,
            ),
        )
    } else if job.record.consignment is None {
        fails(out, "finalized receiver funding '"@ + txid + "' is missing its consignment"@)
    } else if job.record.rgb_info is None {
        fails(out, "finalized receiver funding '"@ + txid + "' is missing channel metadata"@)
    } else {
        goes(out, job.to(ReceiverStep::RetainConsignment))
    }
}

/// What follows from a reply during a rollback.
pub open spec fn rollback_step(
    job: ReceiverJob,
    reply: ReceiverReply,
    out: ReceiverProgress,
) -> bool {
    let txid = job.record.funding_txid@;
    match job.step {
        ReceiverStep::WriteRollingBack => after_store(
            reply,
            out,
            false,
            "cannot persist RGB receiver funding stage"@,
            goes(out, job.to(ReceiverStep::ReadStock)),
        ),
        ReceiverStep::ReadStock => match reply {
            ReceiverReply::Stock(None) => goes(out, job.to(ReceiverStep::RollbackBackup)),
            ReceiverReply::Stock(Some(op)) => if op@ == txid {
                goes(out, job.to(ReceiverStep::RollbackStock))
            } else {
                fails(
                    out,
                    "receiver funding '"@ + txid + "' cannot roll back RGB operation '"@ + op@
                        + "'"@,
                )
            },
            _ => after_wallet(reply, out, false),
        },
        ReceiverStep::RollbackStock => after_wallet(
            reply,
            out,
            goes(out, job.to(ReceiverStep::RollbackBackup)),
        ),
        ReceiverStep::RollbackBackup => after_wallet(
            reply,
            out,
            goes(out, job.to(ReceiverStep::RemoveArtifact(0))),
        ),
        ReceiverStep::RemoveArtifact(k) => after_store(
            reply,
            out,
            true,
            "cannot clean finalized RGB receiver recovery artifact"@,
            if k < 6 {
                goes(out, job.to(ReceiverStep::RemoveArtifact((k + 1) as u8)))
            } else {
                goes(
                    out,
                    job.staged(
                        FundingAcceptanceStage::RetryRequired,
                        ReceiverStep::WriteRetryRequired,
                    ),
                )
            },
        ),
        ReceiverStep::WriteRetryRequired => after_store(
            reply,
            out,
            false,
            "cannot persist RGB receiver funding stage"@,
            goes(out, job.to(ReceiverStep::RemoveRolledBackJournal)),
        ),
        ReceiverStep::RemoveRolledBackJournal => after_store(
            reply,
            out,
            true,
            "cannot remove resolved RGB receiver journal"@,
            ends(out),
        ),
        _ => false,
    }
}

/// What follows from a reply during a finalization.
pub open spec fn finalize_step(
    job: ReceiverJob,
    reply: ReceiverReply,
    out: ReceiverProgress,
) -> bool {
    match job.step {
        ReceiverStep::WriteFinalizing => after_store(
            reply,
            out,
            false,
            "cannot persist RGB receiver funding stage"@,
            transfers(job, out),
        ),
        ReceiverStep::FinalizeTransfer => after_wallet(
            reply,
            out,
            goes(
                out,
                job.staged(FundingAcceptanceStage::Finalized, ReceiverStep::WriteFinalized),
            ),
        ),
        ReceiverStep::WriteFinalized => after_store(
            reply,
            out,
            false,
            "cannot persist RGB receiver funding stage"@,
            completion_starts(job, out),
        ),
        _ => false,
    }
}

/// The stored metadata is looked at: on with what is to be kept, or failed.
pub open spec fn info_read(
    job: ReceiverJob,
    found: Result<RgbInfo, StoreError>,
    out: ReceiverProgress,
) -> bool {
    exists|r: Result<RgbInfo, RgbLibError>|
        #[trigger] canonical(job.channel_id@, job.record.rgb_info->0, found, r) && match r {
            Ok(info) => goes(
                out,
                ReceiverJob { info: Some(info), step: ReceiverStep::WriteInfo, ..job },
            ),
            Err(e) => errs(out, e),
        }
}

/// What follows from a reply during a completion.
pub open spec fn complete_step(
    job: ReceiverJob,
    reply: ReceiverReply,
    out: ReceiverProgress,
) -> bool {
    match job.step {
        ReceiverStep::RetainConsignment => after_store(
            reply,
            out,
            false,
            "cannot retain finalized receiver consignment for wallet recovery"@,
            goes(out, job.to(ReceiverStep::CompleteTransfer)),
        ),
        ReceiverStep::CompleteTransfer => after_wallet(
            reply,
            out,
            goes(out, job.to(ReceiverStep::CompleteBackup)),
        ),
        ReceiverStep::CompleteBackup => after_wallet(
            reply,
            out,
            goes(out, job.to(ReceiverStep::ReadInfo)),
        ),
        ReceiverStep::ReadInfo => match reply {
            ReceiverReply::Info(info) => info_read(job, Ok::<RgbInfo, StoreError>(info), out),
            ReceiverReply::StoreFailed(e) => info_read(job, Err::<RgbInfo, StoreError>(e), out),
            _ => false,
        },
        ReceiverStep::WriteInfo => after_store(
            reply,
            out,
            false,
            "canonical RGB channel metadata was not acknowledged by VSS"@,
            goes(out, job.to(ReceiverStep::RemoveTemporary(0))),
        ),
        ReceiverStep::RemoveTemporary(k) => after_store(
            reply,
            out,
            true,
            "cannot clean finalized RGB receiver recovery artifact"@,
            if k < 4 {
                goes(out, job.to(ReceiverStep::RemoveTemporary((k + 1) as u8)))
            } else {
                goes(out, job.to(ReceiverStep::RemoveCompletedJournal))
            },
        ),
        ReceiverStep::RemoveCompletedJournal => after_store(
            reply,
            out,
            false,
            "cannot remove finalized RGB receiver journal"@,
            ends(out),
        ),
        _ => false,
    }
}

/// What follows from a reply.
pub open spec fn receiver_next(
    job: ReceiverJob,
    reply: ReceiverReply,
    out: ReceiverProgress,
) -> bool {
    match job.step {
        ReceiverStep::WriteRollingBack
        | ReceiverStep::ReadStock
        | ReceiverStep::RollbackStock
        | ReceiverStep::RollbackBackup
        | ReceiverStep::RemoveArtifact(_)
        | ReceiverStep::WriteRetryRequired
        | ReceiverStep::RemoveRolledBackJournal => rollback_step(job, reply, out),
        ReceiverStep::WriteFinalizing
        | ReceiverStep::FinalizeTransfer
        | ReceiverStep::WriteFinalized => finalize_step(job, reply, out),
        _ => complete_step(job, reply, out),
    }
}

// ---------------------------------------------------------------------------------------------
// Execution
// ---------------------------------------------------------------------------------------------

fn finish(e: RgbLibError) -> (out: ReceiverProgress)
    ensures
        errs(out, e),
{
    ReceiverProgress::Finished(Err(e))
}

fn fail_store(context: &str, e: StoreError) -> (out: ReceiverProgress)
    ensures
        fails(out, context@ + ": "@ + e.text@),
{
    ReceiverProgress::Finished(Err(rgb_sender_funding_error(context, e.text.as_str())))
}

impl ReceiverJob {
    /// The entry that a rollback removes next.
    pub fn artifact(&self, k: u8) -> (r: (ArtifactSpace, String))
        requires
            k < 7,
        ensures
            r == abandoned(*self, k),
    {
        if k == 0 {
            (ArtifactSpace::ChannelInfo, copy(&self.record.temporary_channel_id))
        } else if k == 1 {
            (ArtifactSpace::PendingChannelInfo, copy(&self.record.temporary_channel_id))
        } else if k == 2 {
            (ArtifactSpace::ChannelInfo, copy(&self.channel_id))
        } else if k == 3 {
            (ArtifactSpace::PendingChannelInfo, copy(&self.channel_id))
        } else if k == 4 {
            (ArtifactSpace::Consignment, copy(&self.record.temporary_channel_id))
        } else if k == 5 {
            (ArtifactSpace::Consignment, copy(&self.record.funding_txid))
        } else {
            (ArtifactSpace::Consignment, copy(&self.channel_id))
        }
    }

    /// The entry that a completion removes next.
    pub fn temporary(&self, k: u8) -> (r: (ArtifactSpace, String))
        requires
            k < 5,
        ensures
            r == superseded(*self, k),
    {
        if k == 0 {
            (ArtifactSpace::ChannelInfo, copy(&self.record.temporary_channel_id))
        } else if k == 1 {
            (ArtifactSpace::PendingChannelInfo, copy(&self.record.temporary_channel_id))
        } else if k == 2 {
            (ArtifactSpace::Consignment, copy(&self.record.temporary_channel_id))
        } else if k == 3 {
            (ArtifactSpace::Consignment, copy(&self.record.funding_txid))
        } else {
            (ArtifactSpace::Consignment, copy(&self.channel_id))
        }
    }

    fn goto(self, step: ReceiverStep) -> (out: ReceiverProgress)
        ensures
            goes(out, self.to(step)),
    {
        let mut job = self;
        job.step = step;
        ReceiverProgress::Continue(job)
    }

    fn stage(self, stage: FundingAcceptanceStage, step: ReceiverStep) -> (out: ReceiverProgress)
        ensures
            goes(out, self.staged(stage, step)),
    {
        let mut job = self;
        job.record.stage = stage;
        job.step = step;
        ReceiverProgress::Continue(job)
    }

    fn transfer(self) -> (out: ReceiverProgress)
        ensures
            transfers(self, out),
    {
        if self.record.consignment.is_none() {
            return finish(
                internal(
                    join3(
                        "receiver funding '",
                        self.record.funding_txid.as_str(),
                        "' is missing its durable consignment",
                    ),
                ),
            );
        }
        if self.record.rgb_info.is_none() {
            return finish(
                internal(
                    join3(
                        "receiver funding '",
                        self.record.funding_txid.as_str(),
                        "' is missing durable channel metadata",
                    ),
                ),
            );
        }
        self.goto(ReceiverStep::FinalizeTransfer)
    }

    /// Undoes an acceptance.
    pub fn rollback_receiver_funding(self) -> (out: ReceiverProgress)
        ensures
            rollback_starts(self, out),
    {
        if self.record.stage == FundingAcceptanceStage::RollingBack {
            self.goto(ReceiverStep::ReadStock)
        } else {
            self.stage(FundingAcceptanceStage::RollingBack, ReceiverStep::WriteRollingBack)
        }
    }

    /// Finalizes an acceptance whose channel is durable.
    pub fn finalize_receiver_funding(self) -> (out: ReceiverProgress)
        ensures
            finalization_starts(self, out),
    {
        if self.record.stage == FundingAcceptanceStage::Finalizing {
            self.transfer()
        } else {
            self.stage(FundingAcceptanceStage::Finalizing, ReceiverStep::WriteFinalizing)
        }
    }

    /// Completes a finalized acceptance.
    pub fn complete_finalized_receiver_funding(self) -> (out: ReceiverProgress)
        ensures
            completion_starts(self, out),
    {
        let txid = self.record.funding_txid.as_str();
        if self.record.stage != FundingAcceptanceStage::Finalized {
            return finish(
                internal(
                    join2(
                        join3("receiver funding '", txid, "' cannot complete from stage ").as_str(),
                        name_of(self.record.stage),
                    ),
                ),
            );
        }
        if self.record.consignment.is_none() {
            return finish(
                internal(
                    join3("finalized receiver funding '", txid, "' is missing its consignment"),
                ),
            );
        }
        if self.record.rgb_info.is_none() {
            return finish(
                internal(
                    join3("finalized receiver funding '", txid, "' is missing channel metadata"),
                ),
            );
        }
        self.goto(ReceiverStep::RetainConsignment)
    }

    fn roll_back(self, reply: ReceiverReply) -> (out: ReceiverProgress)
        requires
            self.wf(),
            receiver_fits(self.step, reply),
            self.step is WriteRollingBack || self.step is ReadStock || self.step is RollbackStock
                || self.step is RollbackBackup || self.step is RemoveArtifact
                || self.step is WriteRetryRequired || self.step is RemoveRolledBackJournal,
        ensures
            rollback_step(self, reply, out),
            out matches ReceiverProgress::Continue(job) ==> job.wf(),
    {
        match (self.step, reply) {
            (ReceiverStep::WriteRollingBack, ReceiverReply::StoreFailed(e)) => fail_store(
                "cannot persist RGB receiver funding stage",
                e,
            ),
            (ReceiverStep::WriteRollingBack, _) => self.goto(ReceiverStep::ReadStock),
            (ReceiverStep::ReadStock, ReceiverReply::Stock(None)) => self.goto(
                ReceiverStep::RollbackBackup,
            ),
            (ReceiverStep::ReadStock, ReceiverReply::Stock(Some(op))) => {
                if same(op.as_str(), self.record.funding_txid.as_str()) {
                    self.goto(ReceiverStep::RollbackStock)
                } else {
                    finish(
                        internal(
                            join5(
                                "receiver funding '",
                                self.record.funding_txid.as_str(),
                                "' cannot roll back RGB operation '",
                                op.as_str(),
                                "'",
                            ),
                        ),
                    )
                }
            },
            (_, ReceiverReply::WalletFailed(e)) => finish(e),
            (ReceiverStep::RollbackStock, _) => self.goto(ReceiverStep::RollbackBackup),
            (ReceiverStep::RollbackBackup, _) => self.goto(ReceiverStep::RemoveArtifact(0)),
            (ReceiverStep::RemoveArtifact(k), reply) => {
                if let ReceiverReply::StoreFailed(e) = reply {
                    if !e.not_found {
                        return fail_store(
                            "cannot clean finalized RGB receiver recovery artifact",
                            e,
                        );
                    }
                }
                if k < 6 {
                    self.goto(ReceiverStep::RemoveArtifact(k + 1))
                } else {
                    self.stage(
                        FundingAcceptanceStage::RetryRequired,
                        ReceiverStep::WriteRetryRequired,
                    )
                }
            },
            (ReceiverStep::WriteRetryRequired, ReceiverReply::StoreFailed(e)) => fail_store(
                "cannot persist RGB receiver funding stage",
                e,
            ),
            (ReceiverStep::WriteRetryRequired, _) => self.goto(
                ReceiverStep::RemoveRolledBackJournal,
            ),
            (ReceiverStep::RemoveRolledBackJournal, reply) => {
                if let ReceiverReply::StoreFailed(e) = reply {
                    if !e.not_found {
                        return fail_store("cannot remove resolved RGB receiver journal", e);
                    }
                }
                ReceiverProgress::Finished(Ok(()))
            },
            _ => unreached(),
        }
    }

    fn finalize(self, reply: ReceiverReply) -> (out: ReceiverProgress)
        requires
            self.wf(),
            receiver_fits(self.step, reply),
            self.step is WriteFinalizing || self.step is FinalizeTransfer
                || self.step is WriteFinalized,
        ensures
            finalize_step(self, reply, out),
            out matches ReceiverProgress::Continue(job) ==> job.wf(),
    {
        match (self.step, reply) {
            (_, ReceiverReply::StoreFailed(e)) => fail_store(
                "cannot persist RGB receiver funding stage",
                e,
            ),
            (_, ReceiverReply::WalletFailed(e)) => finish(e),
            (ReceiverStep::WriteFinalizing, _) => self.transfer(),
            (ReceiverStep::FinalizeTransfer, _) => self.stage(
                FundingAcceptanceStage::Finalized,
                ReceiverStep::WriteFinalized,
            ),
            (ReceiverStep::WriteFinalized, _) => self.complete_finalized_receiver_funding(),
            _ => unreached(),
        }
    }

    fn read_info(self, found: Result<RgbInfo, StoreError>) -> (out: ReceiverProgress)
        requires
            self.record.rgb_info is Some,
        ensures
            info_read(self, found, out),
            out matches ReceiverProgress::Continue(job) ==> job.wf(),
    {
        let r = match &self.record.rgb_info {
            Some(expected) => persist_canonical_rgb_channel_info(
                self.channel_id.as_str(),
                expected,
                found,
            ),
            None => unreached(),
        };
        let ghost kept = r;
        assert(canonical(self.channel_id@, self.record.rgb_info->0, found, kept));
        match r {
            Ok(info) => {
                let mut job = self;
                job.info = Some(info);
                job.step = ReceiverStep::WriteInfo;
                ReceiverProgress::Continue(job)
            },
            Err(e) => finish(e),
        }
    }

    fn complete(self, reply: ReceiverReply) -> (out: ReceiverProgress)
        requires
            self.wf(),
            receiver_fits(self.step, reply),
            self.step is RetainConsignment || self.step is CompleteTransfer
                || self.step is CompleteBackup || self.step is ReadInfo || self.step is WriteInfo
                || self.step is RemoveTemporary || self.step is RemoveCompletedJournal,
        ensures
            complete_step(self, reply, out),
            out matches ReceiverProgress::Continue(job) ==> job.wf(),
    {
        match (self.step, reply) {
            (ReceiverStep::RetainConsignment, ReceiverReply::StoreFailed(e)) => fail_store(
                "cannot retain finalized receiver consignment for wallet recovery",
                e,
            ),
            (ReceiverStep::RetainConsignment, _) => self.goto(ReceiverStep::CompleteTransfer),
            (_, ReceiverReply::WalletFailed(e)) => finish(e),
            (ReceiverStep::CompleteTransfer, _) => self.goto(ReceiverStep::CompleteBackup),
            (ReceiverStep::CompleteBackup, _) => self.goto(ReceiverStep::ReadInfo),
            (ReceiverStep::ReadInfo, ReceiverReply::Info(info)) => self.read_info(Ok(info)),
            (ReceiverStep::ReadInfo, ReceiverReply::StoreFailed(e)) => self.read_info(Err(e)),
            (ReceiverStep::WriteInfo, ReceiverReply::StoreFailed(e)) => fail_store(
                "canonical RGB channel metadata was not acknowledged by VSS",
                e,
            ),
            (ReceiverStep::WriteInfo, _) => self.goto(ReceiverStep::RemoveTemporary(0)),
            (ReceiverStep::RemoveTemporary(k), reply) => {
                if let ReceiverReply::StoreFailed(e) = reply {
                    if !e.not_found {
                        return fail_store(
                            "cannot clean finalized RGB receiver recovery artifact",
                            e,
                        );
                    }
                }
                if k < 4 {
                    self.goto(ReceiverStep::RemoveTemporary(k + 1))
                } else {
                    self.goto(ReceiverStep::RemoveCompletedJournal)
                }
            },
            (ReceiverStep::RemoveCompletedJournal, ReceiverReply::StoreFailed(e)) => fail_store(
                "cannot remove finalized RGB receiver journal",
                e,
            ),
            (ReceiverStep::RemoveCompletedJournal, _) => ReceiverProgress::Finished(Ok(())),
            _ => unreached(),
        }
    }

    /// Decides what follows from a reply.
    pub fn advance(self, reply: ReceiverReply) -> (out: ReceiverProgress)
        requires
            self.wf(),
            receiver_fits(self.step, reply),
        ensures
            receiver_next(self, reply, out),
            out matches ReceiverProgress::Continue(job) ==> job.wf(),
    {
        match self.step {
            ReceiverStep::WriteRollingBack
            | ReceiverStep::ReadStock
            | ReceiverStep::RollbackStock
            | ReceiverStep::RollbackBackup
            | ReceiverStep::RemoveArtifact(_)
            | ReceiverStep::WriteRetryRequired
            | ReceiverStep::RemoveRolledBackJournal => self.roll_back(reply),
            ReceiverStep::WriteFinalizing
            | ReceiverStep::FinalizeTransfer
            | ReceiverStep::WriteFinalized => self.finalize(reply),
            _ => self.complete(reply),
        }
    }
}

// ---------------------------------------------------------------------------------------------
// Reconciliation
// ---------------------------------------------------------------------------------------------

/// How the reconciliation of a record begins.
#[derive(Debug)]
pub enum ReceiverReconciliation {
    /// A job is to be run to its end.
    Run(ReceiverJob),
    /// The record is left alone, and reported.
    Quarantined(RgbFundingRecoveryState),
    Failed(RgbLibError),
}

/// Whether the channel of a record is among the funded ones.
pub open spec fn is_durable(record: PendingFundingAcceptance, funded: Seq<String>) -> bool {
    listed(funded, record.channel_id())
}

/// The job that a progress runs, or the error that it ended with.
pub open spec fn begins(out: ReceiverProgress, r: ReceiverReconciliation) -> bool {
    match out {
        ReceiverProgress::Continue(job) => r == ReceiverReconciliation::Run(job),
        ReceiverProgress::Finished(Err(e)) => r == ReceiverReconciliation::Failed(e),
        ReceiverProgress::Finished(Ok(_)) => false,
    }
}

/// The job that a record is reconciled by.
pub open spec fn fresh_job(record: PendingFundingAcceptance, job: ReceiverJob) -> bool {
    &&& job.record == record
    &&& job.channel_id@ == record.channel_id()
    &&& job.info is None
    &&& job.step is ReadStock
}

/// How the reconciliation of a record begins.
pub open spec fn reconciles(
    record: PendingFundingAcceptance,
    funded: Seq<String>,
    r: ReceiverReconciliation,
) -> bool {
    if !fixed_hex(record.funding_txid@, 32) {
        r matches ReceiverReconciliation::Failed(e) && is_internal(e, bad_receiver_txid(record))
    } else {
        let durable = is_durable(record, funded);
        match receiver_recovery_action(record.stage, durable) {
            RgbReceiverRecoveryAction::Quarantine => r matches ReceiverReconciliation::Quarantined(
                report,
            ) && is_receiver_report(report, record, durable, None),
            RgbReceiverRecoveryAction::Rollback => exists|job: ReceiverJob, out: ReceiverProgress|
                #[trigger] fresh_job(record, job) && #[trigger] rollback_starts(job, out) && begins(
                    out,
                    r,
                ),
            RgbReceiverRecoveryAction::Finalize => exists|job: ReceiverJob, out: ReceiverProgress|
                #[trigger] fresh_job(record, job) && #[trigger] finalization_starts(job, out)
                    && begins(out, r),
            RgbReceiverRecoveryAction::Complete => exists|job: ReceiverJob, out: ReceiverProgress|
                #[trigger] fresh_job(record, job) && #[trigger] completion_starts(job, out)
                    && begins(out, r),
        }
    }
}

fn begin(out: ReceiverProgress) -> (r: ReceiverReconciliation)
    requires
        !(out matches ReceiverProgress::Finished(Ok(_))),
    ensures
        begins(out, r),
{
    match out {
        ReceiverProgress::Continue(job) => ReceiverReconciliation::Run(job),
        ReceiverProgress::Finished(Err(e)) => ReceiverReconciliation::Failed(e),
        ReceiverProgress::Finished(Ok(_)) => unreached(),
    }
}

/// Begins to reconcile a record with the channels that the channel manager has funded.
pub fn reconcile_receiver_funding_record(
    record: PendingFundingAcceptance,
    funded_channel_ids: &Vec<String>,
) -> (r: ReceiverReconciliation)
    ensures
        reconciles(record, funded_channel_ids@, r),
{
    let channel_id = match receiver_final_channel_id(&record) {
        Ok(id) => id,
        Err(e) => {
            return ReceiverReconciliation::Failed(e);
        },
    };
    let durable = contains_id(funded_channel_ids, channel_id.as_str());
    assert(durable == is_durable(record, funded_channel_ids@));
    let action = rgb_receiver_recovery_action(record.stage, durable);
    if action == RgbReceiverRecoveryAction::Quarantine {
        return match rgb_receiver_funding_recovery_view(&record, durable, None) {
            Ok(report) => ReceiverReconciliation::Quarantined(report),
            Err(e) => ReceiverReconciliation::Failed(e),
        };
    }
    let job = ReceiverJob { record, channel_id, info: None, step: ReceiverStep::ReadStock };
    assert(fresh_job(record, job));
    let ghost j = job;
    match action {
        RgbReceiverRecoveryAction::Rollback => {
            let out = job.rollback_receiver_funding();
            assert(rollback_starts(j, out));
            begin(out)
        },
        RgbReceiverRecoveryAction::Finalize => {
            let out = job.finalize_receiver_funding();
            assert(finalization_starts(j, out));
            begin(out)
        },
        RgbReceiverRecoveryAction::Complete => {
            let out = job.complete_finalized_receiver_funding();
            assert(completion_starts(j, out));
            begin(out)
        },
        RgbReceiverRecoveryAction::Quarantine => unreached(),
    }
}

/// The report of a record whose reconciliation failed.
pub fn failed_reconciliation(
    record: &PendingFundingAcceptance,
    funded_channel_ids: &Vec<String>,
    error: String,
) -> (r: Result<RgbFundingRecoveryState, RgbLibError>)
    ensures
        r is Ok <==> fixed_hex(record.funding_txid@, 32),
        r matches Ok(report) ==> is_receiver_report(
            report,
            *record,
            is_durable(*record, funded_channel_ids@),
            Some(error),
        ),
        r matches Err(e) ==> is_internal(e, bad_receiver_txid(*record)),
{
    let channel_id = receiver_final_channel_id(record)?;
    let durable = contains_id(funded_channel_ids, channel_id.as_str());
    assert(durable == is_durable(*record, funded_channel_ids@));
    rgb_receiver_funding_recovery_view(record, durable, Some(error))
}

// ---------------------------------------------------------------------------------------------
// Laws
// ---------------------------------------------------------------------------------------------

/// The journal of an acceptance outlives everything that it covers: it is removed only after the
/// rolled back state was journalled, or after the channel's metadata is remotely durable and the
/// temporary entries are gone.
pub proof fn law_receiver_journal_outlives_the_work(
    job: ReceiverJob,
    reply: ReceiverReply,
    out: ReceiverProgress,
)
    requires
        job.wf(),
        receiver_fits(job.step, reply),
        receiver_next(job, reply, out),
    ensures
        out matches ReceiverProgress::Continue(next) ==> (next.step is RemoveRolledBackJournal
            ==> job.step is WriteRetryRequired && reply is Done),
        out matches ReceiverProgress::Continue(next) ==> (next.step is RemoveCompletedJournal
            ==> job.step == ReceiverStep::RemoveTemporary(4)),
        out matches ReceiverProgress::Continue(next) ==> (next.step is RemoveTemporary
            ==> job.step is RemoveTemporary || (job.step is WriteInfo && reply is Done)),
        ends(out) ==> job.step is RemoveRolledBackJournal || (job.step is RemoveCompletedJournal
            && reply is Done),
{
}

/// A rollback never removes an entry before the restored stock is backed up.
pub proof fn law_receiver_artifacts_outlive_the_backup(
    job: ReceiverJob,
    reply: ReceiverReply,
    out: ReceiverProgress,
)
    requires
        job.wf(),
        receiver_fits(job.step, reply),
        receiver_next(job, reply, out),
        out matches ReceiverProgress::Continue(next) && next.step == ReceiverStep::RemoveArtifact(0),
    ensures
        job.step is RollbackBackup && reply is Done,
{
}

/// A job changes nothing of its record but the stage.
pub proof fn law_receiver_jobs_change_only_the_stage(
    job: ReceiverJob,
    reply: ReceiverReply,
    out: ReceiverProgress,
)
    requires
        job.wf(),
        receiver_fits(job.step, reply),
        receiver_next(job, reply, out),
    ensures
        out matches ReceiverProgress::Continue(next) ==> next.record == job.record.at(
            next.record.stage,
        ) && next.channel_id == job.channel_id,
{
}

/// A rollback skips nothing: its intent is journalled, only its own stock operation is undone, the wallet
/// is backed up, every entry of the acceptance is removed in turn, the record is journalled as one to
/// retry, and only then removed.
pub proof fn law_receiver_rollbacks_skip_nothing(
    job: ReceiverJob,
    reply: ReceiverReply,
    next: ReceiverJob,
)
    requires
        job.wf(),
        receiver_fits(job.step, reply),
        receiver_next(job, reply, ReceiverProgress::Continue(next)),
    ensures
        match next.step {
            ReceiverStep::WriteRollingBack => false,
            ReceiverStep::ReadStock => job.step is WriteRollingBack && reply is Done,
            ReceiverStep::RollbackStock => job.step is ReadStock && (
            reply matches ReceiverReply::Stock(Some(op)) && op@ == job.record.funding_txid@),
            ReceiverStep::RollbackBackup => (job.step is ReadStock && reply == ReceiverReply::Stock(
                None,
            )) || (job.step is RollbackStock && reply is Done),
            ReceiverStep::RemoveArtifact(k) => (k == 0 && job.step is RollbackBackup && reply is Done)
                || (0 < k < 7 && job.step == ReceiverStep::RemoveArtifact((k - 1) as u8)),
            ReceiverStep::WriteRetryRequired => job.step == ReceiverStep::RemoveArtifact(6)
                && next.record.stage is RetryRequired,
            ReceiverStep::RemoveRolledBackJournal => job.step is WriteRetryRequired && reply is Done,
            _ => true,
        },
{
}

/// A finalization and a completion skip nothing: the intent is journalled before the transfer is made,
/// the transfer before the record counts as finalized; then the consignment is kept, the transfer made
/// sure of, the wallet backed up, the channel's metadata written and acknowledged, every temporary entry
/// removed in turn, and only then the journal.
pub proof fn law_receiver_completions_skip_nothing(
    job: ReceiverJob,
    reply: ReceiverReply,
    next: ReceiverJob,
)
    requires
        job.wf(),
        receiver_fits(job.step, reply),
        receiver_next(job, reply, ReceiverProgress::Continue(next)),
    ensures
        match next.step {
            ReceiverStep::WriteFinalizing => false,
            ReceiverStep::FinalizeTransfer => job.step is WriteFinalizing && reply is Done
                && next.record.consignment is Some && next.record.rgb_info is Some,
            ReceiverStep::WriteFinalized => job.step is FinalizeTransfer && reply is Done
                && next.record.stage is Finalized,
            ReceiverStep::RetainConsignment => job.step is WriteFinalized && reply is Done
                && next.record.stage is Finalized,
            ReceiverStep::CompleteTransfer => job.step is RetainConsignment && reply is Done,
            ReceiverStep::CompleteBackup => job.step is CompleteTransfer && reply is Done,
            ReceiverStep::ReadInfo => job.step is CompleteBackup && reply is Done,
            ReceiverStep::WriteInfo => job.step is ReadInfo && next.info is Some
                && next.info->0.contract_id@ == job.record.rgb_info->0.contract_id@
                && next.info->0.local_rgb_amount + next.info->0.remote_rgb_amount
                == job.record.rgb_info->0.local_rgb_amount + job.record.rgb_info->0.remote_rgb_amount,
            ReceiverStep::RemoveTemporary(k) => (k == 0 && job.step is WriteInfo && reply is Done) || (
            0 < k < 5 && job.step == ReceiverStep::RemoveTemporary((k - 1) as u8)),
            ReceiverStep::RemoveCompletedJournal => job.step == ReceiverStep::RemoveTemporary(4),
            _ => true,
        },
{
}

/// A failure ends a job with an error, but for the removal of what is not there; what is acknowledged
/// takes it on.
pub proof fn law_receiver_failures_end_the_job(
    job: ReceiverJob,
    reply: ReceiverReply,
    out: ReceiverProgress,
)
    requires
        job.wf(),
        receiver_fits(job.step, reply),
        receiver_next(job, reply, out),
    ensures
        reply matches ReceiverReply::WalletFailed(e) ==> out == ReceiverProgress::Finished(
            Err::<(), RgbLibError>(e),
        ),
        (reply matches ReceiverReply::StoreFailed(e) && !e.not_found) ==> (
        out matches ReceiverProgress::Finished(Err(_))),
        reply is StoreFailed && (job.step is WriteRollingBack || job.step is WriteRetryRequired
            || job.step is WriteFinalizing || job.step is WriteFinalized
            || job.step is RetainConsignment || job.step is WriteInfo
            || job.step is RemoveCompletedJournal) ==> (out matches ReceiverProgress::Finished(Err(_))),
        (reply matches ReceiverReply::StoreFailed(e) && e.not_found) && (job.step is RemoveArtifact
            || job.step is RemoveTemporary) ==> out is Continue,
        reply is Done && !(job.step is WriteFinalizing) && !(job.step is WriteFinalized) ==> !(
        out matches ReceiverProgress::Finished(Err(_))),
        reply is Done && (job.step is WriteFinalizing || (job.step is WriteFinalized
            && job.record.stage is Finalized)) && job.record.consignment is Some
            && job.record.rgb_info is Some ==> out is Continue,
        job.step is ReadStock && (reply matches ReceiverReply::Stock(Some(op)) && op@
            != job.record.funding_txid@) ==> (out matches ReceiverProgress::Finished(Err(_))),
{
}

/// A rollback removes seven different entries, and a completion five: those of the temporary channel, of
/// the transaction, and of the final channel, whose settled and pending metadata only a rollback removes.
pub proof fn law_receiver_jobs_remove_every_entry(job: ReceiverJob, a: u8, b: u8)
    requires
        job.record.temporary_channel_id@ != job.channel_id@,
        job.record.temporary_channel_id@ != job.record.funding_txid@,
        job.record.funding_txid@ != job.channel_id@,
    ensures
        a < b < 7 ==> abandoned(job, a) != abandoned(job, b),
        a < b < 5 ==> superseded(job, a) != superseded(job, b),
        a < 7 ==> abandoned(job, a).1 == job.record.temporary_channel_id || abandoned(job, a).1
            == job.channel_id || (abandoned(job, a).1 == job.record.funding_txid && abandoned(
            job,
            a,
        ).0 is Consignment),
        a < 5 ==> (superseded(job, a).1 == job.channel_id ==> superseded(job, a).0 is Consignment),
        exists|k: u8|
            k < 7 && #[trigger] abandoned(job, k) == (ArtifactSpace::ChannelInfo, job.channel_id),
        exists|k: u8|
            k < 7 && #[trigger] abandoned(job, k) == (
                ArtifactSpace::PendingChannelInfo,
                job.channel_id,
            ),
        exists|k: u8|
            k < 5 && #[trigger] superseded(job, k) == (
                ArtifactSpace::ChannelInfo,
                job.record.temporary_channel_id,
            ),
        exists|k: u8|
            k < 5 && #[trigger] superseded(job, k) == (
                ArtifactSpace::PendingChannelInfo,
                job.record.temporary_channel_id,
            ),
{
    assert(abandoned(job, 2) == (ArtifactSpace::ChannelInfo, job.channel_id));
    assert(abandoned(job, 3) == (ArtifactSpace::PendingChannelInfo, job.channel_id));
    assert(superseded(job, 0) == (ArtifactSpace::ChannelInfo, job.record.temporary_channel_id));
    assert(superseded(job, 1) == (ArtifactSpace::PendingChannelInfo, job.record.temporary_channel_id));
}

/// A record is reconciled by its stage and by whether its channel is on record: undone, carried on, or
/// left alone and reported.
pub proof fn law_receiver_records_are_reconciled_by_their_channel(
    record: PendingFundingAcceptance,
    funded: Seq<String>,
    r: ReceiverReconciliation,
)
    requires
        reconciles(record, funded, r),
        fixed_hex(record.funding_txid@, 32),
    ensures
        ({
            let durable = exists|i: int|
                0 <= i < funded.len() && (#[trigger] funded[i])@ == record.channel_id();
            &&& !durable && (record.stage is Validating || record.stage is Prepared
                || record.stage is RetryRequired) ==> (r matches ReceiverReconciliation::Run(job)
                && job.step is WriteRollingBack && job.record.stage is RollingBack
                && job.record.funding_txid == record.funding_txid)
            &&& !durable && record.stage is RollingBack ==> (r matches ReceiverReconciliation::Run(job)
                && job.step is ReadStock && job.record == record)
            &&& durable && (record.stage is Validating || record.stage is Prepared
                || record.stage is RollingBack || record.stage is RetryRequired) ==> r is Quarantined
            &&& !durable && (record.stage is Promoted || record.stage is Finalizing
                || record.stage is Finalized) ==> r is Quarantined
            &&& durable && record.stage is Promoted ==> (r matches ReceiverReconciliation::Run(job)
                && job.step is WriteFinalizing && job.record.stage is Finalizing)
            &&& durable && record.stage is Finalizing && record.consignment is Some
                && record.rgb_info is Some ==> (r matches ReceiverReconciliation::Run(job)
                && job.step is FinalizeTransfer)
            &&& durable && record.stage is Finalized && record.consignment is Some
                && record.rgb_info is Some ==> (r matches ReceiverReconciliation::Run(job)
                && job.step is RetainConsignment && job.record == record)
        }),
{
    let durable = exists|i: int|
        0 <= i < funded.len() && (#[trigger] funded[i])@ == record.channel_id();
    assert(is_durable(record, funded) == durable) by {
        let v = crate::text::views(funded);
        if v.contains(record.channel_id()) {
            let i = choose|i: int| 0 <= i < v.len() && v[i] == record.channel_id();
            assert(funded[i]@ == record.channel_id());
        }
        if durable {
            let i = choose|i: int|
                0 <= i < funded.len() && (#[trigger] funded[i])@ == record.channel_id();
            assert(v[i] == record.channel_id());
        }
    }
}

/// A rollback and a completion both remove every consignment that the acceptance left behind: that of the
/// temporary channel, of the transaction and of the final channel.
pub proof fn law_receiver_jobs_remove_every_consignment(job: ReceiverJob)
    ensures
        exists|k: u8|
            k < 7 && #[trigger] abandoned(job, k) == (
                ArtifactSpace::Consignment,
                job.record.temporary_channel_id,
            ),
        exists|k: u8|
            k < 7 && #[trigger] abandoned(job, k) == (
                ArtifactSpace::Consignment,
                job.record.funding_txid,
            ),
        exists|k: u8|
            k < 7 && #[trigger] abandoned(job, k) == (ArtifactSpace::Consignment, job.channel_id),
        exists|k: u8|
            k < 5 && #[trigger] superseded(job, k) == (
                ArtifactSpace::Consignment,
                job.record.temporary_channel_id,
            ),
        exists|k: u8|
            k < 5 && #[trigger] superseded(job, k) == (
                ArtifactSpace::Consignment,
                job.record.funding_txid,
            ),
        exists|k: u8|
            k < 5 && #[trigger] superseded(job, k) == (ArtifactSpace::Consignment, job.channel_id),
{
    assert(abandoned(job, 4) == (ArtifactSpace::Consignment, job.record.temporary_channel_id));
    assert(abandoned(job, 5) == (ArtifactSpace::Consignment, job.record.funding_txid));
    assert(abandoned(job, 6) == (ArtifactSpace::Consignment, job.channel_id));
    assert(superseded(job, 2) == (ArtifactSpace::Consignment, job.record.temporary_channel_id));
    assert(superseded(job, 3) == (ArtifactSpace::Consignment, job.record.funding_txid));
    assert(superseded(job, 4) == (ArtifactSpace::Consignment, job.channel_id));
}

} // verus!
