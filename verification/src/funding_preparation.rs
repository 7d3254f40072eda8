//! Preparing the funding of a colored channel: from the wallet's transfer to a journalled, backed up
//! stock operation.

use vstd::pervasive::unreached;
use vstd::prelude::*;
use vstd::string::*;

use crate::error::{internal, is_internal, rgb_sender_funding_error, RgbLibError};
use crate::kv_store::StoreError;
use crate::open_failure::{handle_funding_prepare_err, is_transient, PrepareFailure};
use crate::psbt::{
    normalize_funding_psbt_locktime, normalized_lock_time, parse_psbt, psbt_relocked, psbt_summary,
    PsbtSummaryView,
};
use crate::sender_funding::{
    AssetSchema, RgbInfo, RgbSenderConsignmentDelivery, RgbSenderFundingRecord,
    RgbSenderFundingStage,
};
use crate::sweep::RGB_TRANSFER_CHAN_EXPIRATION_SECS;
use crate::text::{copy, join2, join3, join4, text};

verus! {

// ---------------------------------------------------------------------------------------------
// What is sent
// ---------------------------------------------------------------------------------------------

/// What a transfer assigns.
#[derive(Clone, Copy, Debug, PartialEq, Eq, Structural)]
pub enum Assignment {
    Fungible(u64),
    NonFungible,
}

/// What the funding of a channel assigns to its funding output.
pub open spec fn channel_assignment(info: RgbInfo) -> Assignment {
    match info.schema {
        AssetSchema::Uda => Assignment::NonFungible,
        _ => Assignment::Fungible((info.local_rgb_amount + info.remote_rgb_amount) as u64),
    }
}

/// What the funding of a channel assigns to its funding output: the whole amount, or the one unique
/// asset.
pub fn funding_assignment(info: &RgbInfo) -> (r: Assignment)
    requires
        info.local_rgb_amount + info.remote_rgb_amount <= u64::MAX,
    ensures
        r == channel_assignment(*info),
{
    let channel_rgb_amount: u64 = info.local_rgb_amount + info.remote_rgb_amount;
    match info.schema {
        AssetSchema::Nia | AssetSchema::Cfa | AssetSchema::Ifa => Assignment::Fungible(
            channel_rgb_amount,
        ),
        AssetSchema::Uda => Assignment::NonFungible,
    }
}

/// The transfer that funds a channel, as the wallet is asked to begin it.
#[derive(Debug, PartialEq, Eq)]
pub struct FundingTransfer {
    pub asset_id: String,
    pub recipient_id: String,
    /// What the funding output holds in satoshis.
    pub amount_sat: u64,
    /// The blinding of the funding output, which both peers know.
    pub blinding: Option<u64>,
    pub assignment: Assignment,
    pub transport_endpoints: Vec<String>,
    pub donation: bool,
    pub fee_rate: u64,
    pub min_confirmations: u8,
    pub expiration_timestamp: u64,
    pub dry_run: bool,
    pub lock_time: Option<u32>,
}

/// The transfer that funds a channel.
pub open spec fn is_funding_transfer(
    info: RgbInfo,
    recipient_id: String,
    channel_value_satoshis: u64,
    static_blinding: u64,
    virtual_proxy: Option<String>,
    fee_rate_sat_vb: u64,
    min_channel_confirmations: u8,
    now: u64,
    r: FundingTransfer,
) -> bool {
    &&& r.asset_id@ == info.contract_id@
    &&& r.recipient_id == recipient_id
    &&& r.amount_sat == channel_value_satoshis
    &&& r.blinding == Some(static_blinding)
    &&& r.assignment == channel_assignment(info)
    &&& r.transport_endpoints@ == (match virtual_proxy {
            Some(proxy) => seq![proxy],
            None => Seq::<String>::empty(),
        })
    &&& r.donation
    &&& r.fee_rate == fee_rate_sat_vb
    &&& r.min_confirmations == (if virtual_proxy is Some {
            0
        } else {
            min_channel_confirmations
        })
    &&& r.expiration_timestamp == now + RGB_TRANSFER_CHAN_EXPIRATION_SECS
    &&& !r.dry_run
    &&& r.lock_time == Some(0u32)
}

/// Asks for the transfer that funds a channel. It is donated, since the channel manager decides on its
/// broadcast, and its lock time is final, since a channel is funded by exactly that transaction. The
/// consignment of a standard channel goes to the peer directly; a virtual one, which needs no
/// confirmations, names the proxy.
pub fn funding_transfer(
    info: &RgbInfo,
    recipient_id: String,
    channel_value_satoshis: u64,
    static_blinding: u64,
    virtual_proxy: Option<String>,
    fee_rate_sat_vb: u64,
    min_channel_confirmations: u8,
    now: u64,
) -> (r: FundingTransfer)
    requires
        info.local_rgb_amount + info.remote_rgb_amount <= u64::MAX,
        now + RGB_TRANSFER_CHAN_EXPIRATION_SECS <= u64::MAX,
    ensures
        is_funding_transfer(*info, recipient_id, channel_value_satoshis, static_blinding, virtual_proxy, fee_rate_sat_vb, min_channel_confirmations, now, r),
{
    let mut transport_endpoints: Vec<String> = Vec::new();
    let mut min_confirmations: u8 = min_channel_confirmations;
    if let Some(proxy) = virtual_proxy {
        transport_endpoints.push(proxy);
        min_confirmations = 0;
    }
    FundingTransfer {
        asset_id: copy(&info.contract_id),
        recipient_id,
        amount_sat: channel_value_satoshis,
        blinding: Some(static_blinding),
        assignment: funding_assignment(info),
        transport_endpoints,
        donation: true,
        fee_rate: fee_rate_sat_vb,
        min_confirmations,
        expiration_timestamp: now + RGB_TRANSFER_CHAN_EXPIRATION_SECS,
        dry_run: false,
        lock_time: Some(0),
    }
}

/// How the preparation of a plain BTC funding ended.
#[derive(Debug, PartialEq, Eq)]
pub enum PlainFunding {
    /// The unsigned transaction, locked no later than the channel manager accepts.
    Ready(String),
    /// The event is replayed.
    Replay,
    /// The channel is closed.
    Close(RgbLibError),
}

/// How the preparation of a plain funding ends.
pub open spec fn is_plain_funding(
    begun: Result<String, RgbLibError>,
    current_best_height: u32,
    r: PlainFunding,
) -> bool {
    &&& match begun {
            Err(e) => r == (if is_transient(e) {
                PlainFunding::Replay
            } else {
                PlainFunding::Close(e)
            }),
            Ok(psbt) => match psbt_summary(psbt@) {
                Err(_) => r == PlainFunding::Replay,
                Ok(p) => match psbt_relocked(psbt@, normalized_lock_time(p, current_best_height)) {
                    Err(_) => r == PlainFunding::Replay,
                    Ok(s) => r matches PlainFunding::Ready(t) && t@ == s,
                },
            },
        }
}

/// Prepares a plain BTC funding: `begun` is the transaction that the wallet made. Where the wallet
/// failed the channel is closed, unless the network may come back.
pub fn prepare_plain_funding(begun: Result<String, RgbLibError>, current_best_height: u32) -> (r:
    PlainFunding)
    requires
        current_best_height < u32::MAX,
    ensures
        is_plain_funding(begun, current_best_height, r),
{
    match begun {
        Ok(psbt) => match normalize_funding_psbt_locktime(psbt, current_best_height) {
            Ok(normalized) => PlainFunding::Ready(normalized),
            Err(_) => PlainFunding::Replay,
        },
        Err(e) => match handle_funding_prepare_err(e) {
            PrepareFailure::Replay => PlainFunding::Replay,
            PrepareFailure::Close(e) => PlainFunding::Close(e),
        },
    }
}

// ---------------------------------------------------------------------------------------------
// Errors
// ---------------------------------------------------------------------------------------------

/// Why a funding could not be prepared.
#[derive(Debug, PartialEq, Eq)]
pub enum PreparationError {
    /// The error itself; whatever was begun is undone.
    Plain(RgbLibError),
    /// The journal could not be written, and the transfer could not be released.
    Unreleased(RgbLibError),
    /// The journal could not be written, and releasing the transfer failed.
    CleanupFailed { error: RgbLibError, cleanup: RgbLibError },
    /// The promoted state could not be journalled, and the rollback failed.
    RollbackFailed { error: RgbLibError, cleanup: RgbLibError },
}

/// How the wallet's library writes the errors that a failed preparation holds.
#[derive(Debug)]
pub struct WrittenErrors {
    /// The first error.
    pub error: String,
    /// What undoing failed with, if it did.
    pub cleanup: String,
}

/// The error that stands for a failed preparation.
pub open spec fn stands_for(r: RgbLibError, e: PreparationError, written: WrittenErrors) -> bool {
    match e {
        PreparationError::Plain(error) => r == error,
        PreparationError::Unreleased(_) => is_internal(
            r,
            "cannot persist RGB sender funding journal ("@ + written.error@
                + "); the newly created transfer could not be released"@,
        ),
        PreparationError::CleanupFailed { .. } => is_internal(
            r,
            "cannot persist RGB sender funding journal ("@ + written.error@
                + "); transfer cleanup also failed: "@ + written.cleanup@,
        ),
        PreparationError::RollbackFailed { .. } => is_internal(
            r,
            "cannot persist promoted RGB sender funding state ("@ + written.error@
                + "); rollback also failed: "@ + written.cleanup@,
        ),
    }
}

/// What a failed preparation leads to.
pub open spec fn prepared_badly(
    e: PreparationError,
    written: WrittenErrors,
    r: PrepareFailure,
) -> bool {
    &&& match r {
            PrepareFailure::Replay => e matches PreparationError::Plain(error) && is_transient(
                error,
            ),
            PrepareFailure::Close(error) => !is_transient(error) && stands_for(error, e, written),
        }
}

/// What a failed preparation leads to: the event is replayed after a network error from which
/// everything was undone, and the channel is given up after any other.
pub fn after_preparation(e: PreparationError, written: &WrittenErrors) -> (r: PrepareFailure)
    ensures
        prepared_badly(e, *written, r),
{
    let error = match e {
        PreparationError::Plain(error) => error,
        PreparationError::Unreleased(_) => internal(
            join3(
                "cannot persist RGB sender funding journal (",
                written.error.as_str(),
                "); the newly created transfer could not be released",
            ),
        ),
        PreparationError::CleanupFailed { .. } => internal(
            join4(
                "cannot persist RGB sender funding journal (",
                written.error.as_str(),
                "); transfer cleanup also failed: ",
                written.cleanup.as_str(),
            ),
        ),
        PreparationError::RollbackFailed { .. } => internal(
            join4(
                "cannot persist promoted RGB sender funding state (",
                written.error.as_str(),
                "); rollback also failed: ",
                written.cleanup.as_str(),
            ),
        ),
    };
    handle_funding_prepare_err(error)
}

// ---------------------------------------------------------------------------------------------
// Steps
// ---------------------------------------------------------------------------------------------

/// Where a preparation stands: the effect that comes next, or how it ended.
#[derive(Debug)]
#[allow(inconsistent_fields)]
pub enum PreparationStep {
    /// Begins the transfer: donated, with the final lock time.
    SendBegin,
    /// Reads and decodes the fascia that the wallet wrote.
    ReadFascia { psbt: String, batch_transfer_idx: Option<i32> },
    CreateConsignments { psbt: String, batch_transfer_idx: Option<i32> },
    /// Journals the intent.
    WriteIntent { psbt: String, record: RgbSenderFundingRecord },
    /// Releases a transfer that could not be journalled.
    FailTransfers { error: RgbLibError, batch_transfer_idx: i32 },
    /// Promotes the fascia to the wallet's stock.
    PromoteFascia { psbt: String, record: RgbSenderFundingRecord },
    /// Journals the promotion.
    WritePromoted { psbt: String, record: RgbSenderFundingRecord },
    /// Backs the wallet up, and has it acknowledged.
    Backup { psbt: String, record: RgbSenderFundingRecord },
    /// Undoes a journalled funding; `journal_failed` tells the journal's failure from the wallet's.
    Rollback { error: RgbLibError, record: RgbSenderFundingRecord, journal_failed: bool },
    Prepared { psbt: String, record: RgbSenderFundingRecord },
    Failed(PreparationError),
}

/// A preparation in progress.
#[derive(Debug)]
pub struct Preparation {
    pub temporary_channel_id: String,
    pub info: RgbInfo,
    pub step: PreparationStep,
}

/// What the caller got back.
#[derive(Debug)]
pub enum PreparationReply {
    Done,
    WalletFailed(RgbLibError),
    StoreFailed(StoreError),
    /// The transfer that was begun.
    Begun { psbt: String, batch_transfer_idx: Option<i32> },
    /// The fascia cannot be decoded.
    Undecodable(String),
    /// Whether the transfers were failed.
    Flag(bool),
    /// The worker did not come to its end.
    WorkerFailed(String),
}

/// Whether a reply answers the effect of a step.
pub open spec fn preparation_fits(step: PreparationStep, reply: PreparationReply) -> bool {
    reply is WorkerFailed || match step {
        PreparationStep::SendBegin => reply is Begun || reply is WalletFailed,
        PreparationStep::ReadFascia { .. } => reply is Done || reply is WalletFailed
            || reply is Undecodable,
        PreparationStep::CreateConsignments { .. }
        | PreparationStep::PromoteFascia { .. }
        | PreparationStep::Backup { .. }
        | PreparationStep::Rollback { .. } => reply is Done || reply is WalletFailed,
        PreparationStep::WriteIntent { .. } | PreparationStep::WritePromoted { .. } => reply is Done
            || reply is StoreFailed,
        PreparationStep::FailTransfers { .. } => reply is Flag || reply is WalletFailed,
        PreparationStep::Prepared { .. } | PreparationStep::Failed(_) => false,
    }
}

/// The record that the intent is journalled as.
pub open spec fn intent_record(
    temporary_channel_id: String,
    info: RgbInfo,
    funding_txid: String,
    batch_transfer_idx: i32,
) -> RgbSenderFundingRecord {
    RgbSenderFundingRecord {
        version: 4,
        manual_broadcast: true,
        temporary_channel_id,
        final_channel_id: None,
        funding_txid,
        batch_transfer_idx,
        rgb_info: Some(RgbInfo { batch_transfer_idx: Some(batch_transfer_idx), ..info }),
        consignment_delivery: RgbSenderConsignmentDelivery::P2p,
        stage: RgbSenderFundingStage::Preparing,
    }
}

pub open spec fn failed_internally(step: PreparationStep, details: Seq<char>) -> bool {
    step matches PreparationStep::Failed(PreparationError::Plain(e)) && is_internal(e, details)
}

pub open spec fn failed_with(step: PreparationStep, e: RgbLibError) -> bool {
    step == PreparationStep::Failed(PreparationError::Plain(e))
}

/// The intent is journalled, or the transfer released where the record may not be written.
pub open spec fn journals_intent(
    job: Preparation,
    psbt: String,
    parsed: Result<PsbtSummaryView, Seq<char>>,
    batch_transfer_idx: Option<i32>,
    step: PreparationStep,
) -> bool {
    match parsed {
        Err(e) => failed_internally(step, "invalid funding PSBT: "@ + e),
        Ok(summary) => match batch_transfer_idx {
            None => failed_internally(step, "RGB funding transfer has no batch transfer ID"@),
            Some(idx) => exists|txid: String|
                txid@ == summary.txid && {
                    let record = #[trigger] intent_record(
                        job.temporary_channel_id,
                        job.info,
                        txid,
                        idx,
                    );
                    if record.valid() {
                        step == (PreparationStep::WriteIntent { psbt, record })
                    } else {
                        releases(step, record.rejection(), idx)
                    }
                },
        },
    }
}

/// The transfer is released after an internal error.
pub open spec fn releases(step: PreparationStep, details: Seq<char>, idx: i32) -> bool {
    step matches PreparationStep::FailTransfers { error, batch_transfer_idx } && is_internal(
        error,
        details,
    ) && batch_transfer_idx == idx
}

/// What follows from a reply.
pub open spec fn preparation_next(
    job: Preparation,
    reply: PreparationReply,
    step: PreparationStep,
) -> bool {
    match reply {
        PreparationReply::WorkerFailed(e) => failed_internally(
            step,
            "RGB channel funding preparation worker failed: "@ + e@,
        ),
        _ => match job.step {
            PreparationStep::SendBegin => match reply {
                PreparationReply::Begun { psbt, batch_transfer_idx } => step == (
                PreparationStep::ReadFascia { psbt, batch_transfer_idx }),
                PreparationReply::WalletFailed(e) => failed_with(step, e),
                _ => false,
            },
            PreparationStep::ReadFascia { psbt, batch_transfer_idx } => match reply {
                PreparationReply::Done => step == (PreparationStep::CreateConsignments {
                    psbt,
                    batch_transfer_idx,
                }),
                PreparationReply::Undecodable(e) => failed_internally(
                    step,
                    "invalid funding fascia: "@ + e@,
                ),
                PreparationReply::WalletFailed(e) => failed_with(step, e),
                _ => false,
            },
            PreparationStep::CreateConsignments { psbt, batch_transfer_idx } => match reply {
                PreparationReply::Done => journals_intent(
                    job,
                    psbt,
                    psbt_summary(psbt@),
                    batch_transfer_idx,
                    step,
                ),
                PreparationReply::WalletFailed(e) => failed_with(step, e),
                _ => false,
            },
            PreparationStep::WriteIntent { psbt, record } => match reply {
                PreparationReply::Done => step == (PreparationStep::PromoteFascia { psbt, record }),
                PreparationReply::StoreFailed(e) => releases(
                    step,
                    "cannot persist sender funding journal"@ + ": "@ + e.text@,
                    record.batch_transfer_idx,
                ),
                _ => false,
            },
            PreparationStep::FailTransfers { error, .. } => step == (match reply {
                PreparationReply::Flag(true) => PreparationStep::Failed(
                    PreparationError::Plain(error),
                ),
                PreparationReply::WalletFailed(cleanup) => PreparationStep::Failed(
                    PreparationError::CleanupFailed { error, cleanup },
                ),
                _ => PreparationStep::Failed(PreparationError::Unreleased(error)),
            }),
            PreparationStep::PromoteFascia { psbt, record } => match reply {
                PreparationReply::Done => {
                    let promoted = record.at(RgbSenderFundingStage::StockPromoted);
                    if promoted.valid() {
                        step == (PreparationStep::WritePromoted { psbt, record: promoted })
                    } else {
                        rolls_back(step, promoted.rejection(), promoted)
                    }
                },
                PreparationReply::WalletFailed(error) => step == (PreparationStep::Rollback {
                    error,
                    record,
                    journal_failed: false,
                }),
                _ => false,
            },
            PreparationStep::WritePromoted { psbt, record } => match reply {
                PreparationReply::Done => step == (PreparationStep::Backup { psbt, record }),
                PreparationReply::StoreFailed(e) => rolls_back(
                    step,
                    "cannot persist sender funding journal"@ + ": "@ + e.text@,
                    record,
                ),
                _ => false,
            },
            PreparationStep::Backup { psbt, record } => match reply {
                PreparationReply::Done => step == (PreparationStep::Prepared { psbt, record }),
                PreparationReply::WalletFailed(error) => step == (PreparationStep::Rollback {
                    error,
                    record,
                    journal_failed: false,
                }),
                _ => false,
            },
            PreparationStep::Rollback { error, journal_failed, .. } => step
                == PreparationStep::Failed(
                match reply {
                    PreparationReply::WalletFailed(cleanup) => if journal_failed {
                        PreparationError::RollbackFailed { error, cleanup }
                    } else {
                        PreparationError::Plain(cleanup)
                    },
                    _ => PreparationError::Plain(error),
                },
            ),
            _ => false,
        },
    }
}

/// A journalled funding is undone after the journal failed.
pub open spec fn rolls_back(
    step: PreparationStep,
    details: Seq<char>,
    undone: RgbSenderFundingRecord,
) -> bool {
    step matches PreparationStep::Rollback { error, record, journal_failed } && is_internal(
        error,
        details,
    ) && record == undone && journal_failed
}

fn fail(error: RgbLibError) -> (r: PreparationStep)
    ensures
        failed_with(r, error),
{
    PreparationStep::Failed(PreparationError::Plain(error))
}

impl Preparation {
    /// Begins to prepare the funding of a colored channel.
    pub fn new(temporary_channel_id: String, info: RgbInfo) -> (r: Self)
        ensures
            r == (Preparation { temporary_channel_id, info, step: PreparationStep::SendBegin }),
    {
        Preparation { temporary_channel_id, info, step: PreparationStep::SendBegin }
    }

    fn journal_intent(&self, psbt: String, batch_transfer_idx: Option<i32>) -> (step:
        PreparationStep)
        ensures
            journals_intent(*self, psbt, psbt_summary(psbt@), batch_transfer_idx, step),
    {
        let summary = match parse_psbt(psbt.as_str()) {
            Ok(s) => s,
            Err(e) => {
                return fail(internal(join2("invalid funding PSBT: ", e.as_str())));
            },
        };
        let idx: i32 = match batch_transfer_idx {
            Some(idx) => idx,
            None => {
                return fail(internal(text("RGB funding transfer has no batch transfer ID")));
            },
        };
        let mut info = self.info.duplicate();
        info.batch_transfer_idx = Some(idx);
        let record = RgbSenderFundingRecord {
            version: RgbSenderFundingRecord::VERSION,
            manual_broadcast: true,
            temporary_channel_id: copy(&self.temporary_channel_id),
            final_channel_id: None,
            funding_txid: summary.txid,
            batch_transfer_idx: idx,
            rgb_info: Some(info),
            consignment_delivery: RgbSenderConsignmentDelivery::P2p,
            stage: RgbSenderFundingStage::Preparing,
        };
        assert(record == intent_record(
            self.temporary_channel_id,
            self.info,
            record.funding_txid,
            idx,
        ));
        match record.validate() {
            Ok(_) => PreparationStep::WriteIntent { psbt, record },
            Err(error) => PreparationStep::FailTransfers { error, batch_transfer_idx: idx },
        }
    }

    /// Decides what follows from a reply.
    pub fn advance(self, reply: PreparationReply) -> (next: Self)
        requires
            preparation_fits(self.step, reply),
        ensures
            next.temporary_channel_id == self.temporary_channel_id,
            next.info == self.info,
            preparation_next(self, reply, next.step),
    {
        let Preparation { temporary_channel_id, info, step } = self;
        let job = Preparation { temporary_channel_id, info, step: PreparationStep::SendBegin };
        let step = match reply {
            PreparationReply::WorkerFailed(e) => fail(
                internal(join2("RGB channel funding preparation worker failed: ", e.as_str())),
            ),
            reply => match step {
                PreparationStep::SendBegin => match reply {
                    PreparationReply::Begun { psbt, batch_transfer_idx } => PreparationStep::ReadFascia {
                        psbt,
                        batch_transfer_idx,
                    },
                    PreparationReply::WalletFailed(e) => fail(e),
                    _ => unreached(),
                },
                PreparationStep::ReadFascia { psbt, batch_transfer_idx } => match reply {
                    PreparationReply::Done => PreparationStep::CreateConsignments {
                        psbt,
                        batch_transfer_idx,
                    },
                    PreparationReply::Undecodable(e) => fail(
                        internal(join2("invalid funding fascia: ", e.as_str())),
                    ),
                    PreparationReply::WalletFailed(e) => fail(e),
                    _ => unreached(),
                },
                PreparationStep::CreateConsignments { psbt, batch_transfer_idx } => match reply {
                    PreparationReply::Done => job.journal_intent(psbt, batch_transfer_idx),
                    PreparationReply::WalletFailed(e) => fail(e),
                    _ => unreached(),
                },
                PreparationStep::WriteIntent { psbt, record } => match reply {
                    PreparationReply::Done => PreparationStep::PromoteFascia { psbt, record },
                    PreparationReply::StoreFailed(e) => PreparationStep::FailTransfers {
                        error: rgb_sender_funding_error(
                            "cannot persist sender funding journal",
                            e.text.as_str(),
                        ),
                        batch_transfer_idx: record.batch_transfer_idx,
                    },
                    _ => unreached(),
                },
                PreparationStep::FailTransfers { error, .. } => match reply {
                    PreparationReply::Flag(true) => fail(error),
                    PreparationReply::WalletFailed(cleanup) => PreparationStep::Failed(
                        PreparationError::CleanupFailed { error, cleanup },
                    ),
                    _ => PreparationStep::Failed(PreparationError::Unreleased(error)),
                },
                PreparationStep::PromoteFascia { psbt, record } => match reply {
                    PreparationReply::Done => {
                        let promoted = record.moved_to(RgbSenderFundingStage::StockPromoted);
                        match promoted.validate() {
                            Ok(_) => PreparationStep::WritePromoted { psbt, record: promoted },
                            Err(error) => PreparationStep::Rollback {
                                error,
                                record: promoted,
                                journal_failed: true,
                            },
                        }
                    },
                    PreparationReply::WalletFailed(error) => PreparationStep::Rollback {
                        error,
                        record,
                        journal_failed: false,
                    },
                    _ => unreached(),
                },
                PreparationStep::WritePromoted { psbt, record } => match reply {
                    PreparationReply::Done => PreparationStep::Backup { psbt, record },
                    PreparationReply::StoreFailed(e) => PreparationStep::Rollback {
                        error: rgb_sender_funding_error(
                            "cannot persist sender funding journal",
                            e.text.as_str(),
                        ),
                        record,
                        journal_failed: true,
                    },
                    _ => unreached(),
                },
                PreparationStep::Backup { psbt, record } => match reply {
                    PreparationReply::Done => PreparationStep::Prepared { psbt, record },
                    PreparationReply::WalletFailed(error) => PreparationStep::Rollback {
                        error,
                        record,
                        journal_failed: false,
                    },
                    _ => unreached(),
                },
                PreparationStep::Rollback { error, journal_failed, .. } => match reply {
                    PreparationReply::WalletFailed(cleanup) => if journal_failed {
                        PreparationStep::Failed(PreparationError::RollbackFailed { error, cleanup })
                    } else {
                        fail(cleanup)
                    },
                    _ => fail(error),
                },
                _ => unreached(),
            },
        };
        Preparation { temporary_channel_id: job.temporary_channel_id, info: job.info, step }
    }
}

/// A funding is only prepared once its promotion is journalled and backed up: the record is at the
/// promoted stage, and nothing but an acknowledged backup leads there.
pub proof fn law_prepared_fundings_are_durable(
    job: Preparation,
    reply: PreparationReply,
    step: PreparationStep,
)
    requires
        preparation_fits(job.step, reply),
        preparation_next(job, reply, step),
        step is Prepared,
    ensures
        job.step is Backup && reply is Done,
{
}

/// After the intent was journalled every failure undoes the funding before it is reported.
pub proof fn law_journalled_fundings_are_rolled_back(
    job: Preparation,
    reply: PreparationReply,
    step: PreparationStep,
)
    requires
        preparation_fits(job.step, reply),
        preparation_next(job, reply, step),
        job.step is PromoteFascia || job.step is WritePromoted || job.step is Backup,
        !(reply is Done),
        !(reply is WorkerFailed),
    ensures
        step is Rollback,
{
}

/// The funding output of a channel gets everything that both sides are to hold of the asset, or the one
/// unique asset.
pub proof fn law_funding_outputs_hold_the_whole_allocation(info: RgbInfo)
    requires
        info.local_rgb_amount + info.remote_rgb_amount <= u64::MAX,
    ensures
        info.schema is Uda ==> channel_assignment(info) is NonFungible,
        !(info.schema is Uda) ==> (channel_assignment(info) matches Assignment::Fungible(amount)
            && amount == info.local_rgb_amount + info.remote_rgb_amount),
{
}

/// The transfer that funds a channel pays the channel's value and its whole allocation to the channel,
/// lasts a day, is final, and is for real; only a virtual one, which needs no confirmation, names a
/// proxy.
pub proof fn law_funding_transfers_pay_the_channel(
    info: RgbInfo,
    recipient_id: String,
    channel_value_satoshis: u64,
    static_blinding: u64,
    virtual_proxy: Option<String>,
    fee_rate_sat_vb: u64,
    min_channel_confirmations: u8,
    now: u64,
    r: FundingTransfer,
)
    requires
        info.local_rgb_amount + info.remote_rgb_amount <= u64::MAX,
        is_funding_transfer(
            info,
            recipient_id,
            channel_value_satoshis,
            static_blinding,
            virtual_proxy,
            fee_rate_sat_vb,
            min_channel_confirmations,
            now,
            r,
        ),
    ensures
        r.asset_id@ == info.contract_id@ && r.recipient_id == recipient_id,
        r.amount_sat == channel_value_satoshis && r.fee_rate == fee_rate_sat_vb,
        r.blinding == Some(static_blinding),
        !(info.schema is Uda) ==> (r.assignment matches Assignment::Fungible(amount) && amount
            == info.local_rgb_amount + info.remote_rgb_amount),
        r.expiration_timestamp == now + 24 * 60 * 60,
        r.lock_time == Some(0u32) && r.donation && !r.dry_run,
        virtual_proxy is None ==> r.transport_endpoints@.len() == 0 && r.min_confirmations
            == min_channel_confirmations,
        virtual_proxy matches Some(proxy) ==> r.transport_endpoints@.len() == 1
            && r.transport_endpoints@[0] == proxy && r.min_confirmations == 0,
{
}

/// A plain funding is given up where the wallet fails for good, and replayed where it may come back or
/// where its transaction cannot be read; otherwise it is ready, with its lock time normalized.
pub proof fn law_plain_fundings_are_ready_or_retried(
    begun: Result<String, RgbLibError>,
    height: u32,
    r: PlainFunding,
)
    requires
        is_plain_funding(begun, height, r),
    ensures
        begun matches Err(e) ==> if e is Indexer || e is InvalidIndexer || e is Network {
            r is Replay
        } else {
            r == PlainFunding::Close(e)
        },
        begun is Ok ==> !(r is Close),
        r matches PlainFunding::Ready(t) ==> begun is Ok && psbt_summary(begun->Ok_0@) is Ok && (
        psbt_relocked(
            begun->Ok_0@,
            normalized_lock_time(psbt_summary(begun->Ok_0@)->Ok_0, height),
        ) matches Ok(s) && s == t@),
{
}

/// A failed preparation is only replayed where everything was undone and the network may come back; what
/// could not be undone is always reported.
pub proof fn law_undone_preparations_may_be_replayed(
    e: PreparationError,
    written: WrittenErrors,
    r: PrepareFailure,
)
    requires
        prepared_badly(e, written, r),
    ensures
        r is Replay ==> (e matches PreparationError::Plain(error) && (error is Indexer
            || error is InvalidIndexer || error is Network)),
        !(e is Plain) ==> r is Close,
        (e matches PreparationError::Plain(error) && !(error is Indexer || error is InvalidIndexer
            || error is Network)) ==> r == PrepareFailure::Close(e->Plain_0),
        (e matches PreparationError::Plain(error) && (error is Indexer || error is InvalidIndexer
            || error is Network)) ==> r is Replay,
{
}

/// A preparation skips nothing: the transfer is begun, its fascia read, its consignments made, its intent
/// journalled before the stock is touched, its promotion journalled, and the wallet backed up.
pub proof fn law_preparations_skip_nothing(
    job: Preparation,
    reply: PreparationReply,
    step: PreparationStep,
)
    requires
        preparation_fits(job.step, reply),
        preparation_next(job, reply, step),
    ensures
        match step {
            PreparationStep::SendBegin => false,
            PreparationStep::ReadFascia { psbt, batch_transfer_idx } => job.step is SendBegin && reply
                == (PreparationReply::Begun { psbt, batch_transfer_idx }),
            PreparationStep::CreateConsignments { psbt, batch_transfer_idx } => job.step == (
            PreparationStep::ReadFascia { psbt, batch_transfer_idx }) && reply is Done,
            PreparationStep::WriteIntent { psbt, record } => job.step is CreateConsignments
                && job.step->CreateConsignments_psbt == psbt && reply is Done
                && record.stage is Preparing && record.version == 4 && record.manual_broadcast
                && job.step->CreateConsignments_batch_transfer_idx == Some(record.batch_transfer_idx)
                && record.temporary_channel_id == job.temporary_channel_id
                && record.final_channel_id is None && record.consignment_delivery
                == RgbSenderConsignmentDelivery::P2p && record.rgb_info is Some
                && record.rgb_info->0.local_rgb_amount == job.info.local_rgb_amount
                && record.rgb_info->0.remote_rgb_amount == job.info.remote_rgb_amount
                && record.rgb_info->0.batch_transfer_idx == Some(record.batch_transfer_idx)
                && record.rgb_info->0.contract_id == job.info.contract_id && (psbt_summary(
                psbt@,
            ) matches Ok(p) && record.funding_txid@ == p.txid),
            PreparationStep::PromoteFascia { psbt, record } => job.step == (
            PreparationStep::WriteIntent { psbt, record }) && reply is Done,
            PreparationStep::WritePromoted { psbt, record } => job.step is PromoteFascia
                && job.step->PromoteFascia_psbt == psbt && reply is Done && record.stage is StockPromoted
                && record.funding_txid == job.step->PromoteFascia_record.funding_txid
                && record.batch_transfer_idx == job.step->PromoteFascia_record.batch_transfer_idx,
            PreparationStep::Backup { psbt, record } => job.step == (PreparationStep::WritePromoted {
                psbt,
                record,
            }) && reply is Done,
            PreparationStep::Prepared { psbt, record } => job.step == (PreparationStep::Backup {
                psbt,
                record,
            }) && reply is Done,
            PreparationStep::FailTransfers { batch_transfer_idx, .. } => (
            job.step matches PreparationStep::WriteIntent { record, .. } && record.batch_transfer_idx
                == batch_transfer_idx && reply is StoreFailed) || (job.step is CreateConsignments
                && reply is Done),
            PreparationStep::Rollback { .. } => job.step is PromoteFascia || job.step is WritePromoted
                || job.step is Backup,
            PreparationStep::Failed(_) => true,
        },
{
}

/// What was begun is undone before a failure is reported, and where undoing fails the report says so: a
/// transfer that could not be journalled is released, a journalled funding rolled back.
pub proof fn law_failed_preparations_are_undone(
    job: Preparation,
    reply: PreparationReply,
    step: PreparationStep,
)
    requires
        preparation_fits(job.step, reply),
        preparation_next(job, reply, step),
        !(reply is WorkerFailed),
    ensures
        job.step is WriteIntent && reply is StoreFailed ==> step is FailTransfers,
        job.step matches PreparationStep::FailTransfers { error, .. } ==> {
            &&& reply == PreparationReply::Flag(true) ==> step == PreparationStep::Failed(
                PreparationError::Plain(error),
            )
            &&& reply == PreparationReply::Flag(false) ==> step == PreparationStep::Failed(
                PreparationError::Unreleased(error),
            )
            &&& reply matches PreparationReply::WalletFailed(cleanup) ==> step
                == PreparationStep::Failed(PreparationError::CleanupFailed { error, cleanup })
        },
        job.step matches PreparationStep::Rollback { error, journal_failed, .. } ==> {
            &&& reply is Done ==> step == PreparationStep::Failed(PreparationError::Plain(error))
            &&& reply matches PreparationReply::WalletFailed(cleanup) ==> journal_failed ==> step
                == PreparationStep::Failed(PreparationError::RollbackFailed { error, cleanup })
            &&& reply matches PreparationReply::WalletFailed(cleanup) ==> !journal_failed ==> step
                == PreparationStep::Failed(PreparationError::Plain(cleanup))
        },
        (job.step is PromoteFascia || job.step is Backup) && (
        reply matches PreparationReply::WalletFailed(e)) ==> (
        step matches PreparationStep::Rollback { error, journal_failed, .. } && error
            == reply->WalletFailed_0 && !journal_failed),
        job.step is WritePromoted && reply is StoreFailed ==> (
        step matches PreparationStep::Rollback { journal_failed, record, .. } && journal_failed
            && record == job.step->WritePromoted_record),
        (job.step is SendBegin || job.step is ReadFascia || job.step is CreateConsignments) && (
        reply matches PreparationReply::WalletFailed(e)) ==> step == PreparationStep::Failed(
            PreparationError::Plain(reply->WalletFailed_0),
        ),
{
}

/// The intent of a funding names the transaction, the transfer and the channel, says that nothing has been
/// broadcast and that the consignment goes to the peer, and holds the whole allocation.
pub proof fn law_intents_hold_the_funding(
    temporary_channel_id: String,
    info: RgbInfo,
    funding_txid: String,
    idx: i32,
)
    ensures
        ({
            let r = intent_record(temporary_channel_id, info, funding_txid, idx);
            &&& r.version == 4 && r.manual_broadcast && r.stage is Preparing
                && r.consignment_delivery is P2p
            &&& r.temporary_channel_id == temporary_channel_id && r.final_channel_id is None
                && r.funding_txid == funding_txid && r.batch_transfer_idx == idx
            &&& r.rgb_info matches Some(kept) && kept.batch_transfer_idx == Some(idx)
                && kept.contract_id == info.contract_id && kept.schema == info.schema
                && kept.local_rgb_amount == info.local_rgb_amount && kept.remote_rgb_amount
                == info.remote_rgb_amount
        }),
{
}

/// A funding whose transaction and transfer are known is journalled before anything else is done where
/// its record may be written, under the transaction's own ID; one whose record may not be is released.
pub proof fn law_intents_are_journalled_or_released(
    job: Preparation,
    psbt: String,
    summary: PsbtSummaryView,
    idx: i32,
    step: PreparationStep,
)
    requires
        journals_intent(job, psbt, Ok(summary), Some(idx), step),
    ensures
        step is WriteIntent || step is FailTransfers,
        step matches PreparationStep::WriteIntent { psbt: kept, record } ==> kept == psbt
            && record.funding_txid@ == summary.txid && record.batch_transfer_idx == idx
            && record.temporary_channel_id == job.temporary_channel_id && record.valid(),
        step matches PreparationStep::FailTransfers { batch_transfer_idx, .. } ==> batch_transfer_idx
            == idx,
{
}

/// A transaction that cannot be read, or a transfer without an index, ends the preparation with nothing
/// journalled.
pub proof fn law_unreadable_fundings_are_not_journalled(
    job: Preparation,
    psbt: String,
    parsed: Result<PsbtSummaryView, Seq<char>>,
    idx: Option<i32>,
    step: PreparationStep,
)
    requires
        journals_intent(job, psbt, parsed, idx, step),
        parsed is Err || idx is None,
    ensures
        step is Failed,
{
}

} // verus!
