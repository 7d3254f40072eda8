//! The receiver's funding journal: an accepted RGB channel opening, from validation to completion.

use vstd::prelude::*;
use vstd::string::*;

use crate::crypto::{final_channel_id, funding_channel_id, txid_bytes, txid_parse_error};
use crate::error::{is_internal, rgb_sender_funding_error, RgbLibError};
use crate::sender_funding::RgbInfo;
use crate::text::{fixed_hex, hex};

verus! {

/// How far the acceptance of a channel funding has come.
#[derive(Clone, Copy, Debug, PartialEq, Eq, Structural)]
pub enum FundingAcceptanceStage {
    Validating,
    Prepared,
    Promoted,
    Finalizing,
    Finalized,
    RollingBack,
    RetryRequired,
}

/// The journal record of one accepted funding.
#[derive(Clone, Debug, PartialEq, Eq)]
pub struct PendingFundingAcceptance {
    pub version: u8,
    pub temporary_channel_id: String,
    pub counterparty_node_id: String,
    pub funding_txid: String,
    pub funding_output_index: u16,
    pub push_asset_amount: Option<u64>,
    pub stage: FundingAcceptanceStage,
    pub consignment: Option<Vec<u8>>,
    pub rgb_info: Option<RgbInfo>,
}

/// What to do with an interrupted acceptance.
#[derive(Clone, Copy, Debug, PartialEq, Eq, Structural)]
pub enum RgbReceiverRecoveryAction {
    Rollback,
    Finalize,
    Complete,
    Quarantine,
}

/// An acceptance that never reached the stock is rolled back when its channel is missing; one that
/// did is carried on when its channel is durable; every other combination is left alone.
pub open spec fn receiver_recovery_action(
    stage: FundingAcceptanceStage,
    channel_is_durable: bool,
) -> RgbReceiverRecoveryAction {
    match stage {
        FundingAcceptanceStage::Validating
        | FundingAcceptanceStage::Prepared
        | FundingAcceptanceStage::RollingBack
        | FundingAcceptanceStage::RetryRequired => if channel_is_durable {
            RgbReceiverRecoveryAction::Quarantine
        } else {
            RgbReceiverRecoveryAction::Rollback
        },
        FundingAcceptanceStage::Promoted
        | FundingAcceptanceStage::Finalizing => if channel_is_durable {
            RgbReceiverRecoveryAction::Finalize
        } else {
            RgbReceiverRecoveryAction::Quarantine
        },
        FundingAcceptanceStage::Finalized => if channel_is_durable {
            RgbReceiverRecoveryAction::Complete
        } else {
            RgbReceiverRecoveryAction::Quarantine
        },
    }
}

/// Decides how an interrupted acceptance is recovered.
pub fn rgb_receiver_recovery_action(
    stage: FundingAcceptanceStage,
    channel_is_durable: bool,
) -> (r: RgbReceiverRecoveryAction)
    ensures
        r == receiver_recovery_action(stage, channel_is_durable),
{
    match (stage, channel_is_durable) {
        (
            FundingAcceptanceStage::Validating
            | FundingAcceptanceStage::Prepared
            | FundingAcceptanceStage::RollingBack
            | FundingAcceptanceStage::RetryRequired,
            false,
        ) => RgbReceiverRecoveryAction::Rollback,
        (FundingAcceptanceStage::Promoted | FundingAcceptanceStage::Finalizing, true) => {
            RgbReceiverRecoveryAction::Finalize
        },
        (FundingAcceptanceStage::Finalized, true) => RgbReceiverRecoveryAction::Complete,
        _ => RgbReceiverRecoveryAction::Quarantine,
    }
}

impl PendingFundingAcceptance {
    /// The characters of the final channel ID that the funding output determines.
    pub open spec fn channel_id(self) -> Seq<char> {
        hex(funding_channel_id(txid_bytes(self.funding_txid@), self.funding_output_index))
    }

    /// The same record at another stage.
    pub open spec fn at(self, stage: FundingAcceptanceStage) -> Self {
        PendingFundingAcceptance { stage, ..self }
    }
}

/// What is said of an acceptance whose transaction ID cannot be parsed.
pub open spec fn bad_receiver_txid(record: PendingFundingAcceptance) -> Seq<char> {
    "invalid finalized receiver funding transaction ID"@ + ": "@ + txid_parse_error(
        record.funding_txid@,
    )
}

/// The final channel ID, in hexadecimal, of an accepted funding.
pub fn receiver_final_channel_id(record: &PendingFundingAcceptance) -> (r: Result<
    String,
    RgbLibError,
>)
    ensures
        r is Ok <==> fixed_hex(record.funding_txid@, 32),
        r matches Ok(id) ==> id@ == record.channel_id(),
        r matches Err(e) ==> is_internal(e, bad_receiver_txid(*record)),
{
    match final_channel_id(record.funding_txid.as_str(), record.funding_output_index) {
        Ok(id) => Ok(id),
        Err(e) => Err(
            rgb_sender_funding_error(
                "invalid finalized receiver funding transaction ID",
                e.as_str(),
            ),
        ),
    }
}

/// The receiver's decisions are fail-closed: the wallet is mutated only where the stage and the
/// channel state agree, and no promoted stock is ever rolled back.
pub proof fn law_receiver_recovery_is_fail_closed(stage: FundingAcceptanceStage, durable: bool)
    ensures
        receiver_recovery_action(stage, durable) == RgbReceiverRecoveryAction::Rollback ==> !durable,
        receiver_recovery_action(stage, durable) == RgbReceiverRecoveryAction::Finalize ==> durable,
        receiver_recovery_action(stage, durable) == RgbReceiverRecoveryAction::Complete ==> durable
            && stage == FundingAcceptanceStage::Finalized,
        (stage == FundingAcceptanceStage::Promoted || stage == FundingAcceptanceStage::Finalizing
            || stage == FundingAcceptanceStage::Finalized) ==> receiver_recovery_action(stage, durable)
            != RgbReceiverRecoveryAction::Rollback,
{
}

/// An acceptance that did not reach the stock is undone exactly where its channel is missing, one that
/// did is carried on exactly where its channel is on record, and everything else is left alone.
pub proof fn law_receiver_recovery_follows_the_channel(stage: FundingAcceptanceStage)
    ensures
        ({
            let with = receiver_recovery_action(stage, true);
            let without = receiver_recovery_action(stage, false);
            let promoted = stage == FundingAcceptanceStage::Promoted || stage
                == FundingAcceptanceStage::Finalizing;
            &&& stage == FundingAcceptanceStage::Finalized ==> with
                == RgbReceiverRecoveryAction::Complete && without
                == RgbReceiverRecoveryAction::Quarantine
            &&& promoted ==> with == RgbReceiverRecoveryAction::Finalize && without
                == RgbReceiverRecoveryAction::Quarantine
            &&& !promoted && stage != FundingAcceptanceStage::Finalized ==> with
                == RgbReceiverRecoveryAction::Quarantine && without
                == RgbReceiverRecoveryAction::Rollback
        }),
{
}

/// The final channel of an acceptance is told by its transaction and output alone.
pub proof fn law_final_channels_are_told_by_the_funding_output(
    a: PendingFundingAcceptance,
    b: PendingFundingAcceptance,
)
    requires
        a.funding_txid@ == b.funding_txid@,
        a.funding_output_index == b.funding_output_index,
    ensures
        a.channel_id() == b.channel_id(),
{
}

} // verus!
