//! The sender's funding journal: one record per RGB channel funding transaction, from the first
//! wallet mutation to the durable completion, and what may be done with a record that was
//! interrupted.

use vstd::prelude::*;
use vstd::string::*;

use crate::error::{internal, is_internal, RgbLibError};
use crate::text::{copy, copy_opt, fixed_hex, is_fixed_hex, text};

verus! {

/// How far the funding of a channel has come.
#[derive(Clone, Copy, Debug, PartialEq, Eq, Structural)]
pub enum RgbSenderFundingStage {
    Preparing,
    StockPromoted,
    HandoffReady,
    HandedToLdk,
    BroadcastSafeObserved,
    Broadcasting,
    BroadcastCommitted,
    Finalized,
    DurablyCompleted,
    RollingBack,
    RetryRequired,
}

/// How the consignment reaches the receiver.
#[derive(Clone, Copy, Debug, PartialEq, Eq, Structural)]
pub enum RgbSenderConsignmentDelivery {
    Proxy,
    P2p,
}

impl Default for RgbSenderConsignmentDelivery {
    fn default() -> (r: Self)
        ensures
            r == RgbSenderConsignmentDelivery::Proxy,
    {
        RgbSenderConsignmentDelivery::Proxy
    }
}

/// The schema of an RGB asset.
#[derive(Clone, Copy, Debug, PartialEq, Eq, Structural)]
pub enum AssetSchema {
    Nia,
    Uda,
    Cfa,
    Ifa,
}

/// The RGB allocation of a channel.
#[derive(Clone, Debug, PartialEq, Eq)]
pub struct RgbInfo {
    pub contract_id: String,
    pub schema: AssetSchema,
    pub local_rgb_amount: u64,
    pub remote_rgb_amount: u64,
    pub batch_transfer_idx: Option<i32>,
    pub counterparty_knows_asset: bool,
}

impl RgbInfo {
    /// A copy of the allocation.
    pub fn duplicate(&self) -> (r: Self)
        ensures
            r == *self,
    {
        RgbInfo {
            contract_id: copy(&self.contract_id),
            schema: self.schema,
            local_rgb_amount: self.local_rgb_amount,
            remote_rgb_amount: self.remote_rgb_amount,
            batch_transfer_idx: self.batch_transfer_idx,
            counterparty_knows_asset: self.counterparty_knows_asset,
        }
    }
}

/// Copies an optional allocation.
pub fn duplicate_info(info: &Option<RgbInfo>) -> (r: Option<RgbInfo>)
    ensures
        r == *info,
{
    match info {
        Some(i) => Some(i.duplicate()),
        None => None,
    }
}

/// The journal record of one funding transaction.
#[derive(Clone, Debug, PartialEq, Eq)]
pub struct RgbSenderFundingRecord {
    pub version: u8,
    pub manual_broadcast: bool,
    pub temporary_channel_id: String,
    pub final_channel_id: Option<String>,
    pub funding_txid: String,
    pub batch_transfer_idx: i32,
    pub rgb_info: Option<RgbInfo>,
    pub consignment_delivery: RgbSenderConsignmentDelivery,
    pub stage: RgbSenderFundingStage,
}

/// Whether a stage is only reached once the final channel ID is known.
pub open spec fn needs_final_channel_id(stage: RgbSenderFundingStage) -> bool {
    match stage {
        RgbSenderFundingStage::HandoffReady
        | RgbSenderFundingStage::HandedToLdk
        | RgbSenderFundingStage::BroadcastSafeObserved
        | RgbSenderFundingStage::Broadcasting
        | RgbSenderFundingStage::BroadcastCommitted
        | RgbSenderFundingStage::Finalized
        | RgbSenderFundingStage::DurablyCompleted => true,
        _ => false,
    }
}

impl RgbSenderFundingRecord {
    pub const LEGACY_VERSION: u8 = 1;

    pub const MANUAL_BROADCAST_VERSION: u8 = 2;

    pub const RGB_INFO_VERSION: u8 = 3;

    pub const VERSION: u8 = 4;

    /// The fields fit each other and the record's version: the first version left the broadcast to
    /// the channel manager, later ones broadcast themselves; the allocation is kept from the third
    /// version on; the fourth delivers consignments from peer to peer, earlier ones over the proxy.
    pub open spec fn well_formed(self) -> bool {
        &&& 1 <= self.version <= 4
        &&& self.manual_broadcast == (self.version != 1)
        &&& fixed_hex(self.temporary_channel_id@, 32)
        &&& fixed_hex(self.funding_txid@, 32)
        &&& self.final_channel_id matches Some(id) ==> fixed_hex(id@, 32)
        &&& self.batch_transfer_idx >= 0
        &&& self.version >= 3 ==> self.rgb_info is Some
        &&& self.consignment_delivery == (if self.version == 4 {
            RgbSenderConsignmentDelivery::P2p
        } else {
            RgbSenderConsignmentDelivery::Proxy
        })
    }

    /// A record that may be written to and trusted from the journal.
    pub open spec fn valid(self) -> bool {
        self.well_formed() && (needs_final_channel_id(self.stage) ==> self.final_channel_id is Some)
    }

    /// What is said of a record that may not be written or trusted.
    pub open spec fn rejection(self) -> Seq<char> {
        if !self.well_formed() {
            "invalid RGB sender funding journal"@
        } else {
            "RGB sender funding journal stage requires a final channel ID"@
        }
    }

    /// Checks a record before it is written and after it was read.
    pub fn validate(&self) -> (r: Result<(), RgbLibError>)
        ensures
            r is Ok <==> self.valid(),
            r matches Err(e) ==> is_internal(e, self.rejection()),
    {
        let final_id_malformed = match &self.final_channel_id {
            Some(channel_id) => !is_fixed_hex(channel_id.as_str(), 32),
            None => false,
        };
        if !(self.version == Self::LEGACY_VERSION || self.version == Self::MANUAL_BROADCAST_VERSION
            || self.version == Self::RGB_INFO_VERSION || self.version == Self::VERSION) || (
        self.version == Self::LEGACY_VERSION && self.manual_broadcast) || (self.version
            != Self::LEGACY_VERSION && !self.manual_broadcast) || !is_fixed_hex(
            self.temporary_channel_id.as_str(),
            32,
        ) || !is_fixed_hex(self.funding_txid.as_str(), 32) || final_id_malformed
            || self.batch_transfer_idx < 0 || (self.version >= Self::RGB_INFO_VERSION
            && self.rgb_info.is_none()) || (self.version < Self::VERSION
            && self.consignment_delivery != RgbSenderConsignmentDelivery::Proxy) || (self.version
            == Self::VERSION && self.consignment_delivery != RgbSenderConsignmentDelivery::P2p) {
            return Err(internal(text("invalid RGB sender funding journal")));
        }
        let stage_needs_id = match self.stage {
            RgbSenderFundingStage::HandoffReady
            | RgbSenderFundingStage::HandedToLdk
            | RgbSenderFundingStage::BroadcastSafeObserved
            | RgbSenderFundingStage::Broadcasting
            | RgbSenderFundingStage::BroadcastCommitted
            | RgbSenderFundingStage::Finalized
            | RgbSenderFundingStage::DurablyCompleted => true,
            _ => false,
        };
        if stage_needs_id && self.final_channel_id.is_none() {
            return Err(
                internal(text("RGB sender funding journal stage requires a final channel ID")),
            );
        }
        Ok(())
    }

    /// A copy of the record.
    pub fn duplicate(&self) -> (r: Self)
        ensures
            r == *self,
    {
        RgbSenderFundingRecord {
            version: self.version,
            manual_broadcast: self.manual_broadcast,
            temporary_channel_id: copy(&self.temporary_channel_id),
            final_channel_id: copy_opt(&self.final_channel_id),
            funding_txid: copy(&self.funding_txid),
            batch_transfer_idx: self.batch_transfer_idx,
            rgb_info: duplicate_info(&self.rgb_info),
            consignment_delivery: self.consignment_delivery,
            stage: self.stage,
        }
    }

    /// The same record at another stage.
    pub open spec fn at(self, stage: RgbSenderFundingStage) -> Self {
        RgbSenderFundingRecord { stage, ..self }
    }

    /// A copy of the record at another stage.
    pub fn moved_to(&self, stage: RgbSenderFundingStage) -> (r: Self)
        ensures
            r == self.at(stage),
    {
        let mut r = self.duplicate();
        r.stage = stage;
        r
    }
}

/// What to do with an interrupted record.
#[derive(Clone, Copy, Debug, PartialEq, Eq, Structural)]
pub enum RgbSenderRecoveryAction {
    Finalize,
    ResumeBroadcast,
    Rollback,
    FailClosed,
}

/// Whether the funding already went through, apart from its acknowledgement.
pub open spec fn is_final_stage(stage: RgbSenderFundingStage) -> bool {
    stage == RgbSenderFundingStage::Finalized || stage == RgbSenderFundingStage::DurablyCompleted
}

/// Whether the node may have begun to broadcast the transaction itself.
pub open spec fn is_broadcast_stage(stage: RgbSenderFundingStage) -> bool {
    stage == RgbSenderFundingStage::Broadcasting || stage
        == RgbSenderFundingStage::BroadcastCommitted
}

/// Whether the transaction was, or was about to be, handed to the channel manager.
pub open spec fn is_handoff_stage(stage: RgbSenderFundingStage) -> bool {
    stage == RgbSenderFundingStage::HandoffReady || stage == RgbSenderFundingStage::HandedToLdk
        || stage == RgbSenderFundingStage::BroadcastSafeObserved
}

/// What is known of a record decides what may be done with it: with a durable channel the funding
/// is carried on; without one it is rolled back only if nothing can have broadcast it.
pub open spec fn sender_recovery_action(
    stage: RgbSenderFundingStage,
    manual_broadcast: bool,
    channel_is_durable: bool,
    transaction_is_known: bool,
) -> RgbSenderRecoveryAction {
    if channel_is_durable {
        if is_final_stage(stage) || is_broadcast_stage(stage) || transaction_is_known {
            RgbSenderRecoveryAction::Finalize
        } else {
            RgbSenderRecoveryAction::ResumeBroadcast
        }
    } else if is_final_stage(stage) || is_broadcast_stage(stage) || transaction_is_known || (
    is_handoff_stage(stage) && !manual_broadcast) {
        RgbSenderRecoveryAction::FailClosed
    } else {
        RgbSenderRecoveryAction::Rollback
    }
}

/// Decides how an interrupted record is recovered.
pub fn rgb_sender_recovery_action(
    record: &RgbSenderFundingRecord,
    channel_is_durable: bool,
    transaction_is_known: bool,
) -> (r: RgbSenderRecoveryAction)
    ensures
        r == sender_recovery_action(
            record.stage,
            record.manual_broadcast,
            channel_is_durable,
            transaction_is_known,
        ),
{
    if record.stage == RgbSenderFundingStage::Finalized || record.stage
        == RgbSenderFundingStage::DurablyCompleted {
        return if channel_is_durable {
            RgbSenderRecoveryAction::Finalize
        } else {
            RgbSenderRecoveryAction::FailClosed
        };
    }
    if transaction_is_known {
        return if channel_is_durable {
            RgbSenderRecoveryAction::Finalize
        } else {
            RgbSenderRecoveryAction::FailClosed
        };
    }
    if channel_is_durable {
        return if record.stage == RgbSenderFundingStage::Broadcasting || record.stage
            == RgbSenderFundingStage::BroadcastCommitted {
            RgbSenderRecoveryAction::Finalize
        } else {
            RgbSenderRecoveryAction::ResumeBroadcast
        };
    }
    match record.stage {
        RgbSenderFundingStage::Preparing | RgbSenderFundingStage::StockPromoted => {
            RgbSenderRecoveryAction::Rollback
        },
        RgbSenderFundingStage::HandoffReady
        | RgbSenderFundingStage::HandedToLdk
        | RgbSenderFundingStage::BroadcastSafeObserved => {
            // First-version journals left the broadcast to the channel manager: once the handoff
            // may have begun, absence from one indexer does not prove that nothing was broadcast.
            if record.manual_broadcast {
                RgbSenderRecoveryAction::Rollback
            } else {
                RgbSenderRecoveryAction::FailClosed
            }
        },
        RgbSenderFundingStage::RollingBack | RgbSenderFundingStage::RetryRequired => {
            RgbSenderRecoveryAction::Rollback
        },
        RgbSenderFundingStage::Broadcasting
        | RgbSenderFundingStage::BroadcastCommitted
        | RgbSenderFundingStage::Finalized
        | RgbSenderFundingStage::DurablyCompleted => RgbSenderRecoveryAction::FailClosed,
    }
}

/// Whether a record shows up in the list of recoveries.
pub open spec fn is_reported(
    record: RgbSenderFundingRecord,
    channel_is_durable: bool,
    r: bool,
) -> bool {
    &&& r == !(record.stage == RgbSenderFundingStage::DurablyCompleted && channel_is_durable)
}

/// Whether a record must show up in the list of recoveries: completed records are kept as replay
/// acknowledgements only while their channel is durable.
pub fn should_report_rgb_sender_recovery(
    record: &RgbSenderFundingRecord,
    channel_is_durable: bool,
) -> (r: bool)
    ensures
        is_reported(*record, channel_is_durable, r),
{
    record.stage != RgbSenderFundingStage::DurablyCompleted || !channel_is_durable
}

// ---------------------------------------------------------------------------------------------
// Laws
// ---------------------------------------------------------------------------------------------

/// Recovery is fail-closed at the broadcast boundary: a funding transaction that the chain knows,
/// that the node may have broadcast, or that was completed, is never rolled back.
pub proof fn law_broadcast_is_never_rolled_back(
    stage: RgbSenderFundingStage,
    manual_broadcast: bool,
    durable: bool,
    known: bool,
)
    requires
        known || is_broadcast_stage(stage) || is_final_stage(stage),
    ensures
        sender_recovery_action(stage, manual_broadcast, durable, known)
            != RgbSenderRecoveryAction::Rollback,
        !durable ==> sender_recovery_action(stage, manual_broadcast, durable, known)
            == RgbSenderRecoveryAction::FailClosed,
{
}

/// A first-version record that may have been handed over is never rolled back, whatever an indexer
/// does not know.
pub proof fn law_legacy_handoff_is_never_rolled_back(stage: RgbSenderFundingStage, durable: bool)
    requires
        is_handoff_stage(stage),
    ensures
        sender_recovery_action(stage, false, durable, false) != RgbSenderRecoveryAction::Rollback,
{
}

/// The wallet is touched for a missing channel in one way only, by rolling back; and a broadcast is
/// only ever resumed or finalized where the matching channel is durable.
pub proof fn law_only_durable_channels_move_forward(
    stage: RgbSenderFundingStage,
    manual_broadcast: bool,
    durable: bool,
    known: bool,
)
    ensures
        (sender_recovery_action(stage, manual_broadcast, durable, known)
            == RgbSenderRecoveryAction::Finalize || sender_recovery_action(
            stage,
            manual_broadcast,
            durable,
            known,
        ) == RgbSenderRecoveryAction::ResumeBroadcast) <==> durable,
{
}

/// What a record is recovered to, by what it says and what is known: with its channel on record the
/// funding goes on, from where it may be on the chain already by finalizing it, else by broadcasting it;
/// without its channel it is undone exactly where neither the node nor the channel manager can have
/// broadcast it.
pub proof fn law_recovery_follows_what_is_known(
    stage: RgbSenderFundingStage,
    manual_broadcast: bool,
    known: bool,
)
    ensures
        ({
            let durable = sender_recovery_action(stage, manual_broadcast, true, known);
            let missing = sender_recovery_action(stage, manual_broadcast, false, known);
            let begun = stage == RgbSenderFundingStage::Broadcasting || stage
                == RgbSenderFundingStage::BroadcastCommitted || stage
                == RgbSenderFundingStage::Finalized || stage
                == RgbSenderFundingStage::DurablyCompleted;
            let handed = stage == RgbSenderFundingStage::HandoffReady || stage
                == RgbSenderFundingStage::HandedToLdk || stage
                == RgbSenderFundingStage::BroadcastSafeObserved;
            &&& known || begun ==> durable == RgbSenderRecoveryAction::Finalize
            &&& !known && !begun ==> durable == RgbSenderRecoveryAction::ResumeBroadcast
            &&& known || begun || (handed && !manual_broadcast) ==> missing
                == RgbSenderRecoveryAction::FailClosed
            &&& !known && !begun && !(handed && !manual_broadcast) ==> missing
                == RgbSenderRecoveryAction::Rollback
        }),
{
}

/// To learn that the chain knows a transaction never turns a refusal into a rollback, nor a finalization
/// into another broadcast.
pub proof fn law_more_knowledge_is_safe(
    stage: RgbSenderFundingStage,
    manual_broadcast: bool,
    durable: bool,
)
    ensures
        sender_recovery_action(stage, manual_broadcast, durable, true)
            != RgbSenderRecoveryAction::Rollback,
        sender_recovery_action(stage, manual_broadcast, durable, true)
            != RgbSenderRecoveryAction::ResumeBroadcast,
        sender_recovery_action(stage, manual_broadcast, durable, false)
            == RgbSenderRecoveryAction::FailClosed ==> sender_recovery_action(
            stage,
            manual_broadcast,
            durable,
            true,
        ) == RgbSenderRecoveryAction::FailClosed,
        sender_recovery_action(stage, manual_broadcast, durable, false)
            == RgbSenderRecoveryAction::Finalize ==> sender_recovery_action(
            stage,
            manual_broadcast,
            durable,
            true,
        ) == RgbSenderRecoveryAction::Finalize,
{
}

/// A record that is trusted names its channel and its transaction in full, says how it is broadcast and
/// delivered as its version does, and knows its final channel from the handover on.
pub proof fn law_trusted_records_are_complete(record: RgbSenderFundingRecord)
    ensures
        record.valid() ==> {
            &&& record.version == 1 || record.version == 2 || record.version == 3 || record.version
                == 4
            &&& record.version == 1 <==> !record.manual_broadcast
            &&& record.version == 4 <==> record.consignment_delivery
                == RgbSenderConsignmentDelivery::P2p
            &&& record.version >= 3 ==> record.rgb_info is Some
            &&& record.temporary_channel_id@.len() == 64 && record.funding_txid@.len() == 64
            &&& record.final_channel_id matches Some(id) ==> id@.len() == 64
            &&& record.batch_transfer_idx >= 0
            &&& record.stage is HandoffReady || record.stage is HandedToLdk
                || record.stage is BroadcastSafeObserved || record.stage is Broadcasting
                || record.stage is BroadcastCommitted || record.stage is Finalized
                || record.stage is DurablyCompleted ==> record.final_channel_id is Some
        },
{
}

/// A current record is trusted where it is complete, whatever its stage.
pub proof fn law_complete_records_are_trusted(record: RgbSenderFundingRecord)
    requires
        record.version == 4,
        record.manual_broadcast,
        record.consignment_delivery == RgbSenderConsignmentDelivery::P2p,
        record.rgb_info is Some,
        fixed_hex(record.temporary_channel_id@, 32),
        fixed_hex(record.funding_txid@, 32),
        record.final_channel_id matches Some(id) ==> fixed_hex(id@, 32),
        record.batch_transfer_idx >= 0,
    ensures
        record.final_channel_id is Some ==> record.valid(),
        record.stage is Preparing || record.stage is StockPromoted || record.stage is RollingBack
            || record.stage is RetryRequired ==> record.valid(),
{
}

/// Everything but a completed funding of a channel on record is reported.
pub proof fn law_unfinished_fundings_are_reported(
    record: RgbSenderFundingRecord,
    durable: bool,
    r: bool,
)
    requires
        is_reported(record, durable, r),
    ensures
        !durable ==> r,
        record.stage != RgbSenderFundingStage::DurablyCompleted ==> r,
        durable && record.stage == RgbSenderFundingStage::DurablyCompleted ==> !r,
{
}

} // verus!
