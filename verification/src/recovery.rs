//! Interrupted RGB channel fundings: what is reported of them, in which order, and how they keep
//! new wallet mutations out until they are resolved.

use vstd::prelude::*;
use vstd::string::*;

use crate::error::{internal, is_internal, rgb_sender_funding_error, APIError, RgbLibError};
use crate::receiver_funding::{
    bad_receiver_txid, receiver_final_channel_id, receiver_recovery_action,
    rgb_receiver_recovery_action, FundingAcceptanceStage, PendingFundingAcceptance,
    RgbReceiverRecoveryAction,
};
use crate::sender_funding::{
    is_final_stage, rgb_sender_recovery_action, sender_recovery_action,
    should_report_rgb_sender_recovery, RgbSenderFundingRecord, RgbSenderFundingStage,
    RgbSenderRecoveryAction,
};
use crate::text::{
    copy, copy_opt, fixed_hex, join, join3, joined, lemma_text_order, same, text, text_less,
    text_lt, views,
};

verus! {

// ---------------------------------------------------------------------------------------------
// Stages and actions
// ---------------------------------------------------------------------------------------------

/// The stage of a reported recovery, on either side of the funding.
#[derive(Clone, Copy, Debug, PartialEq, Eq, Structural)]
pub enum RgbFundingRecoveryStage {
    Sender(RgbSenderFundingStage),
    Receiver(FundingAcceptanceStage),
}

/// The stable name of a stage.
pub open spec fn stage_name(stage: RgbFundingRecoveryStage) -> Seq<char> {
    match stage {
        RgbFundingRecoveryStage::Sender(stage) => match stage {
            RgbSenderFundingStage::Preparing => "sender_preparing"@,
            RgbSenderFundingStage::StockPromoted => "sender_stock_promoted"@,
            RgbSenderFundingStage::HandoffReady => "sender_handoff_ready"@,
            RgbSenderFundingStage::HandedToLdk => "sender_handed_to_ldk"@,
            RgbSenderFundingStage::BroadcastSafeObserved => "sender_broadcast_safe_observed"@,
            RgbSenderFundingStage::Broadcasting => "sender_broadcasting"@,
            RgbSenderFundingStage::BroadcastCommitted => "sender_broadcast_committed"@,
            RgbSenderFundingStage::Finalized => "sender_finalized"@,
            RgbSenderFundingStage::DurablyCompleted => "sender_durably_completed"@,
            RgbSenderFundingStage::RollingBack => "sender_rolling_back"@,
            RgbSenderFundingStage::RetryRequired => "sender_retry_required"@,
        },
        RgbFundingRecoveryStage::Receiver(stage) => match stage {
            FundingAcceptanceStage::Validating => "receiver_validating"@,
            FundingAcceptanceStage::Prepared => "receiver_prepared"@,
            FundingAcceptanceStage::Promoted => "receiver_promoted"@,
            FundingAcceptanceStage::Finalizing => "receiver_finalizing"@,
            FundingAcceptanceStage::Finalized => "receiver_finalized"@,
            FundingAcceptanceStage::RollingBack => "receiver_rolling_back"@,
            FundingAcceptanceStage::RetryRequired => "receiver_retry_required"@,
        },
    }
}

/// The rank of a stage among the recoveries of one transaction: senders before receivers, each in
/// the order of their stages.
pub open spec fn stage_rank(stage: RgbFundingRecoveryStage) -> (u8, u8) {
    match stage {
        RgbFundingRecoveryStage::Sender(stage) => (
            0u8,
            match stage {
                RgbSenderFundingStage::Preparing => 0u8,
                RgbSenderFundingStage::StockPromoted => 1u8,
                RgbSenderFundingStage::HandoffReady => 2u8,
                RgbSenderFundingStage::HandedToLdk => 3u8,
                RgbSenderFundingStage::BroadcastSafeObserved => 4u8,
                RgbSenderFundingStage::Broadcasting => 5u8,
                RgbSenderFundingStage::BroadcastCommitted => 6u8,
                RgbSenderFundingStage::Finalized => 7u8,
                RgbSenderFundingStage::DurablyCompleted => 8u8,
                RgbSenderFundingStage::RollingBack => 9u8,
                RgbSenderFundingStage::RetryRequired => 10u8,
            },
        ),
        RgbFundingRecoveryStage::Receiver(stage) => (
            1u8,
            match stage {
                FundingAcceptanceStage::Validating => 0u8,
                FundingAcceptanceStage::Prepared => 1u8,
                FundingAcceptanceStage::Promoted => 2u8,
                FundingAcceptanceStage::Finalizing => 3u8,
                FundingAcceptanceStage::Finalized => 4u8,
                FundingAcceptanceStage::RollingBack => 5u8,
                FundingAcceptanceStage::RetryRequired => 6u8,
            },
        ),
    }
}

impl RgbFundingRecoveryStage {
    /// The stable name under which the interface reports the stage.
    pub fn as_str(self) -> (r: &'static str)
        ensures
            r@ == stage_name(self),
    {
        match self {
            Self::Sender(stage) => match stage {
                RgbSenderFundingStage::Preparing => "sender_preparing",
                RgbSenderFundingStage::StockPromoted => "sender_stock_promoted",
                RgbSenderFundingStage::HandoffReady => "sender_handoff_ready",
                RgbSenderFundingStage::HandedToLdk => "sender_handed_to_ldk",
                RgbSenderFundingStage::BroadcastSafeObserved => "sender_broadcast_safe_observed",
                RgbSenderFundingStage::Broadcasting => "sender_broadcasting",
                RgbSenderFundingStage::BroadcastCommitted => "sender_broadcast_committed",
                RgbSenderFundingStage::Finalized => "sender_finalized",
                RgbSenderFundingStage::DurablyCompleted => "sender_durably_completed",
                RgbSenderFundingStage::RollingBack => "sender_rolling_back",
                RgbSenderFundingStage::RetryRequired => "sender_retry_required",
            },
            Self::Receiver(stage) => match stage {
                FundingAcceptanceStage::Validating => "receiver_validating",
                FundingAcceptanceStage::Prepared => "receiver_prepared",
                FundingAcceptanceStage::Promoted => "receiver_promoted",
                FundingAcceptanceStage::Finalizing => "receiver_finalizing",
                FundingAcceptanceStage::Finalized => "receiver_finalized",
                FundingAcceptanceStage::RollingBack => "receiver_rolling_back",
                FundingAcceptanceStage::RetryRequired => "receiver_retry_required",
            },
        }
    }

    /// The rank of the stage among the recoveries of one transaction.
    pub fn sort_key(self) -> (r: (u8, u8))
        ensures
            r == stage_rank(self),
    {
        match self {
            Self::Sender(stage) => (
                0u8,
                match stage {
                    RgbSenderFundingStage::Preparing => 0u8,
                    RgbSenderFundingStage::StockPromoted => 1u8,
                    RgbSenderFundingStage::HandoffReady => 2u8,
                    RgbSenderFundingStage::HandedToLdk => 3u8,
                    RgbSenderFundingStage::BroadcastSafeObserved => 4u8,
                    RgbSenderFundingStage::Broadcasting => 5u8,
                    RgbSenderFundingStage::BroadcastCommitted => 6u8,
                    RgbSenderFundingStage::Finalized => 7u8,
                    RgbSenderFundingStage::DurablyCompleted => 8u8,
                    RgbSenderFundingStage::RollingBack => 9u8,
                    RgbSenderFundingStage::RetryRequired => 10u8,
                },
            ),
            Self::Receiver(stage) => (
                1u8,
                match stage {
                    FundingAcceptanceStage::Validating => 0u8,
                    FundingAcceptanceStage::Prepared => 1u8,
                    FundingAcceptanceStage::Promoted => 2u8,
                    FundingAcceptanceStage::Finalizing => 3u8,
                    FundingAcceptanceStage::Finalized => 4u8,
                    FundingAcceptanceStage::RollingBack => 5u8,
                    FundingAcceptanceStage::RetryRequired => 6u8,
                },
            ),
        }
    }
}

/// What an operator is told to do about a recovery.
#[derive(Clone, Copy, Debug, PartialEq, Eq, Structural)]
pub enum RgbFundingRecoveryAction {
    RetryReconciliation,
    ResumeBroadcast,
    RetryChainObservation,
    ManualChannelStateRecovery,
}

/// The stable name of an action.
pub open spec fn action_name(action: RgbFundingRecoveryAction) -> Seq<char> {
    match action {
        RgbFundingRecoveryAction::RetryReconciliation => "retry_reconciliation"@,
        RgbFundingRecoveryAction::ResumeBroadcast => "resume_broadcast"@,
        RgbFundingRecoveryAction::RetryChainObservation => "retry_chain_observation"@,
        RgbFundingRecoveryAction::ManualChannelStateRecovery => "manual_channel_state_recovery"@,
    }
}

impl RgbFundingRecoveryAction {
    /// The stable name under which the interface reports the action.
    pub fn as_str(self) -> (r: &'static str)
        ensures
            r@ == action_name(self),
    {
        match self {
            Self::RetryReconciliation => "retry_reconciliation",
            Self::ResumeBroadcast => "resume_broadcast",
            Self::RetryChainObservation => "retry_chain_observation",
            Self::ManualChannelStateRecovery => "manual_channel_state_recovery",
        }
    }
}

/// What an operator asks for.
#[derive(Clone, Copy, Debug, PartialEq, Eq, Structural)]
pub enum RgbFundingRecoveryCommand {
    Recheck,
    ResumeBroadcast,
}

/// One unresolved funding, as it is reported.
#[derive(Clone, Debug, PartialEq, Eq)]
pub struct RgbFundingRecoveryState {
    pub funding_txid: String,
    pub temporary_channel_id: String,
    pub final_channel_id: Option<String>,
    pub stage: RgbFundingRecoveryStage,
    pub channel_is_durable: bool,
    pub transaction_is_known: Option<bool>,
    pub error: Option<String>,
    pub action: RgbFundingRecoveryAction,
}

impl RgbFundingRecoveryState {
    /// A copy of the report.
    pub fn duplicate(&self) -> (r: Self)
        ensures
            r == *self,
    {
        RgbFundingRecoveryState {
            funding_txid: copy(&self.funding_txid),
            temporary_channel_id: copy(&self.temporary_channel_id),
            final_channel_id: copy_opt(&self.final_channel_id),
            stage: self.stage,
            channel_is_durable: self.channel_is_durable,
            transaction_is_known: self.transaction_is_known,
            error: copy_opt(&self.error),
            action: self.action,
        }
    }
}

/// The outcome of an operator's request: the asked-for funding, if it is still unresolved, and all
/// that are.
#[derive(Clone, Debug, PartialEq, Eq)]
pub struct RgbFundingRecoveryResolution {
    pub recovery: Option<RgbFundingRecoveryState>,
    pub recoveries: Vec<RgbFundingRecoveryState>,
}

// ---------------------------------------------------------------------------------------------
// Reports
// ---------------------------------------------------------------------------------------------

/// What an operator is told about a sender's record, before a failed reconciliation is considered.
pub open spec fn observed_action(
    record: RgbSenderFundingRecord,
    durable: bool,
    observation: Result<Option<bool>, String>,
) -> RgbFundingRecoveryAction {
    match observation {
        Err(_) => if !is_final_stage(record.stage) {
            RgbFundingRecoveryAction::RetryChainObservation
        } else if durable {
            RgbFundingRecoveryAction::RetryReconciliation
        } else {
            RgbFundingRecoveryAction::ManualChannelStateRecovery
        },
        Ok(known) => match sender_recovery_action(
            record.stage,
            record.manual_broadcast,
            durable,
            known == Some(true),
        ) {
            RgbSenderRecoveryAction::Finalize
            | RgbSenderRecoveryAction::Rollback => RgbFundingRecoveryAction::RetryReconciliation,
            RgbSenderRecoveryAction::ResumeBroadcast => RgbFundingRecoveryAction::ResumeBroadcast,
            RgbSenderRecoveryAction::FailClosed => RgbFundingRecoveryAction::ManualChannelStateRecovery,
        },
    }
}

/// What is reported of a sender's record: an error of the reconciliation goes before an error of
/// the observation, and asks for another try unless only an operator can help.
pub open spec fn sender_report(
    record: RgbSenderFundingRecord,
    durable: bool,
    observation: Result<Option<bool>, String>,
    error: Option<String>,
) -> RgbFundingRecoveryState {
    let action = observed_action(record, durable, observation);
    RgbFundingRecoveryState {
        funding_txid: record.funding_txid,
        temporary_channel_id: record.temporary_channel_id,
        final_channel_id: record.final_channel_id,
        stage: RgbFundingRecoveryStage::Sender(record.stage),
        channel_is_durable: durable,
        transaction_is_known: match observation {
            Ok(known) => known,
            Err(_) => None,
        },
        error: match (error, observation) {
            (Some(e), _) => Some(e),
            (None, Err(e)) => Some(e),
            (None, Ok(_)) => None,
        },
        action: if error is Some && action != RgbFundingRecoveryAction::ManualChannelStateRecovery {
            RgbFundingRecoveryAction::RetryReconciliation
        } else {
            action
        },
    }
}

/// Reports a sender's record. The errors come as the messages that they render to.
pub fn rgb_funding_recovery_view(
    record: &RgbSenderFundingRecord,
    channel_is_durable: bool,
    transaction_observation: Result<Option<bool>, String>,
    reconciliation_error: Option<String>,
) -> (r: RgbFundingRecoveryState)
    ensures
        r == sender_report(
            *record,
            channel_is_durable,
            transaction_observation,
            reconciliation_error,
        ),
{
    let (transaction_is_known, observation_error, observed) = match transaction_observation {
        Err(error) => {
            let action = if record.stage == RgbSenderFundingStage::Finalized || record.stage
                == RgbSenderFundingStage::DurablyCompleted {
                if channel_is_durable {
                    RgbFundingRecoveryAction::RetryReconciliation
                } else {
                    RgbFundingRecoveryAction::ManualChannelStateRecovery
                }
            } else {
                RgbFundingRecoveryAction::RetryChainObservation
            };
            let none: Option<bool> = None;
            (none, Some(error), action)
        },
        Ok(transaction_is_known) => {
            let recovery_action = rgb_sender_recovery_action(
                record,
                channel_is_durable,
                transaction_is_known.unwrap_or(false),
            );
            let action = match recovery_action {
                RgbSenderRecoveryAction::Finalize | RgbSenderRecoveryAction::Rollback => {
                    RgbFundingRecoveryAction::RetryReconciliation
                },
                RgbSenderRecoveryAction::ResumeBroadcast => {
                    RgbFundingRecoveryAction::ResumeBroadcast
                },
                RgbSenderRecoveryAction::FailClosed => {
                    RgbFundingRecoveryAction::ManualChannelStateRecovery
                },
            };
            let none: Option<String> = None;
            (transaction_is_known, none, action)
        },
    };
    let action = if reconciliation_error.is_some() && observed
        != RgbFundingRecoveryAction::ManualChannelStateRecovery {
        RgbFundingRecoveryAction::RetryReconciliation
    } else {
        observed
    };
    RgbFundingRecoveryState {
        funding_txid: copy(&record.funding_txid),
        temporary_channel_id: copy(&record.temporary_channel_id),
        final_channel_id: copy_opt(&record.final_channel_id),
        stage: RgbFundingRecoveryStage::Sender(record.stage),
        channel_is_durable,
        transaction_is_known,
        error: match reconciliation_error {
            Some(e) => Some(e),
            None => observation_error,
        },
        action,
    }
}

/// Whether a report is that of a receiver's record.
pub open spec fn is_receiver_report(
    r: RgbFundingRecoveryState,
    record: PendingFundingAcceptance,
    durable: bool,
    error: Option<String>,
) -> bool {
    &&& r.funding_txid == record.funding_txid
    &&& r.temporary_channel_id == record.temporary_channel_id
    &&& r.final_channel_id matches Some(id) && id@ == record.channel_id()
    &&& r.stage == RgbFundingRecoveryStage::Receiver(record.stage)
    &&& r.channel_is_durable == durable
    &&& r.transaction_is_known is None
    &&& r.error == error
    &&& r.action == (if receiver_recovery_action(record.stage, durable)
        == RgbReceiverRecoveryAction::Quarantine {
        RgbFundingRecoveryAction::ManualChannelStateRecovery
    } else {
        RgbFundingRecoveryAction::RetryReconciliation
    })
}

/// Reports a receiver's record.
pub fn rgb_receiver_funding_recovery_view(
    record: &PendingFundingAcceptance,
    channel_is_durable: bool,
    error: Option<String>,
) -> (r: Result<RgbFundingRecoveryState, RgbLibError>)
    ensures
        r is Ok <==> fixed_hex(record.funding_txid@, 32),
        r matches Ok(v) ==> is_receiver_report(v, *record, channel_is_durable, error),
        r matches Err(e) ==> is_internal(e, bad_receiver_txid(*record)),
{
    let action = match rgb_receiver_recovery_action(record.stage, channel_is_durable) {
        RgbReceiverRecoveryAction::Quarantine => {
            RgbFundingRecoveryAction::ManualChannelStateRecovery
        },
        RgbReceiverRecoveryAction::Rollback
        | RgbReceiverRecoveryAction::Finalize
        | RgbReceiverRecoveryAction::Complete => RgbFundingRecoveryAction::RetryReconciliation,
    };
    let final_channel_id = receiver_final_channel_id(record)?;
    Ok(
        RgbFundingRecoveryState {
            funding_txid: copy(&record.funding_txid),
            temporary_channel_id: copy(&record.temporary_channel_id),
            final_channel_id: Some(final_channel_id),
            stage: RgbFundingRecoveryStage::Receiver(record.stage),
            channel_is_durable,
            transaction_is_known: None,
            error,
            action,
        },
    )
}

// ---------------------------------------------------------------------------------------------
// Order
// ---------------------------------------------------------------------------------------------

/// Reports are ordered by transaction, then by the rank of their stage.
pub open spec fn report_lt(a: RgbFundingRecoveryState, b: RgbFundingRecoveryState) -> bool {
    text_lt(a.funding_txid@, b.funding_txid@) || (a.funding_txid@ == b.funding_txid@ && rank_lt(
        stage_rank(a.stage),
        stage_rank(b.stage),
    ))
}

pub open spec fn rank_lt(a: (u8, u8), b: (u8, u8)) -> bool {
    a.0 < b.0 || (a.0 == b.0 && a.1 < b.1)
}

/// No report comes before an earlier one.
pub open spec fn in_order(s: Seq<RgbFundingRecoveryState>) -> bool {
    forall|i: int, j: int| 0 <= i < j < s.len() ==> !report_lt(#[trigger] s[j], #[trigger] s[i])
}

/// Where a report goes in an ordered list: behind every report that does not come after it.
pub open spec fn slot(s: Seq<RgbFundingRecoveryState>, x: RgbFundingRecoveryState) -> int
    decreases s.len(),
{
    if s.len() == 0 {
        0
    } else if report_lt(x, s.last()) {
        slot(s.drop_last(), x)
    } else {
        s.len() as int
    }
}

/// The list in order; equal reports keep their places.
pub open spec fn ordered(s: Seq<RgbFundingRecoveryState>) -> Seq<RgbFundingRecoveryState>
    decreases s.len(),
{
    if s.len() == 0 {
        s
    } else {
        let rest = ordered(s.drop_last());
        rest.insert(slot(rest, s.last()), s.last())
    }
}

fn report_less(a: &RgbFundingRecoveryState, b: &RgbFundingRecoveryState) -> (r: bool)
    ensures
        r == report_lt(*a, *b),
{
    if same(a.funding_txid.as_str(), b.funding_txid.as_str()) {
        let ka: (u8, u8) = a.stage.sort_key();
        let kb: (u8, u8) = b.stage.sort_key();
        proof {
            lemma_text_order(a.funding_txid@, b.funding_txid@, b.funding_txid@);
        }
        ka.0 < kb.0 || (ka.0 == kb.0 && ka.1 < kb.1)
    } else {
        text_less(a.funding_txid.as_str(), b.funding_txid.as_str())
    }
}

proof fn lemma_slot_bounds(s: Seq<RgbFundingRecoveryState>, x: RgbFundingRecoveryState)
    ensures
        0 <= slot(s, x) <= s.len(),
        forall|k: int| slot(s, x) <= k < s.len() ==> report_lt(x, #[trigger] s[k]),
        slot(s, x) > 0 ==> !report_lt(x, s[slot(s, x) - 1]),
    decreases s.len(),
{
    if s.len() > 0 && report_lt(x, s.last()) {
        lemma_slot_bounds(s.drop_last(), x);
        assert forall|k: int| slot(s, x) <= k < s.len() implies report_lt(x, #[trigger] s[k]) by {
            if k < s.len() - 1 {
                assert(s.drop_last()[k] == s[k]);
            }
        }
    }
}

proof fn lemma_report_order(
    a: RgbFundingRecoveryState,
    b: RgbFundingRecoveryState,
    c: RgbFundingRecoveryState,
)
    ensures
        report_lt(a, b) && !report_lt(c, b) ==> report_lt(a, c),
        report_lt(a, b) ==> !report_lt(b, a),
{
    lemma_text_order(a.funding_txid@, b.funding_txid@, c.funding_txid@);
    lemma_text_order(c.funding_txid@, b.funding_txid@, a.funding_txid@);
    lemma_text_order(a.funding_txid@, c.funding_txid@, b.funding_txid@);
    lemma_text_order(b.funding_txid@, a.funding_txid@, c.funding_txid@);
    lemma_text_order(b.funding_txid@, c.funding_txid@, a.funding_txid@);
}

/// The reported list is in order, and holds the same reports as before.
pub proof fn law_ordered_is_a_sorted_permutation(s: Seq<RgbFundingRecoveryState>)
    ensures
        in_order(ordered(s)),
        ordered(s).to_multiset() == s.to_multiset(),
    decreases s.len(),
{
    if s.len() > 0 {
        let rest = ordered(s.drop_last());
        let x = s.last();
        law_ordered_is_a_sorted_permutation(s.drop_last());
        lemma_slot_bounds(rest, x);
        let p = slot(rest, x);
        let out = rest.insert(p, x);
        assert forall|i: int, j: int| 0 <= i < j < out.len() implies !report_lt(
            #[trigger] out[j],
            #[trigger] out[i],
        ) by {
            let ri = if i < p { i } else { i - 1 };
            let rj = if j < p { j } else { j - 1 };
            if i != p && j != p {
                assert(out[i] == rest[ri] && out[j] == rest[rj]);
            } else if i == p {
                assert(out[j] == rest[rj]);
                lemma_report_order(x, rest[rj], x);
            } else {
                assert(out[i] == rest[i]);
                if i < p - 1 {
                    if report_lt(x, rest[i]) {
                        lemma_report_order(x, rest[i], rest[p - 1]);
                    }
                }
            }
        }
        rest.to_multiset_ensures();
        s.drop_last().to_multiset_ensures();
        s.to_multiset_ensures();
        assert(s =~= s.drop_last().push(x));
        vstd::seq_lib::to_multiset_insert(rest, p, x);
    }
}

/// Sorts the reports by transaction and stage.
pub fn sort_rgb_funding_recoveries(recoveries: &mut Vec<RgbFundingRecoveryState>)
    ensures
        final(recoveries)@ == ordered(old(recoveries)@),
{
    let ghost all = recoveries@;
    let mut i: usize = 0;
    assert(recoveries@.take(0) =~= ordered(all.take(0)));
    while i < recoveries.len()
        invariant
            i <= recoveries.len(),
            recoveries@.len() == all.len(),
            recoveries@.take(i as int) == ordered(all.take(i as int)),
            forall|k: int| i <= k < all.len() ==> recoveries@[k] == #[trigger] all[k],
        decreases all.len() - i,
    {
        let ghost sorted = recoveries@.take(i as int);
        let x = recoveries.remove(i);
        let ghost without = recoveries@;
        assert(without.take(i as int) =~= sorted);
        let mut j: usize = i;
        assert(sorted.take(i as int) =~= sorted);
        while j > 0 && report_less(&x, &recoveries[j - 1])
            invariant
                j <= i <= recoveries.len(),
                recoveries@ == without,
                without.take(i as int) == sorted,
                slot(sorted, x) == slot(sorted.take(j as int), x),
            decreases j,
        {
            assert(sorted.take(j as int).last() == recoveries@[j - 1]);
            assert(sorted.take(j as int).drop_last() =~= sorted.take(j - 1));
            j = j - 1;
        }
        proof {
            if j > 0 {
                assert(sorted.take(j as int).last() == recoveries@[j - 1]);
            }
            assert(slot(sorted, x) == j);
            assert(all.take(i + 1).drop_last() =~= all.take(i as int));
            assert(all.take(i + 1).last() == x);
        }
        recoveries.insert(j, x);
        i = i + 1;
        assert(recoveries@.take(i as int) =~= sorted.insert(j as int, x));
    }
    assert(recoveries@.take(i as int) =~= recoveries@);
    assert(all.take(i as int) =~= all);
}

// ---------------------------------------------------------------------------------------------
// Quarantine
// ---------------------------------------------------------------------------------------------

/// Fail-closed admission state for interrupted RGB channel funding.
///
/// An unresolved sender or receiver journal can stand for a transaction whose broadcast outcome or
/// matching channel state is not yet known. Inspection and recovery remain available, but new
/// wallet mutations are not admitted until every record is reconciled.
///
/// The operation lease is wallet-wide on purpose: the wallet keeps one pending acceptance and one
/// rollback snapshot, not one per allocation, so that a second mutation could overwrite the only
/// rollback owner.
#[derive(Debug)]
pub struct RgbFundingRecoveryGuard {
    pub funding_txids: Vec<String>,
    pub leased: bool,
}

/// The exclusive right to mutate the wallet, until it is released.
#[derive(Debug, PartialEq, Eq)]
pub struct RgbFundingOperationLease {
    pub owner: &'static str,
}

/// Whether strings stand in strictly ascending order, each once.
pub open spec fn ascending(s: Seq<Seq<char>>) -> bool {
    forall|i: int, j: int| 0 <= i < j < s.len() ==> text_lt(#[trigger] s[i], #[trigger] s[j])
}

fn insert_ascending(v: &mut Vec<String>, s: &str)
    requires
        ascending(views(old(v)@)),
    ensures
        ascending(views(final(v)@)),
        views(final(v)@).to_set() == views(old(v)@).to_set().insert(s@),
{
    let ghost before = views(v@);
    let mut i: usize = 0;
    while i < v.len() && text_less(v[i].as_str(), s)
        invariant
            i <= v.len(),
            views(v@) == before,
            forall|k: int| 0 <= k < i ==> text_lt(#[trigger] before[k], s@),
        decreases v.len() - i,
    {
        assert(before[i as int] == v@[i as int]@);
        i = i + 1;
    }
    if i < v.len() {
        assert(before[i as int] == v@[i as int]@);
        if same(v[i].as_str(), s) {
            assert(before.to_set().insert(s@) =~= before.to_set()) by {
                assert(before.contains(before[i as int]));
            }
            return;
        }
    }
    v.insert(i, text(s));
    proof {
        let after = views(v@);
        assert(after =~= before.insert(i as int, s@));
        assert forall|a: int, b: int| 0 <= a < b < after.len() implies text_lt(
            #[trigger] after[a],
            #[trigger] after[b],
        ) by {
            if b < i {
                assert(after[a] == before[a] && after[b] == before[b]);
            } else if b == i {
                assert(after[a] == before[a]);
            } else {
                assert(after[b] == before[b - 1]);
                lemma_text_order(s@, before[i as int], before[b - 1]);
                if a < i {
                    assert(after[a] == before[a]);
                } else if a > i {
                    assert(after[a] == before[a - 1]);
                }
            }
        }
        assert(after.to_set() =~= before.to_set().insert(s@)) by {
            assert forall|x: Seq<char>| after.contains(x) <==> before.contains(x) || x == s@ by {
                if before.contains(x) {
                    let k = choose|k: int| 0 <= k < before.len() && before[k] == x;
                    if k < i {
                        assert(after[k] == x);
                    } else {
                        assert(after[k + 1] == x);
                    }
                }
                if x == s@ {
                    assert(after[i as int] == x);
                }
                if after.contains(x) {
                    let k = choose|k: int| 0 <= k < after.len() && after[k] == x;
                    if k < i {
                        assert(before[k] == x);
                    } else if k > i {
                        assert(before[k - 1] == x);
                    }
                }
            }
        }
    }
}

/// What taking the lease for an operation comes to.
pub open spec fn is_operation_locked(
    before: RgbFundingRecoveryGuard,
    owner: &'static str,
    after: RgbFundingRecoveryGuard,
    r: Option<RgbFundingOperationLease>,
) -> bool {
    &&& after.funding_txids == before.funding_txids
    &&& r is Some <==> !before.leased
    &&& r matches Some(lease) ==> lease.owner == owner
    &&& after.leased
}

/// What taking the lease for a channel payment comes to.
pub open spec fn is_payment_locked(
    before: RgbFundingRecoveryGuard,
    carries_rgb: bool,
    after: RgbFundingRecoveryGuard,
    r: Result<
        Option<RgbFundingOperationLease>,
        APIError,
    >,
) -> bool {
    &&& after.funding_txids == before.funding_txids
    &&& !carries_rgb ==> r == Ok::<Option<RgbFundingOperationLease>, APIError>(None)
                && after == before
    &&& carries_rgb ==> match r {
                Ok(lease) => lease is Some && after.leased && admission(
                    before,
                    Ok(lease->0),
                ),
                Err(e) => after.leased == before.leased && admission(
                    before,
                    Err(e),
                ),
            }
    &&& r matches Ok(Some(lease)) ==> lease.owner@ == "rgb-wallet-api"@
}

impl RgbFundingRecoveryGuard {
    /// The transactions are kept in ascending order, each once.
    pub open spec fn wf(self) -> bool {
        ascending(views(self.funding_txids@))
    }

    /// The transactions that keep wallet mutations out.
    pub open spec fn quarantined(self) -> Set<Seq<char>> {
        views(self.funding_txids@).to_set()
    }

    /// The quarantined transactions, ascending, separated by commas.
    pub open spec fn listing(self) -> Seq<char> {
        joined(views(self.funding_txids@), ","@)
    }

    /// Replaces the quarantine by the transactions of the given reports.
    pub fn replace(&mut self, recoveries: &[RgbFundingRecoveryState])
        requires
            old(self).wf(),
        ensures
            final(self).wf(),
            final(self).quarantined() == recoveries@.map_values(
                |r: RgbFundingRecoveryState| r.funding_txid@,
            ).to_set(),
            final(self).leased == old(self).leased,
    {
        let ghost txid = |r: RgbFundingRecoveryState| r.funding_txid@;
        let mut txids: Vec<String> = Vec::new();
        let mut i: usize = 0;
        assert(views(txids@).to_set() =~= recoveries@.take(0).map_values(txid).to_set());
        while i < recoveries.len()
            invariant
                i <= recoveries.len(),
                ascending(views(txids@)),
                txid == (|r: RgbFundingRecoveryState| r.funding_txid@),
                views(txids@).to_set() == recoveries@.take(i as int).map_values(txid).to_set(),
            decreases recoveries.len() - i,
        {
            insert_ascending(&mut txids, recoveries[i].funding_txid.as_str());
            proof {
                let before = recoveries@.take(i as int).map_values(txid);
                let after = recoveries@.take(i + 1).map_values(txid);
                assert(after =~= before.push(recoveries@[i as int].funding_txid@));
                assert(after.to_set() =~= before.to_set().insert(
                    recoveries@[i as int].funding_txid@,
                )) by {
                    assert forall|x: Seq<char>|
                        after.contains(x) <==> before.contains(x) || x
                            == recoveries@[i as int].funding_txid@ by {
                        if before.contains(x) {
                            let k = choose|k: int| 0 <= k < before.len() && before[k] == x;
                            assert(after[k] == x);
                        }
                        assert(after[i as int] == recoveries@[i as int].funding_txid@);
                        if after.contains(x) {
                            let k = choose|k: int| 0 <= k < after.len() && after[k] == x;
                            if k < i {
                                assert(before[k] == x);
                            }
                        }
                    }
                }
            }
            i = i + 1;
        }
        assert(recoveries@.take(i as int) =~= recoveries@);
        self.funding_txids = txids;
    }

    /// Takes one transaction out of the quarantine.
    pub fn clear(&mut self, funding_txid: &str)
        requires
            old(self).wf(),
        ensures
            final(self).wf(),
            final(self).quarantined() == old(self).quarantined().remove(funding_txid@),
            final(self).leased == old(self).leased,
    {
        let ghost before = views(self.funding_txids@);
        let mut i: usize = 0;
        while i < self.funding_txids.len() && !same(self.funding_txids[i].as_str(), funding_txid)
            invariant
                i <= self.funding_txids.len(),
                views(self.funding_txids@) == before,
                *self == *old(self),
                forall|k: int| 0 <= k < i ==> #[trigger] before[k] != funding_txid@,
            decreases self.funding_txids.len() - i,
        {
            assert(before[i as int] == self.funding_txids@[i as int]@);
            i = i + 1;
        }
        if i < self.funding_txids.len() {
            assert(before[i as int] == self.funding_txids@[i as int]@);
            let _ = self.funding_txids.remove(i);
            proof {
                let after = views(self.funding_txids@);
                assert(after =~= before.remove(i as int));
                assert forall|a: int, b: int| 0 <= a < b < after.len() implies text_lt(
                    #[trigger] after[a],
                    #[trigger] after[b],
                ) by {
                    let ba = if a < i { a } else { a + 1 };
                    let bb = if b < i { b } else { b + 1 };
                    assert(after[a] == before[ba] && after[b] == before[bb]);
                }
                assert(after.to_set() =~= before.to_set().remove(funding_txid@)) by {
                    assert forall|x: Seq<char>|
                        after.contains(x) <==> before.contains(x) && x != funding_txid@ by {
                        if before.contains(x) && x != funding_txid@ {
                            let k = choose|k: int| 0 <= k < before.len() && before[k] == x;
                            if k < i {
                                assert(after[k] == x);
                            } else {
                                assert(after[k - 1] == x);
                            }
                        }
                        if after.contains(x) {
                            let k = choose|k: int| 0 <= k < after.len() && after[k] == x;
                            let bk = if k < i { k } else { k + 1 };
                            assert(before[bk] == x);
                            if x == funding_txid@ {
                                if bk < i {
                                } else {
                                    assert(text_lt(before[i as int], before[bk]));
                                    lemma_text_order(x, x, x);
                                }
                            }
                        }
                    }
                }
            }
        } else {
            assert(before.to_set() =~= before.to_set().remove(funding_txid@)) by {
                if before.contains(funding_txid@) {
                    let k = choose|k: int| 0 <= k < before.len() && before[k] == funding_txid@;
                    assert(false);
                }
            }
        }
    }

    /// Puts one transaction into the quarantine.
    pub fn quarantine(&mut self, funding_txid: &str)
        requires
            old(self).wf(),
        ensures
            final(self).wf(),
            final(self).quarantined() == old(self).quarantined().insert(funding_txid@),
            final(self).leased == old(self).leased,
    {
        insert_ascending(&mut self.funding_txids, funding_txid);
    }

    /// Refuses a wallet mutation while any transaction is quarantined, and names them all.
    pub fn ensure_wallet_mutation_is_admitted(&self) -> (r: Result<(), APIError>)
        requires
            self.wf(),
        ensures
            r is Ok <==> self.quarantined() == Set::<Seq<char>>::empty(),
            r matches Err(e) ==> (e matches APIError::RgbFundingRecoveryRequired(txids) && txids@
                == self.listing()),
    {
        if self.funding_txids.len() == 0 {
            assert(self.quarantined() =~= Set::<Seq<char>>::empty());
            return Ok(());
        }
        assert(self.quarantined().contains(views(self.funding_txids@)[0])) by {
            assert(views(self.funding_txids@).contains(views(self.funding_txids@)[0]));
        }
        Err(APIError::RgbFundingRecoveryRequired(join(&self.funding_txids, ",")))
    }

    fn lock_wallet_mutation_as(&mut self, owner: &'static str) -> (r: Result<
        RgbFundingOperationLease,
        APIError,
    >)
        requires
            old(self).wf(),
        ensures
            final(self).wf(),
            final(self).funding_txids == old(self).funding_txids,
            admission(*old(self), r),
            final(self).leased == (old(self).leased || r is Ok),
            r matches Ok(lease) ==> lease.owner == owner,
    {
        if self.leased {
            return Err(APIError::ChangingState);
        }
        self.ensure_wallet_mutation_is_admitted()?;
        self.leased = true;
        Ok(RgbFundingOperationLease { owner })
    }

    /// Admits one wallet mutation. Admission and execution are one atomic lease: a check alone
    /// would let a funding start right after it, whose rollback snapshot could overwrite the
    /// mutation.
    pub fn lock_rgb_wallet_mutation(&mut self) -> (r: Result<RgbFundingOperationLease, APIError>)
        requires
            old(self).wf(),
        ensures
            final(self).wf(),
            final(self).funding_txids == old(self).funding_txids,
            admission(*old(self), r),
            final(self).leased == (old(self).leased || r is Ok),
            r matches Ok(lease) ==> lease.owner@ == "rgb-wallet-api"@,
    {
        self.lock_wallet_mutation_as("rgb-wallet-api")
    }

    /// Admits a mutation that waited for the lease, once the wait is over: the quarantine counts as
    /// it stands now, and a lease that is still held means that the wait was in vain.
    pub fn lock_after_wait(&mut self, owner: &'static str) -> (r: Result<
        RgbFundingOperationLease,
        APIError,
    >)
        requires
            old(self).wf(),
        ensures
            final(self).wf(),
            final(self).funding_txids == old(self).funding_txids,
            admission(*old(self), r),
            final(self).leased == (old(self).leased || r is Ok),
            r matches Ok(lease) ==> lease.owner == owner,
    {
        self.lock_wallet_mutation_as(owner)
    }

    /// Takes the lease for a funding event or a recovery, which the quarantine does not keep out.
    pub fn lock_operation(&mut self, owner: &'static str) -> (r: Option<RgbFundingOperationLease>)
        ensures
            is_operation_locked(*old(self), owner, *final(self), r),
    {
        if self.leased {
            return None;
        }
        self.leased = true;
        Some(RgbFundingOperationLease { owner })
    }

    /// Payments that carry no RGB asset do not touch the stock: they need no lease and pass the
    /// quarantine. RGB channel payments take the wallet-wide lease.
    pub fn lock_channel_payment(&mut self, carries_rgb: bool) -> (r: Result<
        Option<RgbFundingOperationLease>,
        APIError,
    >)
        requires
            old(self).wf(),
        ensures
            final(self).wf(),
            is_payment_locked(*old(self), carries_rgb, *final(self), r),
    {
        if !carries_rgb {
            return Ok(None);
        }
        match self.lock_rgb_wallet_mutation() {
            Ok(lease) => Ok(Some(lease)),
            Err(e) => Err(e),
        }
    }

    /// Gives the lease back.
    pub fn release(&mut self, lease: RgbFundingOperationLease)
        ensures
            final(self).funding_txids == old(self).funding_txids,
            !final(self).leased,
    {
        self.leased = false;
    }

    /// The quarantined transactions, ascending.
    pub fn snapshot(&self) -> (r: Vec<String>)
        ensures
            r@ == self.funding_txids@,
    {
        crate::text::copy_all(&self.funding_txids)
    }
}

impl Default for RgbFundingRecoveryGuard {
    fn default() -> (r: Self)
        ensures
            r.wf(),
            r.quarantined() == Set::<Seq<char>>::empty(),
            !r.leased,
    {
        let r = RgbFundingRecoveryGuard { funding_txids: Vec::new(), leased: false };
        assert(r.quarantined() =~= Set::<Seq<char>>::empty());
        r
    }
}

/// A mutation is admitted exactly where no lease is held and nothing is quarantined; a held lease
/// is reported before the quarantine.
pub open spec fn admission(
    guard: RgbFundingRecoveryGuard,
    r: Result<RgbFundingOperationLease, APIError>,
) -> bool {
    if guard.leased {
        r matches Err(APIError::ChangingState)
    } else if guard.quarantined() != Set::<Seq<char>>::empty() {
        r matches Err(APIError::RgbFundingRecoveryRequired(txids)) && txids@ == guard.listing()
    } else {
        r is Ok
    }
}

/// Two quarantines of the same transactions are listed alike, whatever the order in which the
/// transactions came.
pub proof fn law_listing_is_deterministic(a: RgbFundingRecoveryGuard, b: RgbFundingRecoveryGuard)
    requires
        a.wf(),
        b.wf(),
        a.quarantined() == b.quarantined(),
    ensures
        a.listing() == b.listing(),
        views(a.funding_txids@) == views(b.funding_txids@),
{
    lemma_ascending_is_unique(views(a.funding_txids@), views(b.funding_txids@));
}

proof fn lemma_ascending_is_unique(a: Seq<Seq<char>>, b: Seq<Seq<char>>)
    requires
        ascending(a),
        ascending(b),
        a.to_set() == b.to_set(),
    ensures
        a == b,
    decreases a.len(),
{
    if a.len() == 0 {
        if b.len() > 0 {
            assert(b.contains(b[0]));
            assert(b.to_set().contains(b[0]));
            assert(a.to_set().contains(b[0]));
        }
        assert(a =~= b);
    } else {
        let x = a.last();
        assert(a.contains(x));
        assert(a.to_set().contains(x));
        assert(b.contains(x));
        let y = b.last();
        assert(b.contains(y));
        assert(b.to_set().contains(y));
        assert(a.contains(y));
        let kb = choose|k: int| 0 <= k < b.len() && b[k] == x;
        let ka = choose|k: int| 0 <= k < a.len() && a[k] == y;
        if x != y {
            assert(text_lt(b[kb], b[b.len() - 1]));
            assert(text_lt(a[ka], a[a.len() - 1]));
            lemma_text_order(x, y, x);
        }
        let a1 = a.drop_last();
        let b1 = b.drop_last();
        assert(a1.to_set() =~= b1.to_set()) by {
            assert forall|z: Seq<char>| a1.contains(z) <==> b1.contains(z) by {
                if a1.contains(z) {
                    let k = choose|k: int| 0 <= k < a1.len() && a1[k] == z;
                    assert(a[k] == z);
                    assert(text_lt(a[k], a[a.len() - 1]));
                    lemma_text_order(z, z, z);
                    assert(a.to_set().contains(z));
                    assert(b.contains(z));
                    let m = choose|m: int| 0 <= m < b.len() && b[m] == z;
                    assert(b1[m] == z);
                }
                if b1.contains(z) {
                    let k = choose|k: int| 0 <= k < b1.len() && b1[k] == z;
                    assert(b[k] == z);
                    assert(text_lt(b[k], b[b.len() - 1]));
                    lemma_text_order(z, z, z);
                    assert(b.to_set().contains(z));
                    assert(a.contains(z));
                    let m = choose|m: int| 0 <= m < a.len() && a[m] == z;
                    assert(a1[m] == z);
                }
            }
        }
        lemma_ascending_is_unique(a1, b1);
        assert(a =~= a1.push(x));
        assert(b =~= b1.push(y));
    }
}

// ---------------------------------------------------------------------------------------------
// Listing and resolving
// ---------------------------------------------------------------------------------------------

/// A sender's record with what the channel manager and the chain know of it.
#[derive(Debug)]
pub struct SenderObservation {
    pub record: RgbSenderFundingRecord,
    pub channel_is_durable: bool,
    /// Whether the chain knows the transaction; only looked at where
    /// [`listing_needs_observation`] says so.
    pub transaction_observation: Result<bool, String>,
}

/// Whether the chain must be asked before a record can be reported: only where its stage leaves
/// open whether the transaction is out.
pub open spec fn observed_for_listing(record: RgbSenderFundingRecord, durable: bool) -> bool {
    sender_recovery_action(record.stage, record.manual_broadcast, durable, false)
        == RgbSenderRecoveryAction::FailClosed && !is_final_stage(record.stage)
}

/// What was being read of the journals.
#[derive(Clone, Copy, Debug, PartialEq, Eq, Structural)]
pub enum JournalAccess {
    ListSenders,
    ListReceivers,
    ReadReceiver,
    /// While the receiver's fundings are reconciled.
    ListReceiversToReconcile,
    ReadReceiverToReconcile,
}

impl JournalAccess {
    /// The error for a journal that cannot be read.
    pub fn failed(self, error: &str) -> (r: RgbLibError)
        ensures
            is_internal(
                r,
                (match self {
                    JournalAccess::ListSenders => "cannot list sender funding journals"@,
                    JournalAccess::ListReceivers => "cannot list receiver funding journals"@,
                    JournalAccess::ReadReceiver => "cannot read receiver funding journal"@,
                    JournalAccess::ListReceiversToReconcile =>
                        "cannot list RGB receiver funding journals"@,
                    JournalAccess::ReadReceiverToReconcile =>
                        "cannot read RGB receiver funding journal"@,
                }) + ": "@ + error@,
            ),
    {
        let context = match self {
            JournalAccess::ListSenders => "cannot list sender funding journals",
            JournalAccess::ListReceivers => "cannot list receiver funding journals",
            JournalAccess::ReadReceiver => "cannot read receiver funding journal",
            JournalAccess::ListReceiversToReconcile => "cannot list RGB receiver funding journals",
            JournalAccess::ReadReceiverToReconcile => "cannot read RGB receiver funding journal",
        };
        rgb_sender_funding_error(context, error)
    }
}

/// Whether the chain must be asked before a record can be reported.
pub fn listing_needs_observation(record: &RgbSenderFundingRecord, channel_is_durable: bool) -> (r:
    bool)
    ensures
        r == observed_for_listing(*record, channel_is_durable),
{
    let deterministic_action = rgb_sender_recovery_action(record, channel_is_durable, false);
    deterministic_action == RgbSenderRecoveryAction::FailClosed && record.stage
        != RgbSenderFundingStage::Finalized && record.stage
        != RgbSenderFundingStage::DurablyCompleted
}

/// The observation that counts for the report of a record.
pub open spec fn counted_observation(o: SenderObservation) -> Result<Option<bool>, String> {
    if !observed_for_listing(o.record, o.channel_is_durable) {
        Ok(None)
    } else {
        match o.transaction_observation {
            Ok(known) => Ok(Some(known)),
            Err(e) => Err(e),
        }
    }
}

/// The reports of the senders' records, in the order of the records; completed records of durable
/// channels are left out.
pub open spec fn sender_reports(senders: Seq<SenderObservation>) -> Seq<RgbFundingRecoveryState>
    decreases senders.len(),
{
    if senders.len() == 0 {
        seq![]
    } else {
        let rest = sender_reports(senders.drop_last());
        let o = senders.last();
        if o.record.stage == RgbSenderFundingStage::DurablyCompleted && o.channel_is_durable {
            rest
        } else {
            rest.push(
                sender_report(o.record, o.channel_is_durable, counted_observation(o), None),
            )
        }
    }
}

/// Whether a list of strings holds the given characters.
pub open spec fn listed(ids: Seq<String>, id: Seq<char>) -> bool {
    views(ids).contains(id)
}

/// Whether a list of strings holds the given one.
pub fn contains_id(ids: &Vec<String>, id: &str) -> (r: bool)
    ensures
        r == listed(ids@, id@),
{
    let mut i: usize = 0;
    while i < ids.len()
        invariant
            i <= ids.len(),
            forall|k: int| 0 <= k < i ==> #[trigger] views(ids@)[k] != id@,
        decreases ids.len() - i,
    {
        if same(ids[i].as_str(), id) {
            assert(views(ids@)[i as int] == id@);
            return true;
        }
        assert(views(ids@)[i as int] == ids@[i as int]@);
        i = i + 1;
    }
    false
}

/// Whether reports are those of the receivers' records, one each, in their order.
pub open spec fn are_receiver_reports(
    reports: Seq<RgbFundingRecoveryState>,
    receivers: Seq<PendingFundingAcceptance>,
    funded: Seq<String>,
) -> bool {
    &&& reports.len() == receivers.len()
    &&& forall|i: int|
        0 <= i < receivers.len() ==> is_receiver_report(
            #[trigger] reports[i],
            receivers[i],
            listed(funded, receivers[i].channel_id()),
            None,
        )
}

/// What a list of recoveries holds.
pub open spec fn are_recoveries_listed(
    senders: Vec<SenderObservation>,
    receivers: Vec<PendingFundingAcceptance>,
    funded_channel_ids: Vec<String>,
    r: Result<Vec<RgbFundingRecoveryState>, RgbLibError>,
) -> bool {
    &&& r is Ok <==> forall|i: int|
            0 <= i < receivers@.len() ==> fixed_hex(#[trigger] receivers@[i].funding_txid@, 32)
    &&& r matches Ok(list) ==> exists|tail: Seq<RgbFundingRecoveryState>|
            #[trigger] are_receiver_reports(tail, receivers@, funded_channel_ids@) && list@
                == ordered(sender_reports(senders@) + tail)
    &&& r matches Err(e) ==> exists|i: int|
            0 <= i < receivers@.len() && !fixed_hex(#[trigger] receivers@[i].funding_txid@, 32)
                && is_internal(e, bad_receiver_txid(receivers@[i])) && forall|k: int|
                0 <= k < i ==> fixed_hex(#[trigger] receivers@[k].funding_txid@, 32)
}

/// Lists what is unresolved, given the journals and what is known of each record. Fails on the
/// first receiver's record whose transaction ID cannot be parsed.
pub fn list_rgb_funding_recoveries(
    senders: Vec<SenderObservation>,
    receivers: &Vec<PendingFundingAcceptance>,
    funded_channel_ids: &Vec<String>,
) -> (r: Result<Vec<RgbFundingRecoveryState>, RgbLibError>)
    ensures
        are_recoveries_listed(senders, *receivers, *funded_channel_ids, r),
{
    let mut recoveries: Vec<RgbFundingRecoveryState> = Vec::new();
    let mut i: usize = 0;
    while i < senders.len()
        invariant
            i <= senders.len(),
            recoveries@ == sender_reports(senders@.take(i as int)),
        decreases senders.len() - i,
    {
        let o = &senders[i];
        assert(senders@.take(i + 1).drop_last() =~= senders@.take(i as int));
        assert(senders@.take(i + 1).last() == senders@[i as int]);
        if should_report_rgb_sender_recovery(&o.record, o.channel_is_durable) {
            let observation: Result<Option<bool>, String> = if listing_needs_observation(
                &o.record,
                o.channel_is_durable,
            ) {
                match &o.transaction_observation {
                    Ok(known) => Ok(Some(*known)),
                    Err(e) => Err(copy(e)),
                }
            } else {
                Ok(None)
            };
            recoveries.push(
                rgb_funding_recovery_view(&o.record, o.channel_is_durable, observation, None),
            );
        }
        i = i + 1;
    }
    assert(senders@.take(i as int) =~= senders@);
    let ghost head = recoveries@;
    let mut j: usize = 0;
    let ghost mut tail: Seq<RgbFundingRecoveryState> = seq![];
    while j < receivers.len()
        invariant
            j <= receivers.len(),
            recoveries@ == head + tail,
            are_receiver_reports(tail, receivers@.take(j as int), funded_channel_ids@),
            forall|k: int| 0 <= k < j ==> fixed_hex(#[trigger] receivers@[k].funding_txid@, 32),
        decreases receivers.len() - j,
    {
        let record = &receivers[j];
        let final_channel_id = receiver_final_channel_id(record)?;
        let durable = contains_id(funded_channel_ids, final_channel_id.as_str());
        let report = rgb_receiver_funding_recovery_view(record, durable, None)?;
        proof {
            let next = tail.push(report);
            assert(receivers@.take(j + 1).drop_last() =~= receivers@.take(j as int));
            assert forall|k: int| 0 <= k < next.len() implies is_receiver_report(
                #[trigger] next[k],
                receivers@.take(j + 1)[k],
                listed(funded_channel_ids@, receivers@.take(j + 1)[k].channel_id()),
                None,
            ) by {
                if k < tail.len() {
                    assert(next[k] == tail[k]);
                    assert(receivers@.take(j + 1)[k] == receivers@.take(j as int)[k]);
                }
            }
            tail = next;
        }
        recoveries.push(report);
        assert(recoveries@ =~= head + tail);
        j = j + 1;
    }
    assert(receivers@.take(j as int) =~= receivers@);
    assert(are_receiver_reports(tail, receivers@, funded_channel_ids@));
    sort_rgb_funding_recoveries(&mut recoveries);
    Ok(recoveries)
}

/// Whether the deferred consistency check may now be completed.
pub open spec fn is_check_due(
    was_deferred: bool,
    pending_stock_operation: Option<&str>,
    unresolved: Seq<RgbFundingRecoveryState>,
    r: Result<bool, RgbLibError>,
) -> bool {
    &&& match pending_stock_operation {
            None => r == Ok::<bool, RgbLibError>(was_deferred),
            Some(operation_id) => if was_deferred && exists|i: int|
                0 <= i < unresolved.len() && (#[trigger] unresolved[i]).funding_txid@
                    == operation_id@ {
                r == Ok::<bool, RgbLibError>(false)
            } else if was_deferred {
                r is Err && is_internal(
                    r->Err_0,
                    "RGB stock operation '"@ + operation_id@
                        + "' has no matching durable funding recovery record"@,
                )
            } else {
                r is Err && is_internal(
                    r->Err_0,
                    "RGB stock operation '"@ + operation_id@
                        + "' appeared after the startup consistency check"@,
                )
            },
        }
}

/// Whether the startup consistency check, put off because a stock operation was pending, may now be
/// completed. A pending operation needs a durable recovery record that owns it.
pub fn should_complete_deferred_rgb_consistency_check(
    was_deferred: bool,
    pending_stock_operation: Option<&str>,
    unresolved: &[RgbFundingRecoveryState],
) -> (r: Result<bool, RgbLibError>)
    ensures
        is_check_due(was_deferred, pending_stock_operation, unresolved@, r),
{
    match pending_stock_operation {
        None => Ok(was_deferred),
        Some(operation_id) => {
            if !was_deferred {
                return Err(
                    internal(
                        join3(
                            "RGB stock operation '",
                            operation_id,
                            "' appeared after the startup consistency check",
                        ),
                    ),
                );
            }
            let mut i: usize = 0;
            while i < unresolved.len()
                invariant
                    i <= unresolved.len(),
                    was_deferred,
                    pending_stock_operation == Some(operation_id),
                    forall|k: int|
                        0 <= k < i ==> (#[trigger] unresolved@[k]).funding_txid@ != operation_id@,
                decreases unresolved.len() - i,
            {
                if same(unresolved[i].funding_txid.as_str(), operation_id) {
                    assert(unresolved@[i as int].funding_txid@ == operation_id@);
                    return Ok(false);
                }
                i = i + 1;
            }
            Err(
                internal(
                    join3(
                        "RGB stock operation '",
                        operation_id,
                        "' has no matching durable funding recovery record",
                    ),
                ),
            )
        },
    }
}

/// What a request to resume a broadcast comes down to.
#[derive(Debug)]
pub enum ResumeRequest {
    /// No such record: only the list of recoveries is answered.
    Unknown,
    /// The record may be resumed, then completed.
    Resume(RgbSenderFundingRecord),
}

/// What a request to resume a broadcast comes down to.
pub open spec fn is_resume_checked(
    funding_txid: Seq<char>,
    receivers: Vec<PendingFundingAcceptance>,
    sender: Option<RgbSenderFundingRecord>,
    channel_is_durable: bool,
    r: Result<ResumeRequest, RgbLibError>,
) -> bool {
    &&& (exists|i: int|
            0 <= i < receivers@.len() && (#[trigger] receivers@[i]).funding_txid@ == funding_txid)
            ==> r is Err && is_internal(
            r->Err_0,
            "receiver funding '"@ + funding_txid + "' cannot be broadcast by this node"@,
        )
    &&& (forall|i: int|
            0 <= i < receivers@.len() ==> (#[trigger] receivers@[i]).funding_txid@ != funding_txid)
            ==> match sender {
            None => r matches Ok(ResumeRequest::Unknown),
            Some(record) => if sender_recovery_action(
                record.stage,
                record.manual_broadcast,
                channel_is_durable,
                false,
            ) == RgbSenderRecoveryAction::ResumeBroadcast {
                r == Ok::<ResumeRequest, RgbLibError>(ResumeRequest::Resume(record))
            } else {
                r is Err && is_internal(
                    r->Err_0,
                    "sender funding '"@ + funding_txid
                        + "' is not eligible for broadcast resumption"@,
                )
            },
        }
}

/// Decides a request to resume a broadcast: a receiver never broadcasts, and a sender only where
/// the record's own stage, without any chain evidence, asks for it.
pub fn check_resume_request(
    funding_txid: &str,
    receivers: &Vec<PendingFundingAcceptance>,
    sender: Option<RgbSenderFundingRecord>,
    channel_is_durable: bool,
) -> (r: Result<ResumeRequest, RgbLibError>)
    ensures
        is_resume_checked(funding_txid@, *receivers, sender, channel_is_durable, r),
{
    let mut i: usize = 0;
    while i < receivers.len()
        invariant
            i <= receivers.len(),
            forall|k: int|
                0 <= k < i ==> (#[trigger] receivers@[k]).funding_txid@ != funding_txid@,
        decreases receivers.len() - i,
    {
        if same(receivers[i].funding_txid.as_str(), funding_txid) {
            assert(receivers@[i as int].funding_txid@ == funding_txid@);
            return Err(
                internal(
                    join3(
                        "receiver funding '",
                        funding_txid,
                        "' cannot be broadcast by this node",
                    ),
                ),
            );
        }
        i = i + 1;
    }
    match sender {
        None => Ok(ResumeRequest::Unknown),
        Some(record) => {
            if rgb_sender_recovery_action(&record, channel_is_durable, false)
                != RgbSenderRecoveryAction::ResumeBroadcast {
                return Err(
                    internal(
                        join3(
                            "sender funding '",
                            funding_txid,
                            "' is not eligible for broadcast resumption",
                        ),
                    ),
                );
            }
            Ok(ResumeRequest::Resume(record))
        },
    }
}

/// The first report of a transaction in a list.
pub open spec fn first_report(s: Seq<RgbFundingRecoveryState>, txid: Seq<char>) -> Option<
    RgbFundingRecoveryState,
>
    decreases s.len(),
{
    if s.len() == 0 {
        None
    } else if s[0].funding_txid@ == txid {
        Some(s[0])
    } else {
        first_report(s.drop_first(), txid)
    }
}

/// What an operator's request is answered with.
pub open spec fn is_resolved(
    funding_txid: Seq<char>,
    unresolved: Vec<RgbFundingRecoveryState>,
    r: RgbFundingRecoveryResolution,
) -> bool {
    &&& r.recoveries@ == ordered(unresolved@)
    &&& r.recovery == first_report(ordered(unresolved@), funding_txid)
}

/// Answers an operator's request: all unresolved fundings in order, and the one asked for among
/// them.
pub fn resolve_rgb_funding_recovery(
    funding_txid: &str,
    unresolved: Vec<RgbFundingRecoveryState>,
) -> (r: RgbFundingRecoveryResolution)
    ensures
        is_resolved(funding_txid@, unresolved, r),
{
    let mut recoveries = unresolved;
    sort_rgb_funding_recoveries(&mut recoveries);
    let mut i: usize = 0;
    assert(recoveries@.skip(0) =~= recoveries@);
    while i < recoveries.len()
        invariant
            i <= recoveries.len(),
            first_report(recoveries@, funding_txid@) == first_report(
                recoveries@.skip(i as int),
                funding_txid@,
            ),
            recoveries@ == ordered(unresolved@),
        decreases recoveries.len() - i,
    {
        if same(recoveries[i].funding_txid.as_str(), funding_txid) {
            let recovery = recoveries[i].duplicate();
            return RgbFundingRecoveryResolution { recovery: Some(recovery), recoveries };
        }
        assert(recoveries@.skip(i as int).drop_first() =~= recoveries@.skip(i + 1));
        i = i + 1;
    }
    RgbFundingRecoveryResolution { recovery: None, recoveries }
}

// ---------------------------------------------------------------------------------------------
// Laws
// ---------------------------------------------------------------------------------------------

/// A report that a reconciliation failed never hides that only an operator can help, and never asks
/// for anything but another try otherwise.
pub proof fn law_failed_reconciliation_is_retryable(
    record: RgbSenderFundingRecord,
    durable: bool,
    observation: Result<Option<bool>, String>,
    error: String,
)
    ensures
        ({
            let report = sender_report(record, durable, observation, Some(error));
            &&& report.error == Some(error)
            &&& report.action == RgbFundingRecoveryAction::RetryReconciliation || report.action
                == RgbFundingRecoveryAction::ManualChannelStateRecovery
            &&& report.action == RgbFundingRecoveryAction::ManualChannelStateRecovery
                <==> observed_action(record, durable, observation)
                == RgbFundingRecoveryAction::ManualChannelStateRecovery
        }),
{
}

/// Resuming a broadcast is only ever offered where the channel is durable.
pub proof fn law_resume_is_offered_for_durable_channels_only(
    record: RgbSenderFundingRecord,
    durable: bool,
    observation: Result<Option<bool>, String>,
    error: Option<String>,
)
    ensures
        sender_report(record, durable, observation, error).action
            == RgbFundingRecoveryAction::ResumeBroadcast ==> durable,
{
}

/// Stages are told apart by their names.
pub proof fn law_stage_names_are_distinct(a: RgbFundingRecoveryStage, b: RgbFundingRecoveryStage)
    requires
        a != b,
    ensures
        stage_name(a) != stage_name(b),
{
    reveal_strlit("sender_preparing");
    reveal_strlit("sender_stock_promoted");
    reveal_strlit("sender_handoff_ready");
    reveal_strlit("sender_handed_to_ldk");
    reveal_strlit("sender_broadcast_safe_observed");
    reveal_strlit("sender_broadcasting");
    reveal_strlit("sender_broadcast_committed");
    reveal_strlit("sender_finalized");
    reveal_strlit("sender_durably_completed");
    reveal_strlit("sender_rolling_back");
    reveal_strlit("sender_retry_required");
    reveal_strlit("receiver_validating");
    reveal_strlit("receiver_prepared");
    reveal_strlit("receiver_promoted");
    reveal_strlit("receiver_finalizing");
    reveal_strlit("receiver_finalized");
    reveal_strlit("receiver_rolling_back");
    reveal_strlit("receiver_retry_required");
    let x = stage_name(a);
    let y = stage_name(b);
    if x.len() == y.len() {
        assert(x[0] != y[0] || x[7] != y[7] || x[9] != y[9] || x[11] != y[11]);
    }
}

/// What is reported of a sender's record is its own: its transaction, its channels and its stage; what
/// the chain knows is told only where it was asked. Without an error an operator is told what the
/// recovery itself would do.
pub proof fn law_sender_reports_are_faithful(
    record: RgbSenderFundingRecord,
    durable: bool,
    known: Option<bool>,
)
    ensures
        ({
            let r = sender_report(record, durable, Ok(known), None);
            let begun = record.stage is Broadcasting || record.stage is BroadcastCommitted
                || record.stage is Finalized || record.stage is DurablyCompleted;
            let handed = record.stage is HandoffReady || record.stage is HandedToLdk
                || record.stage is BroadcastSafeObserved;
            &&& r.funding_txid == record.funding_txid && r.temporary_channel_id
                == record.temporary_channel_id && r.final_channel_id == record.final_channel_id
            &&& r.stage == RgbFundingRecoveryStage::Sender(record.stage) && r.channel_is_durable
                == durable
            &&& r.transaction_is_known == known && r.error is None
            &&& durable && (begun || known == Some(true)) ==> r.action
                == RgbFundingRecoveryAction::RetryReconciliation
            &&& durable && !begun && known != Some(true) ==> r.action
                == RgbFundingRecoveryAction::ResumeBroadcast
            &&& !durable && (begun || known == Some(true) || (handed && !record.manual_broadcast))
                ==> r.action == RgbFundingRecoveryAction::ManualChannelStateRecovery
            &&& !durable && !begun && known != Some(true) && !(handed && !record.manual_broadcast)
                ==> r.action == RgbFundingRecoveryAction::RetryReconciliation
        }),
{
}

/// Where the chain could not be asked the report says so, and asks for that again unless the funding went
/// through already.
pub proof fn law_unobserved_records_ask_for_the_chain(
    record: RgbSenderFundingRecord,
    durable: bool,
    e: String,
)
    ensures
        ({
            let r = sender_report(record, durable, Err(e), None);
            let done = record.stage is Finalized || record.stage is DurablyCompleted;
            &&& r.error == Some(e) && r.transaction_is_known is None
            &&& !done ==> r.action == RgbFundingRecoveryAction::RetryChainObservation
            &&& done && durable ==> r.action == RgbFundingRecoveryAction::RetryReconciliation
            &&& done && !durable ==> r.action
                == RgbFundingRecoveryAction::ManualChannelStateRecovery
        }),
{
}

/// An operator is needed for a receiver's record exactly where its stage and its channel do not go
/// together.
pub proof fn law_receiver_reports_are_faithful(
    r: RgbFundingRecoveryState,
    record: PendingFundingAcceptance,
    durable: bool,
    error: Option<String>,
)
    requires
        is_receiver_report(r, record, durable, error),
    ensures
        r.funding_txid == record.funding_txid && r.temporary_channel_id
            == record.temporary_channel_id,
        r.stage == RgbFundingRecoveryStage::Receiver(record.stage),
        r.error == error && r.channel_is_durable == durable && r.transaction_is_known is None,
        ({
            let in_stock = record.stage is Promoted || record.stage is Finalizing
                || record.stage is Finalized;
            r.action == (if in_stock == durable {
                RgbFundingRecoveryAction::RetryReconciliation
            } else {
                RgbFundingRecoveryAction::ManualChannelStateRecovery
            })
        }),
{
}

/// A lease is exclusive: while one is held no mutation, operation or colored payment gets another, and
/// none of them changes the quarantine.
pub proof fn law_leases_are_exclusive(
    guard: RgbFundingRecoveryGuard,
    mutation: Result<RgbFundingOperationLease, APIError>,
    operation: Option<RgbFundingOperationLease>,
    after_operation: RgbFundingRecoveryGuard,
    owner: &'static str,
    payment: Result<Option<RgbFundingOperationLease>, APIError>,
    after_payment: RgbFundingRecoveryGuard,
    carries_rgb: bool,
)
    requires
        admission(guard, mutation),
        is_operation_locked(guard, owner, after_operation, operation),
        is_payment_locked(guard, carries_rgb, after_payment, payment),
    ensures
        guard.leased ==> mutation is Err && operation is None,
        guard.leased && carries_rgb ==> payment is Err,
        !guard.leased ==> operation is Some && operation->0.owner == owner,
        after_operation.leased,
        mutation is Ok <==> !guard.leased && guard.quarantined() == Set::<Seq<char>>::empty(),
        carries_rgb ==> (payment is Ok <==> !guard.leased && guard.quarantined() == Set::<
            Seq<char>,
        >::empty()),
        carries_rgb && payment is Ok ==> after_payment.leased && payment->Ok_0 is Some,
        !carries_rgb ==> payment is Ok && payment->Ok_0 is None && after_payment == guard,
        after_operation.funding_txids == guard.funding_txids && after_payment.funding_txids
            == guard.funding_txids,
{
}

/// A broadcast is only resumed of a sender's record whose channel is on record and whose broadcast has
/// not begun; a receiver's funding never is.
pub proof fn law_only_unsent_fundings_are_resumed(
    funding_txid: Seq<char>,
    receivers: Vec<PendingFundingAcceptance>,
    sender: Option<RgbSenderFundingRecord>,
    durable: bool,
    r: Result<ResumeRequest, RgbLibError>,
    i: int,
)
    requires
        is_resume_checked(funding_txid, receivers, sender, durable, r),
    ensures
        0 <= i < receivers@.len() && receivers@[i].funding_txid@ == funding_txid ==> r is Err,
        (r matches Ok(ResumeRequest::Resume(record))) ==> durable && sender == Some(
            r->Ok_0->Resume_0,
        ) && !(sender->0.stage is Broadcasting) && !(sender->0.stage is BroadcastCommitted) && !(
        sender->0.stage is Finalized) && !(sender->0.stage is DurablyCompleted),
        (forall|k: int|
            0 <= k < receivers@.len() ==> (#[trigger] receivers@[k]).funding_txid@ != funding_txid) ==> {
            &&& sender is None ==> (r matches Ok(ResumeRequest::Unknown))
            &&& sender is Some && durable && (sender->0.stage is HandoffReady
                || sender->0.stage is HandedToLdk || sender->0.stage is BroadcastSafeObserved) ==> (
            r matches Ok(ResumeRequest::Resume(_)))
            &&& sender is Some && !durable ==> r is Err
        },
{
}

/// The deferred consistency check is completed once no stock operation is pending; while one is, it has
/// to belong to an unresolved funding that was there at the start.
pub proof fn law_deferred_checks_wait_for_the_stock(
    was_deferred: bool,
    pending: Option<&str>,
    unresolved: Seq<RgbFundingRecoveryState>,
    r: Result<bool, RgbLibError>,
    i: int,
)
    requires
        is_check_due(was_deferred, pending, unresolved, r),
    ensures
        pending is None ==> r == Ok::<bool, RgbLibError>(was_deferred),
        pending is Some ==> r != Ok::<bool, RgbLibError>(true),
        pending is Some && !was_deferred ==> r is Err,
        pending is Some && was_deferred && 0 <= i < unresolved.len() && unresolved[i].funding_txid@
            == pending->0@ ==> r == Ok::<bool, RgbLibError>(false),
        pending is Some && (forall|k: int|
            0 <= k < unresolved.len() ==> (#[trigger] unresolved[k]).funding_txid@ != pending->0@)
            ==> r is Err,
{
}

proof fn lemma_sender_reports(senders: Seq<SenderObservation>, i: int)
    requires
        0 <= i < senders.len(),
        !(senders[i].record.stage is DurablyCompleted && senders[i].channel_is_durable),
    ensures
        exists|k: int|
            0 <= k < sender_reports(senders).len() && (#[trigger] sender_reports(
                senders,
            )[k]).funding_txid == senders[i].record.funding_txid,
    decreases senders.len(),
{
    let rest = sender_reports(senders.drop_last());
    if i == senders.len() - 1 {
        let o = senders.last();
        let all = sender_reports(senders);
        assert(all == rest.push(
            sender_report(o.record, o.channel_is_durable, counted_observation(o), None),
        ));
        assert(all[rest.len() as int].funding_txid == senders[i].record.funding_txid);
    } else {
        assert(senders.drop_last()[i] == senders[i]);
        lemma_sender_reports(senders.drop_last(), i);
        let k = choose|k: int|
            0 <= k < rest.len() && (#[trigger] rest[k]).funding_txid
                == senders[i].record.funding_txid;
        assert(sender_reports(senders)[k] == rest[k]);
    }
}

/// No unresolved funding is left out of the list: every sender's record but a completed one of a channel
/// on record is in it, and every receiver's record.
pub proof fn law_no_unresolved_funding_is_left_out(
    senders: Vec<SenderObservation>,
    receivers: Vec<PendingFundingAcceptance>,
    funded_channel_ids: Vec<String>,
    list: Vec<RgbFundingRecoveryState>,
    i: int,
)
    requires
        are_recoveries_listed(senders, receivers, funded_channel_ids, Ok(list)),
    ensures
        0 <= i < senders@.len() && !(senders@[i].record.stage is DurablyCompleted
            && senders@[i].channel_is_durable) ==> exists|k: int|
            0 <= k < list@.len() && (#[trigger] list@[k]).funding_txid
                == senders@[i].record.funding_txid,
        0 <= i < receivers@.len() ==> exists|k: int|
            0 <= k < list@.len() && (#[trigger] list@[k]).funding_txid
                == receivers@[i].funding_txid,
        in_order(list@),
{
    let tail = choose|tail: Seq<RgbFundingRecoveryState>|
        #[trigger] are_receiver_reports(tail, receivers@, funded_channel_ids@) && list@ == ordered(
            sender_reports(senders@) + tail,
        );
    let all = sender_reports(senders@) + tail;
    law_ordered_is_a_sorted_permutation(all);
    broadcast use vstd::seq_lib::group_to_multiset_ensures;

    if 0 <= i < senders@.len() && !(senders@[i].record.stage is DurablyCompleted
        && senders@[i].channel_is_durable) {
        lemma_sender_reports(senders@, i);
        let k = choose|k: int|
            0 <= k < sender_reports(senders@).len() && (#[trigger] sender_reports(
                senders@,
            )[k]).funding_txid == senders@[i].record.funding_txid;
        assert(all[k] == sender_reports(senders@)[k]);
        assert(all.contains(all[k]));
        assert(list@.to_multiset().count(all[k]) > 0);
        assert(list@.contains(all[k]));
    }
    if 0 <= i < receivers@.len() {
        let k = sender_reports(senders@).len() + i;
        assert(all[k] == tail[i]);
        assert(all.contains(all[k]));
        assert(list@.to_multiset().count(all[k]) > 0);
        assert(list@.contains(all[k]));
    }
}

proof fn lemma_first_report(s: Seq<RgbFundingRecoveryState>, txid: Seq<char>, i: int)
    ensures
        0 <= i < s.len() && s[i].funding_txid@ == txid ==> first_report(s, txid) is Some,
        first_report(s, txid) matches Some(f) ==> f.funding_txid@ == txid && s.contains(f),
    decreases s.len(),
{
    if s.len() > 0 {
        if s[0].funding_txid@ == txid {
            assert(s.contains(s[0]));
        } else {
            lemma_first_report(s.drop_first(), txid, i - 1);
            if 0 <= i < s.len() && s[i].funding_txid@ == txid {
                assert(s.drop_first()[i - 1] == s[i]);
            }
            if first_report(s, txid) is Some {
                let f = first_report(s, txid)->0;
                let k = choose|k: int| 0 <= k < s.drop_first().len() && s.drop_first()[k] == f;
                assert(s[k + 1] == f);
            }
        }
    }
}

/// An operator's request is answered with everything that is unresolved, and with the funding that was
/// asked for exactly where that is among it.
pub proof fn law_requests_are_answered_with_what_is_left(
    funding_txid: Seq<char>,
    unresolved: Vec<RgbFundingRecoveryState>,
    r: RgbFundingRecoveryResolution,
    i: int,
)
    requires
        is_resolved(funding_txid, unresolved, r),
    ensures
        r.recoveries@.to_multiset() == unresolved@.to_multiset(),
        0 <= i < unresolved@.len() && unresolved@[i].funding_txid@ == funding_txid ==> r.recovery is Some,
        r.recovery matches Some(report) ==> report.funding_txid@ == funding_txid
            && r.recoveries@.contains(report),
{
    law_ordered_is_a_sorted_permutation(unresolved@);
    broadcast use vstd::seq_lib::group_to_multiset_ensures;

    if 0 <= i < unresolved@.len() && unresolved@[i].funding_txid@ == funding_txid {
        assert(unresolved@.contains(unresolved@[i]));
        assert(r.recoveries@.to_multiset().count(unresolved@[i]) > 0);
        assert(r.recoveries@.contains(unresolved@[i]));
        let k = choose|k: int| 0 <= k < r.recoveries@.len() && r.recoveries@[k] == unresolved@[i];
        lemma_first_report(r.recoveries@, funding_txid, k);
    }
    lemma_first_report(r.recoveries@, funding_txid, 0);
}

/// The chain is asked for a listing exactly where the stage leaves open whether the transaction is out.
pub proof fn law_the_chain_is_asked_only_where_it_matters(
    record: RgbSenderFundingRecord,
    durable: bool,
)
    ensures
        observed_for_listing(record, durable) <==> !durable && (record.stage is Broadcasting
            || record.stage is BroadcastCommitted || (!record.manual_broadcast && (
        record.stage is HandoffReady || record.stage is HandedToLdk
            || record.stage is BroadcastSafeObserved))),
{
}

/// A list is refused exactly where a receiver's transaction ID is no transaction ID, and names the first
/// such record; it is in order else.
pub proof fn law_lists_need_transaction_ids(
    senders: Vec<SenderObservation>,
    receivers: Vec<PendingFundingAcceptance>,
    funded: Vec<String>,
    r: Result<Vec<RgbFundingRecoveryState>, RgbLibError>,
    i: int,
)
    requires
        are_recoveries_listed(senders, receivers, funded, r),
    ensures
        (forall|k: int|
            0 <= k < receivers@.len() ==> (#[trigger] receivers@[k]).funding_txid@.len() == 64
                && forall|c: int|
                0 <= c < 64 ==> crate::text::is_hex_char(
                    #[trigger] receivers@[k].funding_txid@[c],
                )) ==> r is Ok,
        0 <= i < receivers@.len() && receivers@[i].funding_txid@.len() != 64 ==> r is Err,
        r matches Ok(list) ==> list@.len() == sender_reports(senders@).len() + receivers@.len(),
{
    if forall|k: int|
        0 <= k < receivers@.len() ==> (#[trigger] receivers@[k]).funding_txid@.len() == 64
            && forall|c: int|
            0 <= c < 64 ==> crate::text::is_hex_char(#[trigger] receivers@[k].funding_txid@[c]) {
        assert forall|k: int| 0 <= k < receivers@.len() implies fixed_hex(
            #[trigger] receivers@[k].funding_txid@,
            32,
        ) by {
            assert(receivers@[k].funding_txid@.len() == 64);
        }
    }
    if let Ok(list) = r {
        let tail = choose|tail: Seq<RgbFundingRecoveryState>|
            #[trigger] are_receiver_reports(tail, receivers@, funded@) && list@ == ordered(
                sender_reports(senders@) + tail,
            );
        law_ordered_is_a_sorted_permutation(sender_reports(senders@) + tail);
        broadcast use vstd::seq_lib::group_to_multiset_ensures;

        assert(list@.to_multiset().len() == list@.len());
        let all = sender_reports(senders@) + tail;
        assert(all.to_multiset().len() == all.len());
    }
}

} // verus!
