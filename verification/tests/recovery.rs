use rgb_lightning_node::error::{APIError, RgbLibError};
use rgb_lightning_node::receiver_funding::FundingAcceptanceStage::{
    Finalized, Finalizing, Prepared, Promoted, RetryRequired, RollingBack, Validating,
};
use rgb_lightning_node::receiver_funding::RgbReceiverRecoveryAction::{
    Complete, Finalize, Quarantine, Rollback,
};
use rgb_lightning_node::receiver_funding::{
    receiver_final_channel_id, rgb_receiver_recovery_action, FundingAcceptanceStage,
    PendingFundingAcceptance,
};
use rgb_lightning_node::recovery::{
    check_resume_request, list_rgb_funding_recoveries, resolve_rgb_funding_recovery,
    rgb_funding_recovery_view, rgb_receiver_funding_recovery_view,
    should_complete_deferred_rgb_consistency_check, sort_rgb_funding_recoveries, ResumeRequest,
    RgbFundingRecoveryAction, RgbFundingRecoveryGuard, RgbFundingRecoveryStage,
    RgbFundingRecoveryState, SenderObservation,
};
use rgb_lightning_node::sender_funding::{
    rgb_sender_recovery_action, should_report_rgb_sender_recovery, AssetSchema, RgbInfo,
    RgbSenderConsignmentDelivery, RgbSenderFundingRecord, RgbSenderFundingStage,
    RgbSenderRecoveryAction,
};

const CONTRACT: &str = "rgb:EIkAVQvq-WbAb5JG-CYxbUER-oqDNwne-ZNxBDID-p0cpf9U";

fn info() -> RgbInfo {
    RgbInfo {
        contract_id: CONTRACT.to_string(),
        schema: AssetSchema::Nia,
        local_rgb_amount: 1,
        remote_rgb_amount: 2,
        batch_transfer_idx: Some(7),
        counterparty_knows_asset: false,
    }
}

fn sender_record(version: u8, stage: RgbSenderFundingStage) -> RgbSenderFundingRecord {
    let current = version == RgbSenderFundingRecord::VERSION;
    RgbSenderFundingRecord {
        version,
        manual_broadcast: version != RgbSenderFundingRecord::LEGACY_VERSION,
        temporary_channel_id: "01".repeat(32),
        final_channel_id: Some("02".repeat(32)),
        funding_txid: "03".repeat(32),
        batch_transfer_idx: 7,
        rgb_info: if current { Some(info()) } else { None },
        consignment_delivery: if current {
            RgbSenderConsignmentDelivery::P2p
        } else {
            RgbSenderConsignmentDelivery::Proxy
        },
        stage,
    }
}

fn receiver_record(stage: FundingAcceptanceStage) -> PendingFundingAcceptance {
    PendingFundingAcceptance {
        version: 3,
        temporary_channel_id: "01".repeat(32),
        counterparty_node_id: format!("02{}", "02".repeat(32)),
        funding_txid: "03".repeat(32),
        funding_output_index: 1,
        push_asset_amount: Some(1),
        stage,
        consignment: Some(vec![1]),
        rgb_info: None,
    }
}

fn blocked(funding_txid: &str) -> RgbFundingRecoveryState {
    RgbFundingRecoveryState {
        funding_txid: funding_txid.to_owned(),
        temporary_channel_id: "01".repeat(32),
        final_channel_id: Some("02".repeat(32)),
        stage: RgbFundingRecoveryStage::Sender(RgbSenderFundingStage::Broadcasting),
        channel_is_durable: false,
        transaction_is_known: None,
        error: Some("indexer unavailable".to_owned()),
        action: RgbFundingRecoveryAction::RetryChainObservation,
    }
}

#[test]
fn rgb_sender_recovery_matrix_is_fail_closed_at_broadcast_boundary() {
    let record = |stage, manual_broadcast| {
        sender_record(
            if manual_broadcast {
                RgbSenderFundingRecord::MANUAL_BROADCAST_VERSION
            } else {
                RgbSenderFundingRecord::LEGACY_VERSION
            },
            stage,
        )
    };

    for stage in [
        RgbSenderFundingStage::Preparing,
        RgbSenderFundingStage::StockPromoted,
        RgbSenderFundingStage::HandoffReady,
        RgbSenderFundingStage::HandedToLdk,
        RgbSenderFundingStage::BroadcastSafeObserved,
    ] {
        assert_eq!(
            rgb_sender_recovery_action(&record(stage, true), false, false),
            RgbSenderRecoveryAction::Rollback
        );
        assert_eq!(
            rgb_sender_recovery_action(&record(stage, true), true, false),
            RgbSenderRecoveryAction::ResumeBroadcast
        );
    }
    for stage in [
        RgbSenderFundingStage::Broadcasting,
        RgbSenderFundingStage::BroadcastCommitted,
    ] {
        assert_eq!(
            rgb_sender_recovery_action(&record(stage, true), false, false),
            RgbSenderRecoveryAction::FailClosed
        );
        assert_eq!(
            rgb_sender_recovery_action(&record(stage, true), true, false),
            RgbSenderRecoveryAction::Finalize
        );
    }
    for stage in [
        RgbSenderFundingStage::HandoffReady,
        RgbSenderFundingStage::HandedToLdk,
        RgbSenderFundingStage::BroadcastSafeObserved,
        RgbSenderFundingStage::Broadcasting,
        RgbSenderFundingStage::BroadcastCommitted,
    ] {
        assert_eq!(
            rgb_sender_recovery_action(&record(stage, false), false, false),
            RgbSenderRecoveryAction::FailClosed
        );
    }
    for stage in [
        RgbSenderFundingStage::Preparing,
        RgbSenderFundingStage::StockPromoted,
        RgbSenderFundingStage::HandoffReady,
        RgbSenderFundingStage::HandedToLdk,
        RgbSenderFundingStage::BroadcastSafeObserved,
        RgbSenderFundingStage::Broadcasting,
    ] {
        assert_eq!(
            rgb_sender_recovery_action(&record(stage, true), true, true),
            RgbSenderRecoveryAction::Finalize
        );
        assert_eq!(
            rgb_sender_recovery_action(&record(stage, true), false, true),
            RgbSenderRecoveryAction::FailClosed
        );
    }
    for stage in [
        RgbSenderFundingStage::Finalized,
        RgbSenderFundingStage::DurablyCompleted,
    ] {
        assert_eq!(
            rgb_sender_recovery_action(&record(stage, true), true, false),
            RgbSenderRecoveryAction::Finalize
        );
        assert_eq!(
            rgb_sender_recovery_action(&record(stage, true), true, true),
            RgbSenderRecoveryAction::Finalize
        );
        assert_eq!(
            rgb_sender_recovery_action(&record(stage, true), false, false),
            RgbSenderRecoveryAction::FailClosed
        );
        assert_eq!(
            rgb_sender_recovery_action(&record(stage, true), false, true),
            RgbSenderRecoveryAction::FailClosed
        );
    }
}

#[test]
fn legacy_sender_handoff_never_uses_negative_observation_as_rollback_proof() {
    let record = sender_record(
        RgbSenderFundingRecord::LEGACY_VERSION,
        RgbSenderFundingStage::HandedToLdk,
    );
    assert_eq!(
        rgb_sender_recovery_action(&record, false, false),
        RgbSenderRecoveryAction::FailClosed
    );

    let recovery = rgb_funding_recovery_view(&record, false, Ok(Some(false)), None);
    assert_eq!(
        recovery.action,
        RgbFundingRecoveryAction::ManualChannelStateRecovery
    );
    let mut guard = RgbFundingRecoveryGuard::default();
    guard.replace(&[recovery]);
    assert!(matches!(
        guard.lock_rgb_wallet_mutation(),
        Err(APIError::RgbFundingRecoveryRequired(ref txid))
            if txid == &record.funding_txid
    ));
}

#[test]
fn transient_sender_reconciliation_failure_preserves_retryable_evidence() {
    let record = sender_record(
        RgbSenderFundingRecord::VERSION,
        RgbSenderFundingStage::Broadcasting,
    );
    let error = "VSS temporarily unavailable".to_owned();

    let recovery = rgb_funding_recovery_view(&record, true, Ok(None), Some(error.clone()));
    assert_eq!(
        recovery.stage,
        RgbFundingRecoveryStage::Sender(RgbSenderFundingStage::Broadcasting)
    );
    assert_eq!(
        recovery.action,
        RgbFundingRecoveryAction::RetryReconciliation
    );
    assert_eq!(recovery.error, Some(error));
}

#[test]
fn recovery_listing_hides_only_durable_completion_tombstones() {
    let record = |stage| sender_record(RgbSenderFundingRecord::VERSION, stage);

    assert!(!should_report_rgb_sender_recovery(
        &record(RgbSenderFundingStage::DurablyCompleted),
        true,
    ));
    assert!(should_report_rgb_sender_recovery(
        &record(RgbSenderFundingStage::DurablyCompleted),
        false,
    ));
    assert!(should_report_rgb_sender_recovery(
        &record(RgbSenderFundingStage::RetryRequired),
        false,
    ));
}

#[test]
fn rgb_funding_recovery_stages_have_stable_opaque_names() {
    let stages = [
        (
            RgbFundingRecoveryStage::Sender(RgbSenderFundingStage::Preparing),
            "sender_preparing",
        ),
        (
            RgbFundingRecoveryStage::Sender(RgbSenderFundingStage::StockPromoted),
            "sender_stock_promoted",
        ),
        (
            RgbFundingRecoveryStage::Sender(RgbSenderFundingStage::HandoffReady),
            "sender_handoff_ready",
        ),
        (
            RgbFundingRecoveryStage::Sender(RgbSenderFundingStage::HandedToLdk),
            "sender_handed_to_ldk",
        ),
        (
            RgbFundingRecoveryStage::Sender(RgbSenderFundingStage::BroadcastSafeObserved),
            "sender_broadcast_safe_observed",
        ),
        (
            RgbFundingRecoveryStage::Sender(RgbSenderFundingStage::Broadcasting),
            "sender_broadcasting",
        ),
        (
            RgbFundingRecoveryStage::Sender(RgbSenderFundingStage::BroadcastCommitted),
            "sender_broadcast_committed",
        ),
        (
            RgbFundingRecoveryStage::Sender(RgbSenderFundingStage::Finalized),
            "sender_finalized",
        ),
        (
            RgbFundingRecoveryStage::Sender(RgbSenderFundingStage::DurablyCompleted),
            "sender_durably_completed",
        ),
        (
            RgbFundingRecoveryStage::Sender(RgbSenderFundingStage::RollingBack),
            "sender_rolling_back",
        ),
        (
            RgbFundingRecoveryStage::Sender(RgbSenderFundingStage::RetryRequired),
            "sender_retry_required",
        ),
        (
            RgbFundingRecoveryStage::Receiver(FundingAcceptanceStage::Validating),
            "receiver_validating",
        ),
        (
            RgbFundingRecoveryStage::Receiver(FundingAcceptanceStage::Prepared),
            "receiver_prepared",
        ),
        (
            RgbFundingRecoveryStage::Receiver(FundingAcceptanceStage::Promoted),
            "receiver_promoted",
        ),
        (
            RgbFundingRecoveryStage::Receiver(FundingAcceptanceStage::Finalizing),
            "receiver_finalizing",
        ),
        (
            RgbFundingRecoveryStage::Receiver(FundingAcceptanceStage::Finalized),
            "receiver_finalized",
        ),
        (
            RgbFundingRecoveryStage::Receiver(FundingAcceptanceStage::RollingBack),
            "receiver_rolling_back",
        ),
        (
            RgbFundingRecoveryStage::Receiver(FundingAcceptanceStage::RetryRequired),
            "receiver_retry_required",
        ),
    ];

    for (stage, expected) in stages {
        assert_eq!(stage.as_str(), expected);
    }
}

#[test]
fn receiver_recovery_decisions_are_exhaustive_and_fail_closed() {
    for stage in [Validating, Prepared, RollingBack, RetryRequired] {
        assert_eq!(rgb_receiver_recovery_action(stage, false), Rollback);
        assert_eq!(rgb_receiver_recovery_action(stage, true), Quarantine);
    }
    for stage in [Promoted, Finalizing] {
        assert_eq!(rgb_receiver_recovery_action(stage, false), Quarantine);
        assert_eq!(rgb_receiver_recovery_action(stage, true), Finalize);
    }
    assert_eq!(rgb_receiver_recovery_action(Finalized, false), Quarantine);
    assert_eq!(rgb_receiver_recovery_action(Finalized, true), Complete);
}

#[test]
fn finalized_receiver_recovery_is_typed_and_fail_closed() {
    let record = receiver_record(FundingAcceptanceStage::Finalized);

    let unresolved = rgb_receiver_funding_recovery_view(&record, false, None).unwrap();
    assert_eq!(
        unresolved.stage,
        RgbFundingRecoveryStage::Receiver(FundingAcceptanceStage::Finalized)
    );
    assert!(!unresolved.channel_is_durable);
    assert_eq!(unresolved.transaction_is_known, None);
    assert_eq!(
        unresolved.action,
        RgbFundingRecoveryAction::ManualChannelStateRecovery
    );

    let durable = rgb_receiver_funding_recovery_view(&record, true, None).unwrap();
    assert_eq!(
        durable.action,
        RgbFundingRecoveryAction::RetryReconciliation
    );
}

#[test]
fn transient_receiver_reconciliation_failure_preserves_retryable_evidence() {
    let record = receiver_record(FundingAcceptanceStage::Prepared);
    let error = "VSS temporarily unavailable".to_owned();

    let recovery = rgb_receiver_funding_recovery_view(&record, false, Some(error.clone())).unwrap();
    assert_eq!(
        recovery.stage,
        RgbFundingRecoveryStage::Receiver(FundingAcceptanceStage::Prepared)
    );
    assert_eq!(
        recovery.action,
        RgbFundingRecoveryAction::RetryReconciliation
    );
    assert_eq!(recovery.error, Some(error));
}

#[test]
fn rgb_funding_recovery_guard_is_fail_closed_and_deterministic() {
    let mut guard = RgbFundingRecoveryGuard::default();
    let first = "11".repeat(32);
    let second = "22".repeat(32);
    guard.replace(&[blocked(&second), blocked(&first)]);

    assert_eq!(guard.snapshot(), vec![first.clone(), second.clone()]);
    assert!(matches!(
        guard.lock_rgb_wallet_mutation(),
        Err(APIError::RgbFundingRecoveryRequired(ref txids))
            if txids == &format!("{first},{second}")
    ));

    guard.clear(&first);
    assert!(guard.lock_rgb_wallet_mutation().is_err());
    guard.clear(&second);
    assert!(guard.lock_rgb_wallet_mutation().is_ok());
}

#[test]
fn rgb_wallet_mutation_admission_holds_an_exclusive_lease() {
    let mut guard = RgbFundingRecoveryGuard::default();

    let operation = guard.lock_rgb_wallet_mutation().unwrap();
    assert!(matches!(
        guard.lock_rgb_wallet_mutation(),
        Err(APIError::ChangingState)
    ));

    guard.release(operation);
    assert!(guard.lock_rgb_wallet_mutation().is_ok());
}

#[test]
fn output_sweeper_waits_for_a_short_wallet_mutation() {
    let mut guard = RgbFundingRecoveryGuard::default();
    let operation = guard.lock_rgb_wallet_mutation().unwrap();
    guard.release(operation);

    let sweep_operation = guard
        .lock_after_wait("test-sweeper")
        .expect("sweeper should acquire the released wallet lease");
    guard.release(sweep_operation);
    assert!(guard.lock_rgb_wallet_mutation().is_ok());
}

#[test]
fn output_sweeper_wait_is_bounded() {
    let mut guard = RgbFundingRecoveryGuard::default();
    let _operation = guard.lock_rgb_wallet_mutation().unwrap();

    assert!(matches!(
        guard.lock_after_wait("test-sweeper"),
        Err(APIError::ChangingState)
    ));
}

#[test]
fn output_sweeper_remains_blocked_by_recovery_quarantine() {
    let mut guard = RgbFundingRecoveryGuard::default();
    let funding_txid = "11".repeat(32);
    guard.replace(&[blocked(&funding_txid)]);

    assert!(matches!(
        guard.lock_after_wait("output-sweeper"),
        Err(APIError::RgbFundingRecoveryRequired(ref blocked_txid))
            if blocked_txid == &funding_txid
    ));
}

#[test]
fn btc_channel_payments_bypass_rgb_recovery_quarantine() {
    let mut guard = RgbFundingRecoveryGuard::default();
    let funding_txid = "11".repeat(32);
    guard.replace(&[blocked(&funding_txid)]);

    assert!(matches!(guard.lock_channel_payment(false), Ok(None)));
    assert!(matches!(
        guard.lock_channel_payment(true),
        Err(APIError::RgbFundingRecoveryRequired(ref blocked_txid))
            if blocked_txid == &funding_txid
    ));
}

#[test]
fn btc_channel_payments_bypass_an_active_rgb_wallet_mutation() {
    let mut guard = RgbFundingRecoveryGuard::default();
    let _rgb_wallet_operation = guard.lock_rgb_wallet_mutation().unwrap();

    assert!(matches!(guard.lock_channel_payment(false), Ok(None)));
    assert!(matches!(
        guard.lock_channel_payment(true),
        Err(APIError::ChangingState)
    ));
}

#[test]
fn rgb_channel_payments_take_the_wallet_lease() {
    let mut guard = RgbFundingRecoveryGuard::default();
    let lease = guard.lock_channel_payment(true).unwrap().unwrap();
    assert_eq!(lease.owner, "rgb-wallet-api");
    assert!(guard.lock_rgb_wallet_mutation().is_err());
    guard.release(lease);
    assert!(guard.lock_rgb_wallet_mutation().is_ok());
}

#[test]
fn deferred_rgb_consistency_requires_a_durable_owner_or_a_resolved_stock() {
    let operation_id = "03".repeat(32);
    let recovery = RgbFundingRecoveryState {
        funding_txid: operation_id.clone(),
        temporary_channel_id: "01".repeat(32),
        final_channel_id: Some("02".repeat(32)),
        stage: RgbFundingRecoveryStage::Sender(RgbSenderFundingStage::Broadcasting),
        channel_is_durable: true,
        transaction_is_known: None,
        error: None,
        action: RgbFundingRecoveryAction::ResumeBroadcast,
    };

    assert!(!should_complete_deferred_rgb_consistency_check(false, None, &[]).unwrap());
    assert!(should_complete_deferred_rgb_consistency_check(true, None, &[]).unwrap());
    assert!(!should_complete_deferred_rgb_consistency_check(
        true,
        Some(&operation_id),
        &[recovery]
    )
    .unwrap());
    assert!(
        should_complete_deferred_rgb_consistency_check(true, Some(&"04".repeat(32)), &[]).is_err()
    );
    assert!(
        should_complete_deferred_rgb_consistency_check(false, Some(&operation_id), &[]).is_err()
    );
}

#[test]
fn rgb_sender_funding_journal_round_trips_with_version() {
    let record = sender_record(
        RgbSenderFundingRecord::VERSION,
        RgbSenderFundingStage::HandedToLdk,
    );
    record.validate().unwrap();

    let mut unsupported = record.clone();
    unsupported.version += 1;
    assert!(unsupported.validate().is_err());

    let mut malformed = unsupported;
    malformed.version = RgbSenderFundingRecord::VERSION;
    malformed.funding_txid = "zz".repeat(32);
    assert!(malformed.validate().is_err());

    let legacy = sender_record(
        RgbSenderFundingRecord::LEGACY_VERSION,
        RgbSenderFundingStage::HandedToLdk,
    );
    assert!(!legacy.manual_broadcast);
    assert!(legacy.rgb_info.is_none());
    assert_eq!(
        legacy.consignment_delivery,
        RgbSenderConsignmentDelivery::default()
    );
    assert_eq!(
        RgbSenderConsignmentDelivery::default(),
        RgbSenderConsignmentDelivery::Proxy
    );
    legacy.validate().unwrap();

    let mut wrong_delivery = record;
    wrong_delivery.consignment_delivery = RgbSenderConsignmentDelivery::Proxy;
    assert!(wrong_delivery.validate().is_err());

    wrong_delivery.version = RgbSenderFundingRecord::RGB_INFO_VERSION;
    wrong_delivery.consignment_delivery = RgbSenderConsignmentDelivery::P2p;
    assert!(wrong_delivery.validate().is_err());
}

#[test]
fn reports_are_sorted_by_transaction_then_stage() {
    let mut a = blocked(&"22".repeat(32));
    a.stage = RgbFundingRecoveryStage::Receiver(FundingAcceptanceStage::Prepared);
    let b = blocked(&"22".repeat(32));
    let c = blocked(&"11".repeat(32));
    let mut reports = vec![a.clone(), b.clone(), c.clone()];
    sort_rgb_funding_recoveries(&mut reports);
    assert_eq!(reports, vec![c, b, a]);
}

#[test]
fn receiver_reports_name_the_final_channel() {
    let record = receiver_record(FundingAcceptanceStage::Promoted);
    // output 1 flips the last bit of the transaction ID in memory order
    let expected = format!("{}02", "03".repeat(31));
    assert_eq!(receiver_final_channel_id(&record).unwrap(), expected);
    let report = rgb_receiver_funding_recovery_view(&record, true, None).unwrap();
    assert_eq!(report.final_channel_id, Some(expected));

    let mut malformed = receiver_record(FundingAcceptanceStage::Promoted);
    malformed.funding_txid = "no transaction".to_string();
    assert!(matches!(
        receiver_final_channel_id(&malformed),
        Err(RgbLibError::Internal { .. })
    ));
}

#[test]
fn listing_reports_both_sides_and_hides_tombstones() {
    let done = SenderObservation {
        record: sender_record(
            RgbSenderFundingRecord::VERSION,
            RgbSenderFundingStage::DurablyCompleted,
        ),
        channel_is_durable: true,
        transaction_observation: Ok(true),
    };
    let mut open = sender_record(
        RgbSenderFundingRecord::VERSION,
        RgbSenderFundingStage::Broadcasting,
    );
    open.funding_txid = "01".repeat(32);
    let open = SenderObservation {
        record: open,
        channel_is_durable: true,
        transaction_observation: Err("indexer unavailable".to_string()),
    };
    let receivers = vec![receiver_record(FundingAcceptanceStage::Prepared)];
    let reports = list_rgb_funding_recoveries(vec![done, open], &receivers, &vec![]).unwrap();
    assert_eq!(reports.len(), 2);
    assert_eq!(reports[0].funding_txid, "01".repeat(32));
    assert_eq!(
        reports[0].stage,
        RgbFundingRecoveryStage::Sender(RgbSenderFundingStage::Broadcasting)
    );
    assert_eq!(reports[1].funding_txid, "03".repeat(32));
    assert_eq!(
        reports[1].stage,
        RgbFundingRecoveryStage::Receiver(FundingAcceptanceStage::Prepared)
    );
}

#[test]
fn only_sender_fundings_can_be_resumed() {
    let receivers = vec![receiver_record(FundingAcceptanceStage::Prepared)];
    assert!(check_resume_request(&"03".repeat(32), &receivers, None, true).is_err());

    let record = sender_record(
        RgbSenderFundingRecord::VERSION,
        RgbSenderFundingStage::HandedToLdk,
    );
    assert!(matches!(
        check_resume_request(&"03".repeat(32), &vec![], Some(record), true),
        Ok(ResumeRequest::Resume(_))
    ));
    assert!(matches!(
        check_resume_request(&"03".repeat(32), &vec![], None, true),
        Ok(ResumeRequest::Unknown)
    ));
}

#[test]
fn resolution_names_what_is_left_of_the_funding() {
    let first = "11".repeat(32);
    let second = "22".repeat(32);
    let resolution =
        resolve_rgb_funding_recovery(&second, vec![blocked(&second), blocked(&first)]);
    assert_eq!(resolution.recovery, Some(blocked(&second)));
    assert_eq!(resolution.recoveries, vec![blocked(&first), blocked(&second)]);

    let resolved = resolve_rgb_funding_recovery(&second, vec![blocked(&first)]);
    assert_eq!(resolved.recovery, None);
}
