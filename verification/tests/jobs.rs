use std::collections::BTreeMap;

use bitcoin::{
    absolute, transaction, Amount, OutPoint, Psbt, ScriptBuf, Sequence, Transaction, TxIn, TxOut,
    Witness,
};
use rgb_lightning_node::error::RgbLibError;
use rgb_lightning_node::kv_store::StoreError;
use rgb_lightning_node::receiver_funding::{FundingAcceptanceStage, PendingFundingAcceptance};
use rgb_lightning_node::receiver_job::{
    failed_reconciliation, reconcile_receiver_funding_record, ArtifactSpace, ReceiverJob,
    ReceiverProgress, ReceiverReconciliation, ReceiverReply, ReceiverStep,
};
use rgb_lightning_node::recovery::RgbFundingRecoveryAction;
use rgb_lightning_node::rgb_payments::{
    clear_rgb_payment_pending, finalize_virtual_rgb_channel_info, pending_key, RgbPaymentInfo,
    SettlePayment, SettleReply, SettleStep,
};
use rgb_lightning_node::sender_funding::{
    AssetSchema, RgbInfo, RgbSenderConsignmentDelivery, RgbSenderFundingRecord,
    RgbSenderFundingStage,
};
use rgb_lightning_node::sender_job::{
    commit_and_finalize_rgb_sender_funding, complete_finalized_sender_funding,
    read_rgb_sender_funding_record, reconcile_observed_sender_funding,
    reconcile_rgb_sender_funding, reconciliation_outcome, resume_rgb_sender_broadcast,
    rollback_rgb_sender_funding, SenderEffect, SenderProgress, SenderReconciliation, SenderReply,
};
use rgb_lightning_node::sender_recovery::{
    optional_status, persist_canonical_rgb_channel_info, sender_transfer_status, total_amount,
    TransferStatus,
};

const CONTRACT: &str = "rgb:EIkAVQvq-WbAb5JG-CYxbUER-oqDNwne-ZNxBDID-p0cpf9U";

fn not_found() -> StoreError {
    StoreError {
        not_found: true,
        text: "missing".to_string(),
    }
}

fn broken() -> StoreError {
    StoreError {
        not_found: false,
        text: "VSS temporarily unavailable".to_string(),
    }
}

fn info(local: u64, remote: u64) -> RgbInfo {
    RgbInfo {
        contract_id: CONTRACT.to_string(),
        schema: AssetSchema::Nia,
        local_rgb_amount: local,
        remote_rgb_amount: remote,
        batch_transfer_idx: Some(7),
        counterparty_knows_asset: false,
    }
}

fn message(error: RgbLibError) -> String {
    match error {
        RgbLibError::Internal { details } => details,
        other => panic!("unexpected {other:?}"),
    }
}

#[test]
fn canonical_rgb_channel_metadata_is_idempotent_and_conflict_safe() {
    let channel_id = "02".repeat(32);
    let expected = info(600, 0);

    let written = persist_canonical_rgb_channel_info(&channel_id, &expected, Err(not_found()))
        .expect("initial canonical write");
    assert_eq!(written.batch_transfer_idx, None);
    assert_eq!(written.local_rgb_amount, 600);
    let replayed = persist_canonical_rgb_channel_info(&channel_id, &expected, Ok(written.clone()))
        .expect("idempotent canonical replay");
    assert_eq!(replayed, written);

    let shifted = RgbInfo {
        local_rgb_amount: 250,
        remote_rgb_amount: 350,
        batch_transfer_idx: None,
        ..expected.clone()
    };
    assert_eq!(
        persist_canonical_rgb_channel_info(&channel_id, &expected, Ok(shifted.clone()))
            .expect("same channel allocation with a live balance split"),
        shifted
    );

    let mut conflicting = expected.clone();
    conflicting.local_rgb_amount = 599;
    persist_canonical_rgb_channel_info(&channel_id, &conflicting, Ok(shifted))
        .expect_err("conflicting recovery metadata must fail closed");
    persist_canonical_rgb_channel_info(&channel_id, &expected, Err(broken()))
        .expect_err("unreadable metadata must fail closed");
    assert_eq!(total_amount(&channel_id, &info(250, 350)), Ok(600));
    assert!(total_amount(&channel_id, &info(u64::MAX, 1)).is_err());
}

// ---------------------------------------------------------------------------------------------
// Sender fundings
// ---------------------------------------------------------------------------------------------

fn signed() -> (String, String) {
    let tx = Transaction {
        version: transaction::Version::TWO,
        lock_time: absolute::LockTime::ZERO,
        input: vec![TxIn {
            previous_output: OutPoint::null(),
            script_sig: ScriptBuf::new(),
            sequence: Sequence::MAX,
            witness: Witness::new(),
        }],
        output: vec![TxOut {
            value: Amount::from_sat(900),
            script_pubkey: ScriptBuf::from_bytes(vec![0x51]),
        }],
    };
    let txid = tx.compute_txid().to_string();
    let mut psbt = Psbt::from_unsigned_tx(tx).unwrap();
    psbt.inputs[0].witness_utxo = Some(TxOut {
        value: Amount::from_sat(1_000),
        script_pubkey: ScriptBuf::from_bytes(vec![0x51]),
    });
    (txid, psbt.to_string())
}

fn record(stage: RgbSenderFundingStage) -> RgbSenderFundingRecord {
    RgbSenderFundingRecord {
        version: RgbSenderFundingRecord::VERSION,
        manual_broadcast: true,
        temporary_channel_id: "01".repeat(32),
        final_channel_id: Some("02".repeat(32)),
        funding_txid: signed().0,
        batch_transfer_idx: 7,
        rgb_info: Some(info(1, 2)),
        consignment_delivery: RgbSenderConsignmentDelivery::P2p,
        stage,
    }
}

/// A wallet and a store that do as they are told.
struct World {
    journal: BTreeMap<String, RgbSenderFundingRecord>,
    stock: Option<String>,
    transfers: Vec<TransferStatus>,
    infos: BTreeMap<(String, bool), RgbInfo>,
    pending: Vec<String>,
    psbts: BTreeMap<String, String>,
    backups: usize,
    sent: usize,
    stages: Vec<RgbSenderFundingStage>,
}

impl World {
    fn new() -> Self {
        let (txid, psbt) = signed();
        World {
            journal: BTreeMap::new(),
            stock: None,
            transfers: vec![TransferStatus::Initiated],
            infos: BTreeMap::new(),
            pending: vec!["02".repeat(32)],
            psbts: BTreeMap::from([(txid, psbt)]),
            backups: 0,
            sent: 0,
            stages: vec![],
        }
    }

    fn remove<T>(removed: Option<T>) -> SenderReply {
        match removed {
            Some(_) => SenderReply::Done,
            None => SenderReply::StoreFailed(not_found()),
        }
    }

    fn perform(&mut self, effect: SenderEffect) -> SenderReply {
        match effect {
            SenderEffect::WriteRecord(record) => {
                self.stages.push(record.stage);
                self.journal.insert(record.funding_txid.clone(), record);
                SenderReply::Done
            }
            SenderEffect::ReadRecord(txid) => match self.journal.get(&txid) {
                Some(record) => SenderReply::Record(record.clone()),
                None => SenderReply::StoreFailed(not_found()),
            },
            SenderEffect::RemoveRecord(txid) => World::remove(self.journal.remove(&txid)),
            SenderEffect::ReadStock => SenderReply::Stock(self.stock.clone()),
            SenderEffect::RollbackStock(_) | SenderEffect::FinalizeStock(_) => {
                self.stock = None;
                SenderReply::Done
            }
            SenderEffect::ListTransfers(_) => SenderReply::Transfers(self.transfers.clone()),
            SenderEffect::FailTransfers(_) => {
                self.transfers = vec![TransferStatus::Failed];
                SenderReply::Flag(true)
            }
            SenderEffect::Backup => {
                self.backups += 1;
                SenderReply::Done
            }
            SenderEffect::RemoveChannelInfo {
                channel_id,
                pending,
            } => World::remove(self.infos.remove(&(channel_id, pending))),
            SenderEffect::ReadChannelInfo(id) => match self.infos.get(&(id, false)) {
                Some(info) => SenderReply::Info(info.clone()),
                None => SenderReply::StoreFailed(not_found()),
            },
            SenderEffect::WriteChannelInfo(id, info) => {
                self.infos.insert((id, false), info);
                SenderReply::Done
            }
            SenderEffect::RemovePendingFunding(id) => {
                let known = self.pending.iter().position(|p| *p == id);
                World::remove(known.map(|i| self.pending.remove(i)))
            }
            SenderEffect::RemovePsbt(txid) => World::remove(self.psbts.remove(&txid)),
            SenderEffect::ReadPsbt(txid) => match self.psbts.get(&txid) {
                Some(psbt) => SenderReply::Bytes(psbt.clone().into_bytes()),
                None => SenderReply::StoreFailed(not_found()),
            },
            SenderEffect::SendEnd { funding_txid, .. } => {
                self.sent += 1;
                self.transfers = vec![TransferStatus::WaitingConfirmations];
                SenderReply::Txid(funding_txid)
            }
        }
    }

    fn run(&mut self, mut progress: SenderProgress) -> Result<(), RgbLibError> {
        for _ in 0..100 {
            match progress {
                SenderProgress::Finished(result) => return result,
                SenderProgress::Continue(job) => {
                    let reply = self.perform(job.effect());
                    progress = job.advance(reply);
                }
            }
        }
        panic!("the job does not end");
    }
}

#[test]
fn resumed_fundings_are_sent_once_and_completed() {
    let mut world = World::new();
    let record = record(RgbSenderFundingStage::HandedToLdk);
    let id = "02".repeat(32);
    world
        .run(resume_rgb_sender_broadcast(record, true, true))
        .unwrap();
    assert_eq!(world.sent, 1);
    assert_eq!(
        world.stages,
        vec![
            RgbSenderFundingStage::Broadcasting,
            RgbSenderFundingStage::BroadcastCommitted,
            RgbSenderFundingStage::Finalized,
            RgbSenderFundingStage::DurablyCompleted,
        ]
    );
    assert!(world.psbts.is_empty());
    assert!(world.pending.is_empty());
    assert_eq!(
        world.infos[&(id, false)],
        RgbInfo {
            batch_transfer_idx: None,
            ..info(1, 2)
        }
    );
    assert!(world.backups >= 2);
}

#[test]
fn committed_broadcasts_are_not_sent_again() {
    let mut world = World::new();
    world.transfers = vec![TransferStatus::Settled];
    world
        .run(commit_and_finalize_rgb_sender_funding(
            record(RgbSenderFundingStage::Broadcasting),
            true,
        ))
        .unwrap();
    assert_eq!(world.sent, 0);
    assert_eq!(
        world.stages.last(),
        Some(&RgbSenderFundingStage::DurablyCompleted)
    );
}

#[test]
fn rolled_back_fundings_leave_nothing_behind() {
    let mut world = World::new();
    let record = record(RgbSenderFundingStage::StockPromoted);
    let txid = record.funding_txid.clone();
    world.stock = Some(txid.clone());
    world
        .infos
        .insert((record.temporary_channel_id.clone(), true), info(1, 2));
    world.run(rollback_rgb_sender_funding(record)).unwrap();
    assert_eq!(world.stages[0], RgbSenderFundingStage::RollingBack);
    assert_eq!(world.stock, None);
    assert_eq!(world.transfers, vec![TransferStatus::Failed]);
    assert!(world.infos.is_empty());
    assert!(world.pending.is_empty());
    assert!(world.psbts.is_empty());
    assert!(!world.journal.contains_key(&txid));
}

#[test]
fn broadcast_fundings_are_never_rolled_back() {
    let mut world = World::new();
    world.transfers = vec![TransferStatus::WaitingConfirmations];
    let result = world.run(rollback_rgb_sender_funding(record(
        RgbSenderFundingStage::HandedToLdk,
    )));
    assert!(result.is_err());
    assert_eq!(world.transfers, vec![TransferStatus::WaitingConfirmations]);
    assert!(!world.psbts.is_empty());
}

#[test]
fn finalized_sender_pending_marker_cleanup_is_idempotent() {
    for with_marker in [true, false] {
        let mut world = World::new();
        world.transfers = vec![TransferStatus::Settled];
        if !with_marker {
            world.pending.clear();
        }
        world
            .run(complete_finalized_sender_funding(record(
                RgbSenderFundingStage::Finalized,
            )))
            .expect("finalized cleanup must be replay-safe");
        assert!(world.pending.is_empty());
        assert_eq!(
            world.stages,
            vec![RgbSenderFundingStage::DurablyCompleted]
        );
    }
}

#[test]
fn resuming_needs_a_durable_channel() {
    assert!(matches!(
        resume_rgb_sender_broadcast(record(RgbSenderFundingStage::HandedToLdk), false, true),
        SenderProgress::Finished(Err(_))
    ));
}

#[test]
fn reconciliation_observes_before_it_decides() {
    assert!(matches!(
        reconcile_rgb_sender_funding(record(RgbSenderFundingStage::DurablyCompleted), true),
        SenderReconciliation::Settled
    ));
    let open = || record(RgbSenderFundingStage::Broadcasting);
    let observed = reconcile_rgb_sender_funding(open(), false);
    assert!(matches!(observed, SenderReconciliation::Observe));
    match reconcile_observed_sender_funding(open(), false, Err("indexer down".to_string())) {
        SenderReconciliation::Report(report) => {
            assert_eq!(report.transaction_is_known, None);
        }
        other => panic!("unexpected {other:?}"),
    }
    assert!(reconciliation_outcome(&open(), true, Some(true), Ok(())).is_none());
    let failed = reconciliation_outcome(
        &open(),
        true,
        Some(true),
        Err("VSS temporarily unavailable".to_string()),
    )
    .unwrap();
    assert_eq!(failed.action, RgbFundingRecoveryAction::RetryReconciliation);
}

#[test]
fn journal_records_belong_to_their_key() {
    let record = record(RgbSenderFundingStage::Broadcasting);
    assert_eq!(
        read_rgb_sender_funding_record(&record.funding_txid, &record),
        Ok(())
    );
    assert!(read_rgb_sender_funding_record(&"09".repeat(32), &record).is_err());
}

#[test]
fn transfers_of_a_funding_share_a_status() {
    assert_eq!(sender_transfer_status(&vec![], "t"), Ok(None));
    assert_eq!(
        sender_transfer_status(
            &vec![TransferStatus::Settled, TransferStatus::Settled],
            "t"
        ),
        Ok(Some(TransferStatus::Settled))
    );
    assert!(sender_transfer_status(
        &vec![TransferStatus::Settled, TransferStatus::Failed],
        "t"
    )
    .is_err());
    assert_eq!(optional_status(None), "None");
    assert_eq!(
        optional_status(Some(TransferStatus::Failed)),
        "Some(Failed)"
    );
}

// ---------------------------------------------------------------------------------------------
// Receiver fundings
// ---------------------------------------------------------------------------------------------

fn acceptance(stage: FundingAcceptanceStage) -> PendingFundingAcceptance {
    PendingFundingAcceptance {
        version: 3,
        temporary_channel_id: "01".repeat(32),
        counterparty_node_id: format!("02{}", "02".repeat(32)),
        funding_txid: "03".repeat(32),
        funding_output_index: 0,
        push_asset_amount: Some(1),
        stage,
        consignment: Some(vec![1]),
        rgb_info: Some(info(0, 3)),
    }
}

fn receiver_run(job: ReceiverProgress, stock: Option<String>) -> (Vec<ReceiverStep>, ReceiverProgress) {
    let mut steps = vec![];
    let mut progress = job;
    loop {
        match progress {
            ReceiverProgress::Finished(_) => return (steps, progress),
            ReceiverProgress::Continue(job) => {
                steps.push(job.step);
                let reply = match job.step {
                    ReceiverStep::ReadStock => ReceiverReply::Stock(stock.clone()),
                    ReceiverStep::ReadInfo => ReceiverReply::StoreFailed(not_found()),
                    ReceiverStep::RemoveArtifact(_) | ReceiverStep::RemoveTemporary(_) => {
                        ReceiverReply::StoreFailed(not_found())
                    }
                    _ => ReceiverReply::Done,
                };
                progress = job.advance(reply);
            }
        }
    }
}

fn job_of(stage: FundingAcceptanceStage) -> ReceiverJob {
    ReceiverJob {
        record: acceptance(stage),
        channel_id: "03".repeat(32),
        info: None,
        step: ReceiverStep::ReadStock,
    }
}

#[test]
fn promoted_receivers_are_finalized_and_completed() {
    let reconciled = reconcile_receiver_funding_record(
        acceptance(FundingAcceptanceStage::Promoted),
        &vec!["03".repeat(32)],
    );
    let ReceiverReconciliation::Run(job) = reconciled else {
        panic!("unexpected {reconciled:?}");
    };
    assert_eq!(job.channel_id, "03".repeat(32));
    let (steps, end) = receiver_run(ReceiverProgress::Continue(job), None);
    assert!(matches!(end, ReceiverProgress::Finished(Ok(()))));
    let place = |step| steps.iter().position(|s| *s == step).unwrap();
    assert!(place(ReceiverStep::WriteFinalizing) < place(ReceiverStep::FinalizeTransfer));
    assert!(place(ReceiverStep::FinalizeTransfer) < place(ReceiverStep::WriteFinalized));
    assert!(place(ReceiverStep::WriteFinalized) < place(ReceiverStep::RetainConsignment));
    assert!(place(ReceiverStep::WriteInfo) < place(ReceiverStep::RemoveTemporary(0)));
    assert_eq!(steps.last(), Some(&ReceiverStep::RemoveCompletedJournal));
}

#[test]
fn prepared_receivers_are_rolled_back() {
    let start = job_of(FundingAcceptanceStage::Prepared).rollback_receiver_funding();
    let (steps, end) = receiver_run(start, Some("03".repeat(32)));
    assert!(matches!(end, ReceiverProgress::Finished(Ok(()))));
    assert_eq!(steps[0], ReceiverStep::WriteRollingBack);
    assert!(steps.contains(&ReceiverStep::RollbackStock));
    assert_eq!(steps.last(), Some(&ReceiverStep::RemoveRolledBackJournal));
    let job = job_of(FundingAcceptanceStage::RollingBack);
    assert_eq!(
        job.artifact(0),
        (ArtifactSpace::ChannelInfo, "01".repeat(32))
    );
    assert_eq!(
        job.artifact(6),
        (ArtifactSpace::Consignment, "03".repeat(32))
    );
    assert_eq!(
        job.temporary(2),
        (ArtifactSpace::Consignment, "01".repeat(32))
    );
}

#[test]
fn receivers_without_their_channel_are_quarantined() {
    assert!(matches!(
        reconcile_receiver_funding_record(acceptance(FundingAcceptanceStage::Promoted), &vec![]),
        ReceiverReconciliation::Quarantined(report)
            if report.action == RgbFundingRecoveryAction::ManualChannelStateRecovery
    ));
    let report = failed_reconciliation(
        &acceptance(FundingAcceptanceStage::Prepared),
        &vec![],
        "down".to_string(),
    )
    .unwrap();
    assert_eq!(report.error, Some("down".to_string()));
}

#[test]
fn receiver_jobs_stop_at_a_failed_write() {
    let start = job_of(FundingAcceptanceStage::Prepared).rollback_receiver_funding();
    let ReceiverProgress::Continue(job) = start else {
        panic!("unexpected end");
    };
    match job.advance(ReceiverReply::StoreFailed(broken())) {
        ReceiverProgress::Finished(Err(e)) => {
            assert!(message(e).contains("VSS temporarily unavailable"))
        }
        other => panic!("unexpected {other:?}"),
    }
    let start = job_of(FundingAcceptanceStage::Finalizing).finalize_receiver_funding();
    assert!(matches!(
        start,
        ReceiverProgress::Continue(job) if job.step == ReceiverStep::FinalizeTransfer
    ));
    let start = job_of(FundingAcceptanceStage::Finalized).complete_finalized_receiver_funding();
    assert!(matches!(
        start,
        ReceiverProgress::Continue(job) if job.step == ReceiverStep::RetainConsignment
    ));
}

// ---------------------------------------------------------------------------------------------
// Settled payments
// ---------------------------------------------------------------------------------------------

/// Payment records, inbound and outbound, and channel balances.
struct Ledger {
    records: BTreeMap<(bool, String), RgbPaymentInfo>,
    channels: BTreeMap<String, (u64, u64)>,
}

impl Ledger {
    fn new(channel_id: &str, local: u64, remote: u64) -> Self {
        Ledger {
            records: BTreeMap::new(),
            channels: BTreeMap::from([(channel_id.to_string(), (local, remote))]),
        }
    }

    fn seed(&mut self, key: String, swap_payment: bool) -> String {
        let info = RgbPaymentInfo {
            contract_id: CONTRACT.to_string(),
            amount: 25,
            local_rgb_amount: 100,
            remote_rgb_amount: 0,
            swap_payment,
            inbound: true,
        };
        self.records.insert((true, key.clone()), info);
        key
    }

    fn settle(&mut self, payment_hash: &str, receiver: bool) -> Result<(), StoreError> {
        let mut job = SettlePayment::finalize_rgb_channel_payment(payment_hash, receiver);
        loop {
            let reply = match job.step {
                SettleStep::Finished(result) => return result,
                SettleStep::List | SettleStep::Relist => SettleReply::Keys(
                    self.records
                        .keys()
                        .filter(|(inbound, _)| *inbound == job.inbound)
                        .map(|(_, key)| key.clone())
                        .collect(),
                ),
                SettleStep::ReadRecord => {
                    let key = (job.inbound, job.keys[job.pos].clone());
                    let info = &self.records[&key];
                    SettleReply::Record(Some(RgbPaymentInfo {
                        contract_id: info.contract_id.clone(),
                        ..*info
                    }))
                }
                SettleStep::ReadChannel { .. } => {
                    if self.channels.contains_key(&job.channel_id()) {
                        SettleReply::Done
                    } else {
                        SettleReply::Failed(not_found())
                    }
                }
                SettleStep::UpdateChannel { offered, received } => {
                    let balance = self.channels.get_mut(&job.channel_id()).unwrap();
                    balance.0 = balance.0 + received - offered;
                    balance.1 = balance.1 + offered - received;
                    SettleReply::Done
                }
                SettleStep::RemoveApplied(k) => {
                    self.records
                        .remove(&(job.inbound, job.keys[job.applied[k]].clone()));
                    SettleReply::Done
                }
                SettleStep::RemoveRaw => {
                    self.records.remove(&(job.inbound, job.pending.clone()));
                    SettleReply::Done
                }
            };
            job = job.advance(reply);
        }
    }
}

#[test]
fn finalize_rgb_channel_payment_clears_pending_markers_after_apply() {
    let channel_id = "a".repeat(64);
    let payment_hash = "ab".repeat(32);
    let mut ledger = Ledger::new(&channel_id, 0, 100);
    let key = ledger.seed(format!("{channel_id}{payment_hash}_pending"), false);

    ledger
        .settle(&payment_hash, true)
        .expect("scanner succeeds");

    assert!(!ledger.records.contains_key(&(true, key)));
    assert_eq!(ledger.channels[&channel_id].0, 25);
}

#[test]
fn finalize_rgb_channel_payment_leaves_pending_markers_when_nothing_applies() {
    let channel_id = "b".repeat(64);
    let payment_hash = "cd".repeat(32);
    let mut ledger = Ledger::new(&channel_id, 100, 0);
    let key = ledger.seed(format!("{channel_id}{payment_hash}_pending"), true);

    ledger
        .settle(&payment_hash, false)
        .expect("scanner succeeds without applying");

    assert!(ledger.records.contains_key(&(true, key)));
    assert_eq!(ledger.channels[&channel_id].0, 100);
}

#[test]
fn finalize_rgb_channel_payment_ignores_non_pending_keys() {
    let channel_id = "c".repeat(64);
    let payment_hash = "ef".repeat(32);
    let mut ledger = Ledger::new(&channel_id, 100, 0);
    let final_key = ledger.seed(format!("{channel_id}{payment_hash}"), false);

    ledger
        .settle(&payment_hash, true)
        .expect("scanner succeeds");

    assert!(ledger.records.contains_key(&(true, final_key)));
    assert_eq!(ledger.channels[&channel_id].0, 100);
}

#[test]
fn finalize_rgb_channel_payment_only_touches_matching_payment_hash() {
    let channel_id = "d".repeat(64);
    let target_hash = "11".repeat(32);
    let other_hash = "22".repeat(32);
    let mut ledger = Ledger::new(&channel_id, 0, 100);
    let target_key = ledger.seed(format!("{channel_id}{target_hash}_pending"), false);
    let other_key = ledger.seed(format!("{channel_id}{other_hash}_pending"), false);

    ledger.settle(&target_hash, true).expect("scanner succeeds");

    assert!(!ledger.records.contains_key(&(true, target_key)));
    assert!(ledger.records.contains_key(&(true, other_key)));
}

#[test]
fn finalize_rgb_channel_payment_propagates_non_not_found_errors() {
    let job = SettlePayment::finalize_rgb_channel_payment(&"00".repeat(32), true);
    let job = job.advance(SettleReply::Failed(broken()));
    match job.step {
        SettleStep::Finished(Err(e)) => assert!(
            !e.not_found,
            "real DB errors must not be classified as NotFound"
        ),
        other => panic!("expected error when kv_store table is missing, not {other:?}"),
    }
}

#[test]
fn pending_records_of_all_channels_are_dropped() {
    let pending = pending_key("ab");
    assert_eq!(pending, "ab_pending");
    let keys: Vec<String> = ["ab_pending", "channelab_pending", "channelab", "cd_pending"]
        .iter()
        .map(|s| s.to_string())
        .collect();
    assert_eq!(
        clear_rgb_payment_pending(&keys, &pending),
        vec!["channelab_pending".to_string()]
    );
    let new = RgbPaymentInfo::new(CONTRACT.to_string(), 5, true, false);
    assert_eq!((new.amount, new.local_rgb_amount), (5, 0));
    assert!(new.swap_payment && !new.inbound);
}

#[test]
fn virtual_channel_metadata_moves_to_the_final_id() {
    let moved = finalize_virtual_rgb_channel_info(Some(info(1, 2)), false);
    assert_eq!(moved.write, Some(info(1, 2)));
    assert!(moved.remove);
    let kept = finalize_virtual_rgb_channel_info(None, true);
    assert_eq!(kept.write, None);
}
