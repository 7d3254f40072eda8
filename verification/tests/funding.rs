use bitcoin::{
    absolute, transaction, Amount, OutPoint, Psbt, ScriptBuf, Sequence, Transaction, TxIn, TxOut,
    Witness,
};
use rgb_lightning_node::error::RgbLibError;
use rgb_lightning_node::funding_events::{
    remove_finalized_sender_tombstone_for_channel, BroadcastSafe, BroadcastStep, ChannelPending,
    FundingReply, PendingStep, ReceiverTally,
};
use rgb_lightning_node::funding_handover::{
    find_output, place_of_script, CloseReason, Handover, HandoverReply, HandoverStep,
};
use rgb_lightning_node::funding_preparation::{
    after_preparation, funding_assignment, Assignment, Preparation, PreparationError,
    PreparationReply, PreparationStep, WrittenErrors,
};
use rgb_lightning_node::kv_store::StoreError;
use rgb_lightning_node::open_failure::{
    handle_funding_prepare_err, resolve_record, Cleanup, CleanupReply, PrepareFailure,
    RecordResolution, StagedAbort,
};
use rgb_lightning_node::receiver_funding::{FundingAcceptanceStage, PendingFundingAcceptance};
use rgb_lightning_node::sender_funding::{
    AssetSchema, RgbInfo, RgbSenderConsignmentDelivery, RgbSenderFundingRecord,
    RgbSenderFundingStage,
};
use rgb_lightning_node::virtual_funding::{
    VirtualFunding, VirtualOutpoint, VirtualReply, VirtualStep,
};

fn not_found() -> StoreError {
    StoreError {
        not_found: true,
        text: "missing".to_string(),
    }
}

fn broken() -> StoreError {
    StoreError {
        not_found: false,
        text: "broken".to_string(),
    }
}

fn network_error() -> RgbLibError {
    RgbLibError::Network {
        details: "offline".to_string(),
    }
}

fn internal_error() -> RgbLibError {
    RgbLibError::Internal {
        details: "inconsistent".to_string(),
    }
}

fn info(schema: AssetSchema) -> RgbInfo {
    RgbInfo {
        contract_id: "rgb:a".to_string(),
        schema,
        local_rgb_amount: 10,
        remote_rgb_amount: 5,
        batch_transfer_idx: None,
        counterparty_knows_asset: false,
    }
}

fn script() -> Vec<u8> {
    vec![0x51, 0x51]
}

/// A signed transaction that pays to the channel with its second output.
fn signed() -> (String, String) {
    let output = |script: Vec<u8>| TxOut {
        value: Amount::from_sat(400),
        script_pubkey: ScriptBuf::from_bytes(script),
    };
    let tx = Transaction {
        version: transaction::Version::TWO,
        lock_time: absolute::LockTime::ZERO,
        input: vec![TxIn {
            previous_output: OutPoint::null(),
            script_sig: ScriptBuf::new(),
            sequence: Sequence::MAX,
            witness: Witness::new(),
        }],
        output: vec![output(vec![0x6a]), output(script())],
    };
    let txid = tx.compute_txid().to_string();
    let mut psbt = Psbt::from_unsigned_tx(tx).unwrap();
    psbt.inputs[0].witness_utxo = Some(TxOut {
        value: Amount::from_sat(1_000),
        script_pubkey: ScriptBuf::from_bytes(vec![0x51]),
    });
    (txid, psbt.to_string())
}

fn reversed(txid: &str) -> Vec<u8> {
    let digits: Vec<char> = txid.chars().collect();
    let mut bytes: Vec<u8> = digits
        .chunks(2)
        .map(|pair| u8::from_str_radix(&pair.iter().collect::<String>(), 16).unwrap())
        .collect();
    bytes.reverse();
    bytes
}

fn record(stage: RgbSenderFundingStage) -> RgbSenderFundingRecord {
    RgbSenderFundingRecord {
        version: RgbSenderFundingRecord::VERSION,
        manual_broadcast: true,
        temporary_channel_id: "01".repeat(32),
        final_channel_id: Some("02".repeat(32)),
        funding_txid: signed().0,
        batch_transfer_idx: 7,
        rgb_info: Some(RgbInfo {
            batch_transfer_idx: Some(7),
            ..info(AssetSchema::Nia)
        }),
        consignment_delivery: RgbSenderConsignmentDelivery::P2p,
        stage,
    }
}

#[test]
fn preparation_journals_before_the_stock_is_promoted() {
    let (txid, psbt) = signed();
    let job = Preparation::new("01".repeat(32), info(AssetSchema::Nia))
        .advance(PreparationReply::Begun {
            psbt: psbt.clone(),
            batch_transfer_idx: Some(7),
        })
        .advance(PreparationReply::Done)
        .advance(PreparationReply::Done);
    match &job.step {
        PreparationStep::WriteIntent { record, .. } => {
            assert_eq!(record.funding_txid, txid);
            assert_eq!(record.stage, RgbSenderFundingStage::Preparing);
            assert_eq!(record.final_channel_id, None);
        }
        other => panic!("unexpected {other:?}"),
    }
    let job = job.advance(PreparationReply::Done);
    assert!(matches!(job.step, PreparationStep::PromoteFascia { .. }));
    let job = job.advance(PreparationReply::Done);
    assert!(matches!(
        &job.step,
        PreparationStep::WritePromoted { record, .. }
            if record.stage == RgbSenderFundingStage::StockPromoted
    ));
    let job = job
        .advance(PreparationReply::Done)
        .advance(PreparationReply::Done);
    assert!(matches!(
        job.step,
        PreparationStep::Prepared { psbt: p, .. } if p == psbt
    ));
    assert_eq!(
        funding_assignment(&info(AssetSchema::Nia)),
        Assignment::Fungible(15)
    );
    assert_eq!(
        funding_assignment(&info(AssetSchema::Uda)),
        Assignment::NonFungible
    );
}

#[test]
fn failed_preparations_are_released_or_rolled_back() {
    let begun = |batch_transfer_idx| {
        Preparation::new("01".repeat(32), info(AssetSchema::Nia))
            .advance(PreparationReply::Begun {
                psbt: signed().1,
                batch_transfer_idx,
            })
            .advance(PreparationReply::Done)
            .advance(PreparationReply::Done)
    };
    assert!(matches!(
        begun(None).step,
        PreparationStep::Failed(PreparationError::Plain(RgbLibError::Internal { details }))
            if details == "RGB funding transfer has no batch transfer ID"
    ));
    let unwritten = begun(Some(7)).advance(PreparationReply::StoreFailed(broken()));
    assert!(matches!(
        unwritten.step,
        PreparationStep::FailTransfers {
            batch_transfer_idx: 7,
            ..
        }
    ));
    assert!(matches!(
        unwritten.advance(PreparationReply::Flag(false)).step,
        PreparationStep::Failed(PreparationError::Unreleased(_))
    ));
    let unpromoted = begun(Some(7))
        .advance(PreparationReply::Done)
        .advance(PreparationReply::WalletFailed(network_error()));
    assert!(matches!(
        &unpromoted.step,
        PreparationStep::Rollback {
            journal_failed: false,
            ..
        }
    ));
    assert!(matches!(
        unpromoted.advance(PreparationReply::Done).step,
        PreparationStep::Failed(PreparationError::Plain(RgbLibError::Network { .. }))
    ));
    let worker = begun(Some(7)).advance(PreparationReply::WorkerFailed("panic".to_string()));
    assert!(matches!(
        worker.step,
        PreparationStep::Failed(PreparationError::Plain(RgbLibError::Internal { details }))
            if details == "RGB channel funding preparation worker failed: panic"
    ));
}

#[test]
fn colored_fundings_are_handed_over_once_durable() {
    let (txid, psbt) = signed();
    let mut prepared = record(RgbSenderFundingStage::StockPromoted);
    prepared.final_channel_id = None;
    let job = Handover::new("01".repeat(32), script(), psbt.clone(), Some(prepared));
    assert!(matches!(job.step, HandoverStep::ReadPendingInfo));
    let job = job.advance(HandoverReply::Info(Some(info(AssetSchema::Nia))));
    assert!(matches!(
        &job.step,
        HandoverStep::WritePendingInfo(i) if i.batch_transfer_idx == Some(7)
    ));
    let job = job
        .advance(HandoverReply::Done)
        .advance(HandoverReply::Signed(psbt));
    let funding = job.signed.as_ref().unwrap();
    assert_eq!(funding.txid, txid);
    let mut expected = reversed(&txid);
    expected[31] ^= 1;
    let expected: String = expected.iter().map(|b| format!("{b:02x}")).collect();
    assert_eq!(funding.final_channel_id, expected);
    let mut steps = vec![];
    let mut job = job;
    loop {
        let reply = match &job.step {
            HandoverStep::Done => break,
            HandoverStep::ReadPeerKnowledge => {
                HandoverReply::Info(Some(info(AssetSchema::Nia)))
            }
            HandoverStep::ListMedia => HandoverReply::Media(2),
            _ => HandoverReply::Done,
        };
        steps.push(format!("{:?}", job.step));
        job = job.advance(reply);
    }
    assert_eq!(
        steps,
        vec![
            "WriteHandoffReady",
            "WriteMarker",
            "WritePsbt",
            "UpsertWitness",
            "ReadConsignment",
            "StoreConsignment",
            "QueueConsignment",
            "ReadPeerKnowledge",
            "ListMedia",
            "ReadMedia { k: 0, count: 2 }",
            "QueueMedia { k: 0, count: 2 }",
            "ReadMedia { k: 1, count: 2 }",
            "QueueMedia { k: 1, count: 2 }",
            "ProcessEvents",
            "HandOver",
            "WriteHandedOver",
        ]
    );
    assert_eq!(
        job.record.unwrap().stage,
        RgbSenderFundingStage::HandedToLdk
    );
}

#[test]
fn fundings_that_cannot_be_signed_are_aborted() {
    let plain = || Handover::new("01".repeat(32), script(), signed().1, None);
    assert!(matches!(plain().step, HandoverStep::Sign));
    let failed = plain().advance(HandoverReply::Failed("refused".to_string()));
    assert!(matches!(failed.step, HandoverStep::Abort(_)));
    assert!(matches!(
        failed.advance(HandoverReply::Aborted(Ok(()))).step,
        HandoverStep::Replay
    ));
    let unreleased = plain()
        .advance(HandoverReply::Failed("refused".to_string()))
        .advance(HandoverReply::Aborted(Err(internal_error())));
    assert!(matches!(
        unreleased.step,
        HandoverStep::Close(CloseReason::Error(_))
    ));
    let elsewhere = Handover::new("01".repeat(32), vec![0x52], signed().1, None)
        .advance(HandoverReply::Signed(signed().1));
    assert!(matches!(elsewhere.step, HandoverStep::Abort(_)));
    let done = plain()
        .advance(HandoverReply::Signed(signed().1))
        .advance(HandoverReply::Done)
        .advance(HandoverReply::Done)
        .advance(HandoverReply::Done);
    assert!(matches!(done.step, HandoverStep::Done));
    let scripts = vec![vec![1], vec![2], vec![2]];
    assert_eq!(place_of_script(&scripts, &vec![2]), 1);
    assert_eq!(place_of_script(&scripts, &vec![3]), 3);
    assert_eq!(find_output(&scripts, &vec![2]), Some(1));
    assert_eq!(find_output(&scripts, &vec![3]), None);
}

#[test]
fn virtual_fundings_register_a_session_last() {
    let outpoint = || VirtualOutpoint {
        txid: "05".repeat(32),
        index: 0,
        channel_id: "06".repeat(32),
    };
    let duplicate = VirtualFunding::new(script(), outpoint(), true, false, false);
    assert!(matches!(duplicate.step, VirtualStep::Discard));
    let plain = VirtualFunding::new(script(), outpoint(), false, false, false);
    assert!(matches!(plain.step, VirtualStep::Register));
    let plain = plain.advance(VirtualReply::Done);
    assert!(matches!(plain.step, VirtualStep::Complete));
    assert!(matches!(
        plain.advance(VirtualReply::Done).step,
        VirtualStep::Done
    ));

    let mut job = VirtualFunding::new(script(), outpoint(), false, true, true);
    let mut steps = vec![];
    loop {
        let reply = match &job.step {
            VirtualStep::Done => break,
            VirtualStep::PrepareTransfer => VirtualReply::Prepared {
                psbt: signed().1,
                batch_transfer_idx: Some(3),
            },
            VirtualStep::ReadPendingInfo { .. } => VirtualReply::Info(None),
            VirtualStep::Sign(_) => VirtualReply::Signed(signed().1),
            VirtualStep::CheckDuplicate => VirtualReply::Duplicate(false),
            _ => VirtualReply::Done,
        };
        let name = format!("{:?}", job.step);
        steps.push(name.split([' ', '(']).next().unwrap().to_string());
        job = job.advance(reply);
    }
    assert_eq!(
        steps,
        vec![
            "PrepareTransfer",
            "ReadPendingInfo",
            "Sign",
            "CheckDuplicate",
            "UpsertWitness",
            "ReadConsignment",
            "QueueConsignment",
            "ProcessEvents",
            "RemoveFile",
            "Register",
            "Complete",
        ]
    );
    assert_eq!(job.outpoint.txid, signed().0);
    assert_eq!(job.outpoint.index, 1);
}

#[test]
fn safe_broadcasts_are_observed_before_they_are_made() {
    let start = || BroadcastSafe::new("01".repeat(32), "02".repeat(32));
    let handed = start()
        .advance(FundingReply::Record(Ok(record(
            RgbSenderFundingStage::HandedToLdk,
        ))))
        .advance(FundingReply::Done);
    assert!(matches!(
        &handed.step,
        BroadcastStep::WriteObserved(r)
            if r.stage == RgbSenderFundingStage::BroadcastSafeObserved
    ));
    assert!(matches!(
        handed.advance(FundingReply::Done).step,
        BroadcastStep::Replay
    ));
    let observed = start()
        .advance(FundingReply::Record(Ok(record(
            RgbSenderFundingStage::BroadcastSafeObserved,
        ))))
        .advance(FundingReply::Done);
    assert!(matches!(
        &observed.step,
        BroadcastStep::WriteIntent(r) if r.stage == RgbSenderFundingStage::Broadcasting
    ));
    let done = observed
        .advance(FundingReply::Done)
        .advance(FundingReply::Done)
        .advance(FundingReply::Done);
    assert!(matches!(done.step, BroadcastStep::Done));
    let mut foreign = record(RgbSenderFundingStage::HandedToLdk);
    foreign.final_channel_id = Some("09".repeat(32));
    assert!(matches!(
        start().advance(FundingReply::Record(Ok(foreign))).step,
        BroadcastStep::Replay
    ));
}

#[test]
fn pending_channels_settle_both_sides() {
    let start = |temporary: Option<&str>| {
        ChannelPending::new(
            signed().0,
            "02".repeat(32),
            temporary.map(|t| t.to_string()),
        )
    };
    // a funding that the node broadcasts itself is left to its own event
    let manual = start(None);
    let manual = match manual.step {
        PendingStep::AddChannelId => manual.advance(FundingReply::Done),
        _ => manual,
    };
    let manual = manual
        .advance(FundingReply::Flag(false))
        .advance(FundingReply::OptionalRecord(Ok(Some(record(
            RgbSenderFundingStage::HandedToLdk,
        )))));
    assert!(matches!(manual.step, PendingStep::Done));

    // the receiver's side
    let receiver = start(Some("t"));
    assert!(matches!(receiver.step, PendingStep::AddChannelId));
    let receiver = receiver
        .advance(FundingReply::Done)
        .advance(FundingReply::Flag(false))
        .advance(FundingReply::OptionalRecord(Ok(None)))
        .advance(FundingReply::StoreFailed(not_found()));
    assert!(matches!(receiver.step, PendingStep::DropConsignment));
    let receiver = receiver.advance(FundingReply::Done);
    assert!(matches!(&receiver.step, PendingStep::ReadAcceptance(t) if t == "t"));
    let acceptance = PendingFundingAcceptance {
        version: 3,
        temporary_channel_id: "01".repeat(32),
        counterparty_node_id: "02".repeat(33),
        funding_txid: signed().0,
        funding_output_index: 1,
        push_asset_amount: None,
        stage: FundingAcceptanceStage::Promoted,
        consignment: Some(vec![1]),
        rgb_info: None,
    };
    let receiver = receiver.advance(FundingReply::Acceptance(acceptance));
    assert!(matches!(receiver.step, PendingStep::Reconcile(_)));
    let failed = receiver.advance(FundingReply::Failed);
    assert!(matches!(&failed.step, PendingStep::Quarantine(txid) if *txid == signed().0));
    assert!(matches!(
        failed.advance(FundingReply::Done).step,
        PendingStep::Replay
    ));

    let virtual_channel = start(Some("t"))
        .advance(FundingReply::Done)
        .advance(FundingReply::Flag(true));
    assert!(matches!(virtual_channel.step, PendingStep::ForgetStaged));
    assert!(remove_finalized_sender_tombstone_for_channel(
        &record(RgbSenderFundingStage::DurablyCompleted),
        &"02".repeat(32)
    ));
    assert!(!remove_finalized_sender_tombstone_for_channel(
        &record(RgbSenderFundingStage::Broadcasting),
        &"02".repeat(32)
    ));
    let mut tally = ReceiverTally::new();
    tally.count(None);
    assert_eq!((tally.completed, tally.unresolved.len()), (1, 0));
}

#[test]
fn network_errors_replay_and_others_close() {
    assert_eq!(
        handle_funding_prepare_err(network_error()),
        PrepareFailure::Replay
    );
    assert_eq!(
        handle_funding_prepare_err(internal_error()),
        PrepareFailure::Close(internal_error())
    );
    assert_eq!(
        resolve_record(&record(RgbSenderFundingStage::Broadcasting)),
        RecordResolution::Commit
    );
    assert_eq!(
        resolve_record(&record(RgbSenderFundingStage::HandedToLdk)),
        RecordResolution::Rollback
    );
    let mut legacy = record(RgbSenderFundingStage::HandedToLdk);
    legacy.manual_broadcast = false;
    assert_eq!(resolve_record(&legacy), RecordResolution::Keep);
}

#[test]
fn preparations_that_could_not_be_undone_close_the_channel() {
    let written = WrittenErrors {
        error: "disk full".to_string(),
        cleanup: "offline".to_string(),
    };
    assert_eq!(
        after_preparation(PreparationError::Plain(network_error()), &written),
        PrepareFailure::Replay
    );
    assert_eq!(
        after_preparation(PreparationError::Plain(internal_error()), &written),
        PrepareFailure::Close(internal_error())
    );
    let closed = |e: PreparationError, text: &str| {
        assert_eq!(
            after_preparation(e, &written),
            PrepareFailure::Close(RgbLibError::Internal {
                details: text.to_string()
            })
        );
    };
    // a network error does not make up for what was left behind
    closed(
        PreparationError::Unreleased(network_error()),
        "cannot persist RGB sender funding journal (disk full); the newly created transfer could \
         not be released",
    );
    closed(
        PreparationError::CleanupFailed {
            error: network_error(),
            cleanup: network_error(),
        },
        "cannot persist RGB sender funding journal (disk full); transfer cleanup also failed: \
         offline",
    );
    closed(
        PreparationError::RollbackFailed {
            error: network_error(),
            cleanup: network_error(),
        },
        "cannot persist promoted RGB sender funding state (disk full); rollback also failed: \
         offline",
    );
}

#[test]
fn failed_opens_release_what_they_locked() {
    let colored = || {
        let job = Cleanup::handle_open_chan_fail()
            .advance(CleanupReply::Info(Some(RgbInfo {
                batch_transfer_idx: Some(4),
                ..info(AssetSchema::Nia)
            })))
            .advance(CleanupReply::Done);
        job.advance(CleanupReply::Marker(Ok(b"txid".to_vec())))
    };
    assert!(matches!(
        colored(),
        Cleanup::ReadRecord { funding_txid, .. } if funding_txid == "txid"
    ));
    let job = colored()
        .advance(CleanupReply::Record(Ok(None)))
        .advance(CleanupReply::Wallet(Ok(())));
    assert!(matches!(
        job,
        Cleanup::FailTransfers {
            batch_transfer_idx: 4,
            ..
        }
    ));
    let job = job.advance(CleanupReply::Wallet(Ok(())));
    assert!(matches!(&job, Cleanup::WriteInfo(i) if i.batch_transfer_idx.is_none()));
    let job = job.advance(CleanupReply::Done);
    assert!(matches!(job, Cleanup::RemoveMarker));
    assert!(matches!(
        job.advance(CleanupReply::Done),
        Cleanup::Stopped
    ));
    // the marker stays where the wallet could not be undone
    assert!(matches!(
        colored()
            .advance(CleanupReply::Record(Ok(None)))
            .advance(CleanupReply::Wallet(Err(internal_error()))),
        Cleanup::Stopped
    ));
    let plain = Cleanup::handle_open_chan_fail().advance(CleanupReply::Info(None));
    assert!(matches!(
        plain.advance(CleanupReply::Marker(Ok(b"txid".to_vec()))),
        Cleanup::AbortVanilla(txid) if txid == "txid"
    ));
}

#[test]
fn staged_fundings_are_aborted_by_their_transaction() {
    let (txid, psbt) = signed();
    assert_eq!(
        StagedAbort::abort_staged_standard_funding("t", &psbt, false),
        StagedAbort::AbortVanilla(txid.clone())
    );
    let colored = || StagedAbort::abort_staged_standard_funding("t", &psbt, true);
    assert_eq!(colored(), StagedAbort::ReadRecord(txid));
    assert!(matches!(
        colored().advance(CleanupReply::Record(Ok(Some(record(
            RgbSenderFundingStage::StockPromoted
        ))))),
        StagedAbort::RollbackRecord(_)
    ));
    let ended = colored()
        .advance(CleanupReply::Record(Ok(None)))
        .advance(CleanupReply::WorkerFailed("panic".to_string()));
    assert!(matches!(
        ended,
        StagedAbort::Finished(Err(RgbLibError::Internal { details }))
            if details == "RGB stock rollback worker failed: panic"
    ));
    assert!(matches!(
        StagedAbort::abort_staged_standard_funding("t", "no psbt", false),
        StagedAbort::Finished(Err(RgbLibError::Internal { details }))
            if details.starts_with("cannot parse staged funding PSBT for channel t: ")
    ));
}
