use rgb_lightning_node::error::{APIError, RgbLibError};
use rgb_lightning_node::funding_preparation::{
    funding_transfer, prepare_plain_funding, Assignment, PlainFunding,
};
use rgb_lightning_node::kv_store::StoreError;
use rgb_lightning_node::payment_events::hold_payment;
use rgb_lightning_node::payments::{HTLCStatus, NodeId, PaymentInfo, Payments};
use rgb_lightning_node::recovery::JournalAccess;
use rgb_lightning_node::rgb_payments::{ProjectRecord, ProjectStep};
use rgb_lightning_node::sender_funding::{
    AssetSchema, RgbInfo, RgbSenderConsignmentDelivery, RgbSenderFundingRecord,
    RgbSenderFundingStage,
};
use rgb_lightning_node::sender_job::{
    read_rgb_sender_funding_record_optional, rgb_sender_channel_is_durable, FundedChannel,
    StoredRecord,
};
use rgb_lightning_node::startup::StartFailure;
use rgb_lightning_node::swaps::{inbound_channel, outbound_channel, ShortIds};
use rgb_lightning_node::sweep::RGB_TRANSFER_CHAN_EXPIRATION_SECS;
use rgb_lightning_node::table::{Id, Table};

fn id(n: u128) -> Id {
    Id { hi: 0, lo: n }
}

fn node(n: u128) -> NodeId {
    NodeId { parity: 2, x: id(n) }
}

fn payments_with(hash: Id, deadline: Option<u32>) -> Payments {
    let mut payments = Payments {
        inbound: Table::new(),
        outbound: Table::new(),
        next_payment_idx: 5,
    };
    payments.inbound.insert(
        hash,
        PaymentInfo {
            preimage: Some(id(8)),
            secret: None,
            status: HTLCStatus::Pending,
            amt_msat: Some(1_000),
            created_at: 10,
            updated_at: 10,
            payee_pubkey: node(9),
            expires_at: Some(99),
            claim_deadline_height: deadline,
            invoice_type: None,
            description: None,
            description_hash: None,
            payment_idx: Some(4),
            async_hash_index: None,
            async_host_node_id: None,
        },
    );
    payments
}

#[test]
fn held_payments_stay_claimable_with_what_the_event_says() {
    let mut payments = payments_with(id(1), Some(700));
    hold_payment(&mut payments, id(1), None, id(3), 1_200, node(1), None, 20);
    let held = payments.inbound.get(id(1)).unwrap();
    assert_eq!(held.status, HTLCStatus::Claimable);
    assert_eq!(held.preimage, None);
    assert_eq!(held.secret, Some(id(3)));
    assert_eq!(held.amt_msat, Some(1_200));
    assert_eq!(held.claim_deadline_height, Some(700));
    assert_eq!((held.created_at, held.updated_at), (10, 20));
    hold_payment(
        &mut payments,
        id(1),
        None,
        id(3),
        1_200,
        node(1),
        Some(800),
        21,
    );
    let held = payments.inbound.get(id(1)).unwrap();
    assert_eq!(held.claim_deadline_height, Some(800));
    assert_eq!(payments.next_payment_idx, 5);
}

#[test]
fn failed_htlcs_end_their_payment() {
    let mut payments = payments_with(id(1), Some(700));
    payments.fail_htlc_backwards_and_update_inbound_payment(
        id(1),
        HTLCStatus::Failed,
        node(1),
        30,
    );
    let failed = payments.inbound.get(id(1)).unwrap();
    assert_eq!(failed.status, HTLCStatus::Failed);
    assert_eq!((failed.preimage, failed.amt_msat), (None, Some(1_000)));
    assert_eq!(failed.claim_deadline_height, Some(700));
    payments.fail_htlc_backwards_and_update_inbound_payment(
        id(2),
        HTLCStatus::Failed,
        node(1),
        31,
    );
    let unknown = payments.inbound.get(id(2)).unwrap();
    assert_eq!(unknown.payment_idx, Some(5));
    assert_eq!(unknown.payee_pubkey, node(1));
    assert_eq!(payments.next_payment_idx, 6);
}

#[test]
fn first_usable_record_is_projected() {
    let start = || {
        ProjectRecord::new(
            "hash".to_string(),
            vec!["a".to_string(), "b".to_string(), "c".to_string()],
        )
    };
    let job = start().advance(false);
    assert_eq!(job.step, ProjectStep::Read(1));
    assert_eq!(job.source(1), "bhash");
    let job = job.advance(true);
    assert_eq!(job.step, ProjectStep::Write(1));
    assert_eq!(job.advance(true).step, ProjectStep::Done);
    let unwritten = start().advance(true).advance(false);
    assert_eq!(unwritten.step, ProjectStep::Read(1));
    let none = start().advance(false).advance(false).advance(false);
    assert_eq!(none.step, ProjectStep::Done);
    assert_eq!(
        ProjectRecord::new("hash".to_string(), vec![]).step,
        ProjectStep::Done
    );
}

#[test]
fn intercepted_htlcs_find_their_channels() {
    let channels = vec![
        ShortIds {
            short_channel_id: Some(1),
            outbound_scid_alias: Some(11),
        },
        ShortIds {
            short_channel_id: None,
            outbound_scid_alias: Some(12),
        },
        ShortIds {
            short_channel_id: Some(12),
            outbound_scid_alias: None,
        },
    ];
    assert_eq!(inbound_channel(&channels, 12), Some(1));
    assert_eq!(inbound_channel(&channels, 1), None);
    assert_eq!(outbound_channel(&channels, 1), Some(0));
    assert_eq!(outbound_channel(&channels, 12), Some(1));
    assert_eq!(outbound_channel(&channels, 13), None);
}

fn info() -> RgbInfo {
    RgbInfo {
        contract_id: "rgb:a".to_string(),
        schema: AssetSchema::Nia,
        local_rgb_amount: 10,
        remote_rgb_amount: 5,
        batch_transfer_idx: None,
        counterparty_knows_asset: false,
    }
}

#[test]
fn funding_transfers_are_donated_and_final() {
    let standard = funding_transfer(
        &info(),
        "r".to_string(),
        50_000,
        777,
        None,
        7,
        6,
        1_000,
    );
    assert_eq!(standard.asset_id, "rgb:a");
    assert_eq!(standard.assignment, Assignment::Fungible(15));
    assert_eq!(standard.amount_sat, 50_000);
    assert_eq!(standard.blinding, Some(777));
    assert!(standard.transport_endpoints.is_empty());
    assert!(standard.donation && !standard.dry_run);
    assert_eq!(standard.min_confirmations, 6);
    assert_eq!(
        standard.expiration_timestamp,
        1_000 + RGB_TRANSFER_CHAN_EXPIRATION_SECS
    );
    assert_eq!(standard.lock_time, Some(0));
    let virtual_one = funding_transfer(
        &info(),
        "r".to_string(),
        50_000,
        777,
        Some("proxy".to_string()),
        7,
        6,
        1_000,
    );
    assert_eq!(virtual_one.transport_endpoints, vec!["proxy".to_string()]);
    assert_eq!(virtual_one.min_confirmations, 0);
}

#[test]
fn plain_fundings_that_cannot_be_prepared_close_or_replay() {
    let network = RgbLibError::Network {
        details: "offline".to_string(),
    };
    let internal = RgbLibError::Internal {
        details: "broken".to_string(),
    };
    assert_eq!(
        prepare_plain_funding(Err(network), 100),
        PlainFunding::Replay
    );
    assert_eq!(
        prepare_plain_funding(Err(internal.clone()), 100),
        PlainFunding::Close(internal)
    );
    assert_eq!(
        prepare_plain_funding(Ok("no psbt".to_string()), 100),
        PlainFunding::Replay
    );
}

fn record() -> RgbSenderFundingRecord {
    RgbSenderFundingRecord {
        version: RgbSenderFundingRecord::VERSION,
        manual_broadcast: true,
        temporary_channel_id: "01".repeat(32),
        final_channel_id: Some("02".repeat(32)),
        funding_txid: "03".repeat(32),
        batch_transfer_idx: 7,
        rgb_info: Some(RgbInfo {
            batch_transfer_idx: Some(7),
            ..info()
        }),
        consignment_delivery: RgbSenderConsignmentDelivery::P2p,
        stage: RgbSenderFundingStage::HandedToLdk,
    }
}

#[test]
fn missing_journal_records_are_none() {
    let key = "03".repeat(32);
    let read = |stored| read_rgb_sender_funding_record_optional(&key, stored);
    assert_eq!(read(StoredRecord::Decoded(record())), Ok(Some(record())));
    assert_eq!(
        read(StoredRecord::Unread(StoreError {
            not_found: true,
            text: "missing".to_string()
        })),
        Ok(None)
    );
    let failed = |details: &str| {
        Err(RgbLibError::Internal {
            details: details.to_string(),
        })
    };
    assert_eq!(
        read(StoredRecord::Unread(StoreError {
            not_found: false,
            text: "io".to_string()
        })),
        failed("cannot read sender funding journal: io")
    );
    assert_eq!(
        read(StoredRecord::Undecodable("eof".to_string())),
        failed("cannot decode sender funding journal: eof")
    );
    assert_eq!(
        read_rgb_sender_funding_record_optional("other", StoredRecord::Decoded(record())),
        failed("sender funding journal key does not match its transaction ID")
    );
}

#[test]
fn durable_channels_carry_the_records_transaction() {
    let channel = |channel_id: &str, txid: Option<&str>| FundedChannel {
        channel_id: channel_id.repeat(32),
        funding_txid: txid.map(|t| t.repeat(32)),
    };
    let durable = |channels| rgb_sender_channel_is_durable(&record(), &channels);
    assert!(durable(vec![
        channel("09", Some("03")),
        channel("02", Some("03"))
    ]));
    assert!(!durable(vec![
        channel("02", Some("04")),
        channel("02", None)
    ]));
    let mut without_channel = record();
    without_channel.final_channel_id = None;
    assert!(!rgb_sender_channel_is_durable(
        &without_channel,
        &vec![channel("02", Some("03"))]
    ));
}

#[test]
fn failures_name_what_was_being_done() {
    let journal = |access: JournalAccess| match access.failed("io") {
        RgbLibError::Internal { details } => details,
        other => panic!("unexpected {other:?}"),
    };
    assert_eq!(
        journal(JournalAccess::ListSenders),
        "cannot list sender funding journals: io"
    );
    assert_eq!(
        journal(JournalAccess::ListReceivers),
        "cannot list receiver funding journals: io"
    );
    assert_eq!(
        journal(JournalAccess::ReadReceiver),
        "cannot read receiver funding journal: io"
    );
    assert_eq!(
        journal(JournalAccess::ListReceiversToReconcile),
        "cannot list RGB receiver funding journals: io"
    );
    assert_eq!(
        journal(JournalAccess::ReadReceiverToReconcile),
        "cannot read RGB receiver funding journal: io"
    );
    assert!(matches!(
        StartFailure::WalletBackup.report("x"),
        APIError::FailedVssInit(m) if m == "Failed to configure VSS backup for RGB wallet: x"
    ));
    assert!(matches!(
        StartFailure::WalletTask.report("x"),
        APIError::Unexpected(m) if m == "rgb-lib wallet setup task failed: x"
    ));
    assert!(matches!(
        StartFailure::RecoveryTask.report("x"),
        APIError::Unexpected(m) if m == "RGB funding recovery task failed: x"
    ));
    assert!(matches!(
        StartFailure::Recovery.report("x"),
        APIError::Unexpected(m) if m == "RGB funding recovery failed: x"
    ));
}
