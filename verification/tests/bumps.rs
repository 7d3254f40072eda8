use bitcoin::{
    absolute, transaction, Amount, OutPoint, ScriptBuf, Sequence, Transaction, TxIn, TxOut, Witness,
};
use rgb_lightning_node::bump::{Bump, BumpEvent, BumpReply, BumpStep};
use rgb_lightning_node::cpfp::{
    captures, child_of, ChannelCloseBumpRecord, ChannelCloseEvent, CpfpState, PackageTx,
};

fn transaction(lock_time: u32) -> Transaction {
    Transaction {
        version: transaction::Version::TWO,
        lock_time: absolute::LockTime::from_consensus(lock_time),
        input: vec![TxIn {
            previous_output: OutPoint::null(),
            script_sig: ScriptBuf::new(),
            sequence: Sequence::MAX,
            witness: Witness::new(),
        }],
        output: vec![TxOut {
            value: Amount::from_sat(1_000),
            script_pubkey: ScriptBuf::new(),
        }],
    }
}

fn txid(lock_time: u32) -> String {
    transaction(lock_time).compute_txid().to_string()
}

fn package(lock_times: &[u32]) -> Vec<PackageTx> {
    lock_times
        .iter()
        .map(|n| PackageTx {
            raw: bitcoin::consensus::serialize(&transaction(*n)),
        })
        .collect()
}

/// The event of a channel whose commitment is the first transaction.
fn event(target: u32) -> ChannelCloseEvent {
    ChannelCloseEvent::new(
        "chan".to_string(),
        "peer".to_string(),
        "claim".to_string(),
        &bitcoin::consensus::serialize(&transaction(1)),
        target,
    )
    .unwrap()
}

#[test]
fn closes_are_known_by_their_commitment() {
    assert_eq!(event(500).attempt(), format!("chan:{}:claim", txid(1)));
    let broken = ChannelCloseEvent::new(
        "chan".to_string(),
        "peer".to_string(),
        "claim".to_string(),
        &vec![1, 2, 3],
        500,
    );
    assert_eq!(broken, None);
    assert!(captures(Some(&txid(1)), &package(&[1, 2])));
    assert!(!captures(Some(&txid(2)), &package(&[1, 2])));
    assert!(!captures(Some(&txid(1)), &vec![]));
    assert!(!captures(None, &package(&[1, 2])));
    assert_eq!(child_of(&package(&[1, 2])), Some(txid(2)));
    assert_eq!(child_of(&package(&[1])), None);
}

fn start(state: &CpfpState, target: u32, now: u64) -> Bump {
    state.handle_event(BumpEvent::ChannelClose(event(target)), now)
}

fn status(record: &ChannelCloseBumpRecord) -> (&str, Option<&str>, Option<&str>, u64) {
    (
        record.status.as_str(),
        record.child_txid.as_deref(),
        record.last_error.as_deref(),
        record.updated_at,
    )
}

fn stored(state: &CpfpState) -> ChannelCloseBumpRecord {
    state.record_for("chan").unwrap()
}

fn written() -> BumpReply {
    BumpReply::Written(Ok(()))
}

fn full() -> BumpReply {
    BumpReply::Written(Err("disk full".to_string()))
}

#[test]
fn packages_are_built_once_that_is_stored() {
    let mut state = CpfpState::load(vec![], true, "bitcoind");
    let job = start(&state, 500, 10);
    match &job.step {
        BumpStep::Register(next) => assert_eq!(status(&next[0].1), ("pending", None, None, 10)),
        other => panic!("unexpected {other:?}"),
    }
    assert!(state.record_for("chan").is_none());
    let job = job.advance(&mut state, written(), 11);
    assert_eq!(status(&stored(&state)), ("pending", None, None, 10));
    match &job.step {
        BumpStep::WriteConstructing(next) => {
            assert_eq!(status(&next[0].1), ("constructing", None, None, 11))
        }
        other => panic!("unexpected {other:?}"),
    }
    let job = job.advance(&mut state, written(), 12);
    assert!(matches!(job.step, BumpStep::Construct));
    assert_eq!(stored(&state).status, "constructing");
    let built = package(&[1, 2]);
    let job = job.advance(&mut state, BumpReply::Built(built.clone()), 13);
    assert!(matches!(&job.step, BumpStep::Submit(txs) if *txs == built));
    let refused = BumpReply::Submitted(Err("min fee".to_string()));
    let job = job.advance(&mut state, refused, 14);
    assert!(matches!(job.step, BumpStep::WriteOutcome(_)));
    assert_eq!(stored(&state).status, "constructing");
    let job = job.advance(&mut state, written(), 15);
    assert!(matches!(job.step, BumpStep::Done(Ok(()))));
    assert_eq!(
        status(&stored(&state)),
        ("retryable_failure", Some(txid(2).as_str()), Some("min fee"), 14)
    );

    // the package is at hand for the same target
    let job = start(&state, 500, 20).advance(&mut state, written(), 21);
    assert!(matches!(&job.step, BumpStep::Submit(txs) if *txs == built));
    let job = job
        .advance(&mut state, BumpReply::Submitted(Ok(())), 22)
        .advance(&mut state, written(), 23);
    assert!(matches!(job.step, BumpStep::Done(Ok(()))));
    assert_eq!(
        status(&stored(&state)),
        ("accepted", Some(txid(2).as_str()), None, 22)
    );
    assert!(state.pending_packages.is_empty());
}

#[test]
fn attempts_that_cannot_be_stored_send_nothing() {
    let mut state = CpfpState::load(vec![], true, "bitcoind");
    let job = start(&state, 500, 10).advance(&mut state, full(), 11);
    assert!(matches!(&job.step, BumpStep::Done(Err(e)) if e == "disk full"));
    assert!(state.record_for("chan").is_none());
    assert!(state.event_for("chan", "peer").is_none());

    let job = start(&state, 500, 20)
        .advance(&mut state, written(), 21)
        .advance(&mut state, full(), 22);
    assert!(matches!(&job.step, BumpStep::Done(Err(e)) if e == "disk full"));
    assert_eq!(stored(&state).status, "pending");
}

#[test]
fn packages_that_were_not_built_may_be_retried() {
    let mut state = CpfpState::load(vec![], true, "bitcoind");
    let constructing = |state: &mut CpfpState| {
        start(state, 500, 10)
            .advance(state, written(), 11)
            .advance(state, written(), 12)
    };
    let job = constructing(&mut state)
        .advance(&mut state, BumpReply::Built(vec![]), 13)
        .advance(&mut state, written(), 14);
    assert!(matches!(job.step, BumpStep::Done(Ok(()))));
    assert_eq!(
        status(&stored(&state)),
        (
            "retryable_failure",
            None,
            Some("LDK did not construct a transaction for the CPFP event"),
            13
        )
    );
    // a commitment without a child is submitted, and not kept
    let job = constructing(&mut state).advance(
        &mut state,
        BumpReply::Built(package(&[1])),
        13,
    );
    assert!(matches!(&job.step, BumpStep::Submit(txs) if txs.len() == 1));
    assert!(state.pending_packages.is_empty());
}

#[test]
fn backends_without_packages_broadcast_the_commitment() {
    let mut state = CpfpState::load(vec![], false, "esplora");
    let job = start(&state, 500, 10).advance(&mut state, written(), 11);
    assert!(matches!(job.step, BumpStep::BroadcastCommitment));
    assert_eq!(stored(&state).status, "pending");
    let job = job.advance(&mut state, BumpReply::Broadcast, 12);
    assert!(matches!(job.step, BumpStep::WriteOutcome(_)));
    let job = job.advance(&mut state, written(), 13);
    assert!(matches!(job.step, BumpStep::Done(Ok(()))));
    assert_eq!(
        status(&stored(&state)),
        (
            "unavailable",
            None,
            Some(
                "anchor CPFP requires a package-capable backend; indexer-backed package \
                 submission is deferred"
            ),
            12
        )
    );
}

#[test]
fn other_events_are_left_to_the_lightning_library() {
    let mut state = CpfpState::load(vec![], true, "bitcoind");
    let job = state.handle_event(BumpEvent::Other, 10);
    assert!(matches!(job.step, BumpStep::Delegate));
    let job = job.advance(&mut state, BumpReply::Delegated, 11);
    assert!(matches!(job.step, BumpStep::Done(Ok(()))));
    assert!(state.records.is_empty());
}

#[test]
fn attempts_that_were_dropped_meanwhile_fail() {
    let mut state = CpfpState::load(vec![], false, "esplora");
    let job = start(&state, 500, 10).advance(&mut state, written(), 11);
    let mut empty = CpfpState::load(vec![], false, "esplora");
    let job = job.advance(&mut empty, BumpReply::Broadcast, 12);
    assert!(matches!(&job.step, BumpStep::Done(Err(e)) if e == "CPFP record missing"));
}
