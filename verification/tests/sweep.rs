use std::collections::HashMap;

use bitcoin::{
    absolute, transaction, Amount, OutPoint, Psbt, ScriptBuf, Sequence, Transaction, TxIn, TxOut,
    Witness,
};
use rgb_lightning_node::spending::{SpendingTxes, OUTPUT_SPENDER_TXES_KEY};
use rgb_lightning_node::sweep::{
    asset_output_value, colored_feerate, rgb_amount_for_spendable_output,
    sweep_receive_is_reusable, SignedSweep, Sweep, SweepEffect, SweepOutpoint, SweepRecipients,
    SweepReply, SweepStage, SweepTerms, RGB_RECEIVE_REUSE_MARGIN_ADDR_REUSE_SECS,
    RGB_RECEIVE_REUSE_MARGIN_SECS, RGB_TRANSFER_CHAN_EXPIRATION_SECS,
};

#[test]
fn rgb_amount_empty_map_is_vanilla() {
    let map = HashMap::new();
    assert_eq!(rgb_amount_for_spendable_output(&map, 0, "tx"), Ok(0));
}

#[test]
fn rgb_amount_present_output_returns_amount() {
    let map = HashMap::from_iter([(1u32, 42u64)]);
    assert_eq!(rgb_amount_for_spendable_output(&map, 1, "tx"), Ok(42));
}

#[test]
fn rgb_amount_missing_from_non_empty_map_errors() {
    let map = HashMap::from_iter([(1u32, 42u64)]);
    assert!(rgb_amount_for_spendable_output(&map, 0, "tx").is_err());
    assert_eq!(
        rgb_amount_for_spendable_output(&map, 0, "tx"),
        Err("spendable output tx:0 absent from a non-empty transfer info map".to_string())
    );
}

#[test]
fn sweep_receive_reuse_margin_is_smaller_under_address_reuse() {
    let now = 1_000_000;
    let expiration = now + RGB_TRANSFER_CHAN_EXPIRATION_SECS;

    // at t+23h the 1h margin has been reached, but the reuse margin has not
    let late = expiration - RGB_RECEIVE_REUSE_MARGIN_SECS;
    assert!(!sweep_receive_is_reusable(late, expiration, false));
    assert!(sweep_receive_is_reusable(late, expiration, true));
}

#[test]
fn sweep_receive_reuse_respects_both_margin_boundaries() {
    let expiration = 1_000_000;

    for (reuse, margin) in [
        (false, RGB_RECEIVE_REUSE_MARGIN_SECS),
        (true, RGB_RECEIVE_REUSE_MARGIN_ADDR_REUSE_SECS),
    ] {
        // strictly inside the margin is reusable, the boundary itself is not
        assert!(sweep_receive_is_reusable(
            expiration - margin - 1,
            expiration,
            reuse
        ));
        assert!(!sweep_receive_is_reusable(
            expiration - margin,
            expiration,
            reuse
        ));
    }
}

#[test]
fn sweep_receive_past_expiry_is_never_reusable() {
    let expiration = 1_000_000;
    for reuse in [false, true] {
        assert!(!sweep_receive_is_reusable(expiration, expiration, reuse));
        assert!(!sweep_receive_is_reusable(
            expiration + 1,
            expiration,
            reuse
        ));
    }
    // a receive with a minute of life must never be handed out, otherwise it can expire mid-sweep
    assert!(!sweep_receive_is_reusable(
        expiration - 60,
        expiration,
        true
    ));
    // the other margin must stay far larger than a sweep's duration
    assert!(!sweep_receive_is_reusable(
        expiration - 1800,
        expiration,
        false
    ));
}

fn outpoints(n: u16) -> Vec<SweepOutpoint> {
    (0..n)
        .map(|index| SweepOutpoint {
            txid: format!("tx{index}"),
            index,
        })
        .collect()
}

/// A sweep that is admitted, of outputs that were not swept before.
fn sweep(n: u16) -> Sweep {
    Sweep::try_spend_spendable_outputs(Ok(()), &SpendingTxes::load(None), 7, outpoints(n))
}

fn asset(contract: &str, index: u32, amount: u64) -> SweepReply {
    SweepReply::Info {
        contract_id: contract.to_string(),
        output_map: HashMap::from_iter([(index, amount)]),
    }
}

fn failure(job: Sweep) -> String {
    match job.stage {
        SweepStage::Finished(Err(e)) => e,
        other => panic!("unexpected {other:?}"),
    }
}

#[test]
fn plain_outputs_are_spent_at_once() {
    let job = sweep(2)
        .advance(SweepReply::NoInfo)
        .advance(SweepReply::Info {
            contract_id: "rgb:a".to_string(),
            output_map: HashMap::new(),
        });
    assert!(matches!(job.stage, SweepStage::SpendVanilla));
    assert!(matches!(
        job.advance(SweepReply::Tx(Some(vec![1, 2]))).stage,
        SweepStage::Finished(Ok(tx)) if tx == vec![1, 2]
    ));
    let job = sweep(1).advance(SweepReply::NoInfo);
    assert_eq!(
        failure(job.advance(SweepReply::Tx(None))),
        "cannot spend vanilla spendable outputs"
    );
}

fn colored() -> Sweep {
    sweep(2)
        .advance(asset("rgb:a", 0, 30))
        .advance(SweepReply::Height(Some(100)))
        .advance(SweepReply::Witnesses(None))
        .advance(SweepReply::Recipient {
            kept: None,
            now: 1_000,
        })
}

#[test]
fn amounts_of_one_asset_go_to_one_output() {
    let job = colored();
    assert!(matches!(
        &job.stage,
        SweepStage::Receive { amount: 30, expiration, .. }
            if *expiration == 1_000 + RGB_TRANSFER_CHAN_EXPIRATION_SECS
    ));
    let job = job
        .advance(SweepReply::Received("recipient".to_string()))
        .advance(SweepReply::Script(true))
        .advance(asset("rgb:a", 1, 12))
        .advance(SweepReply::Height(Some(101)))
        .advance(SweepReply::Witnesses(None));
    assert!(matches!(job.stage, SweepStage::CreatePsbt));
    assert_eq!(job.assets.len(), 1);
    assert_eq!(job.assets[0].amount, 42);
    assert_eq!(job.assets[0].vout, 0);
    assert_eq!(job.assets[0].recipient_id, "recipient");
}

fn transaction_of(sats: u64) -> Transaction {
    Transaction {
        version: transaction::Version::TWO,
        lock_time: absolute::LockTime::ZERO,
        input: vec![TxIn {
            previous_output: OutPoint::null(),
            script_sig: ScriptBuf::new(),
            sequence: Sequence::MAX,
            witness: Witness::new(),
        }],
        output: vec![TxOut {
            value: Amount::from_sat(sats),
            script_pubkey: ScriptBuf::from_bytes(vec![0x51]),
        }],
    }
}

#[test]
fn swept_outputs_get_their_transaction_again() {
    let tx = bitcoin::consensus::serialize(&transaction_of(900));
    let other = bitcoin::consensus::serialize(&transaction_of(901));
    let mut txes = SpendingTxes::load(None);
    assert_eq!(txes.get(7), None);

    // a transaction that could not be written leaves no entry
    txes.persisted(7, tx.clone(), Err("disk full".to_string()));
    assert_eq!(txes.get(7), None);
    let again = Sweep::try_spend_spendable_outputs(Ok(()), &txes, 7, outpoints(1));
    assert!(matches!(again.stage, SweepStage::ReadInfo));

    txes.persisted(7, tx.clone(), Ok(()));
    let again = Sweep::try_spend_spendable_outputs(Ok(()), &txes, 7, outpoints(1));
    assert!(matches!(again.stage, SweepStage::Finished(Ok(bytes)) if bytes == tx));
    let fresh = Sweep::try_spend_spendable_outputs(Ok(()), &txes, 8, outpoints(1));
    assert!(matches!(fresh.stage, SweepStage::ReadInfo));

    // while the wallet may not change, not even a stored transaction is handed out
    let refused = Err("changing state".to_string());
    let refused = Sweep::try_spend_spendable_outputs(refused, &txes, 7, outpoints(1));
    assert_eq!(failure(refused), "changing state");

    // the whole table is written, and read back by the next start
    let bytes = txes.proposed(8, &other).unwrap();
    assert_eq!(txes.get(8), None);
    let restarted = SpendingTxes::load(Some(bytes));
    assert_eq!(restarted.get(7), Some(tx));
    assert_eq!(restarted.get(8), Some(other));
    assert_eq!(restarted.get(9), None);
    assert_eq!(OUTPUT_SPENDER_TXES_KEY, "output_spender_txes");
}

#[test]
fn unreadable_tables_count_as_empty() {
    let txes = SpendingTxes::load(Some(vec![0, 1, 2]));
    assert_eq!(txes.get(0), None);
    // an empty table is two bytes of length
    assert!(SpendingTxes::load(Some(vec![0, 0])).txes.is_empty());
    assert_eq!(txes.proposed(1, &vec![1, 2, 3]), None);
    let mut trailing = bitcoin::consensus::serialize(&transaction_of(1));
    trailing.push(0);
    assert_eq!(txes.proposed(1, &trailing), None);
}

#[test]
fn colored_sweeps_are_persisted_before_they_are_handed_out() {
    let tx = transaction_of(900);
    let mut psbt = Psbt::from_unsigned_tx(tx.clone()).unwrap();
    psbt.inputs[0].witness_utxo = Some(TxOut {
        value: Amount::from_sat(1_000),
        script_pubkey: ScriptBuf::from_bytes(vec![0x51]),
    });
    let psbt = psbt.to_string();
    let ready = || {
        sweep(1)
            .advance(asset("rgb:a", 0, 30))
            .advance(SweepReply::Height(Some(100)))
            .advance(SweepReply::Witnesses(None))
            .advance(SweepReply::Recipient {
                kept: Some("kept".to_string()),
                now: 1_000,
            })
            .advance(SweepReply::Script(true))
            .advance(SweepReply::Psbt(Some(psbt.clone())))
            .advance(SweepReply::Colored {
                psbt: psbt.clone(),
                contract_ids: vec!["rgb:a".to_string()],
            })
            .advance(SweepReply::Signed(psbt.clone()))
            .advance(SweepReply::Done)
            .advance(SweepReply::Done)
            .advance(SweepReply::Done)
    };
    let job = ready();
    assert!(matches!(job.stage, SweepStage::Persist(_)));
    assert!(matches!(
        job.advance(SweepReply::Done).stage,
        SweepStage::Finished(Ok(bytes)) if bytes == bitcoin::consensus::serialize(&tx)
    ));
    assert_eq!(
        failure(ready().advance(SweepReply::Failed("disk full".to_string()))),
        "cannot persist output spender txes: disk full"
    );
}

#[test]
fn sweeps_fail_where_an_asset_could_be_lost() {
    let start = || sweep(1);
    assert_eq!(
        failure(start().advance(SweepReply::Undecodable("eof".to_string()))),
        "cannot decode transfer info for tx0: eof"
    );
    assert!(failure(start().advance(asset("rgb:a", 9, 30))).contains("tx0"));
    let found = || start().advance(asset("rgb:a", 0, 30));
    assert_eq!(
        failure(found().advance(SweepReply::Height(None))),
        "transaction tx0 is not confirmed yet"
    );
    let high = || found().advance(SweepReply::Height(Some(1)));
    assert_eq!(
        failure(high().advance(SweepReply::Witnesses(Some("bad".to_string())))),
        "failed to update witnesses for tx0: bad"
    );
    let receive = || {
        high()
            .advance(SweepReply::Witnesses(None))
            .advance(SweepReply::Recipient { kept: None, now: 0 })
    };
    assert_eq!(
        failure(receive().advance(SweepReply::Failed("offline".to_string()))),
        "cannot get a witness receive script: offline"
    );
    assert_eq!(
        failure(
            receive()
                .advance(SweepReply::Received("r".to_string()))
                .advance(SweepReply::Script(false))
        ),
        "sweep recipient id has no script"
    );
}

#[test]
fn receives_are_kept_until_the_sweep_is_done() {
    let mut kept = SweepRecipients::new();
    kept.remember(1, "rgb:a".to_string(), "r1".to_string(), 10_000);
    kept.remember(1, "rgb:a".to_string(), "r2".to_string(), 10_000);
    kept.remember(2, "rgb:a".to_string(), "r3".to_string(), 10_000);
    assert_eq!(kept.reusable(1, "rgb:a", 0, false), Some("r2".to_string()));
    assert_eq!(kept.reusable(1, "rgb:b", 0, false), None);
    assert_eq!(kept.reusable(2, "rgb:a", 9_990, false), None);
    assert_eq!(kept.reusable(2, "rgb:a", 0, false), None);
    kept.complete(1);
    assert_eq!(kept.reusable(1, "rgb:a", 0, false), None);

    let sweep = SignedSweep {
        txid: "tx".to_string(),
        tx: vec![],
        contract_ids: vec!["rgb:a".to_string()],
    };
    assert_eq!(sweep.consignment_file(0), "consignment_tx_rgb:a");
    assert_eq!(colored_feerate(7), 1_750);
    assert_eq!(asset_output_value(546_999), 546);
}

fn terms() -> SweepTerms {
    SweepTerms {
        feerate_sat_per_1000_weight: 253,
        fee_rate_sat_vb: 7,
        dust_limit_msat: 546_999,
    }
}

#[test]
fn sweeps_are_carried_out_on_their_terms() {
    let job = sweep(1);
    assert!(matches!(job.effect(&terms()), SweepEffect::ReadInfo { txid } if txid == "tx0"));
    let plain = sweep(1).advance(SweepReply::NoInfo);
    assert!(matches!(
        plain.effect(&terms()),
        SweepEffect::SpendVanilla {
            feerate_sat_per_1000_weight: 253
        }
    ));
    let job = job.advance(asset("rgb:a", 0, 30));
    assert!(matches!(job.effect(&terms()), SweepEffect::ReadHeight { txid } if txid == "tx0"));
    let job = job.advance(SweepReply::Height(Some(100)));
    assert!(matches!(
        job.effect(&terms()),
        SweepEffect::UpdateWitnesses { txid, height: 100 } if txid == "tx0"
    ));
    let job = job.advance(SweepReply::Witnesses(None));
    assert!(matches!(
        job.effect(&terms()),
        SweepEffect::FindRecipient { contract_id } if contract_id == "rgb:a"
    ));
    let job = job.advance(SweepReply::Recipient {
        kept: None,
        now: 1_000,
    });
    assert!(matches!(
        job.effect(&terms()),
        SweepEffect::Receive { contract_id, expiration }
            if contract_id == "rgb:a"
                && expiration == 1_000 + RGB_TRANSFER_CHAN_EXPIRATION_SECS
    ));
    let job = job.advance(SweepReply::Received("recipient".to_string()));
    // an output is worth the dust limit in whole satoshis
    assert!(matches!(
        job.effect(&terms()),
        SweepEffect::AddOutput { recipient_id, value_sat: 546 } if recipient_id == "recipient"
    ));
    let job = job.advance(SweepReply::Script(true));
    // a virtual byte is four weight units
    assert!(matches!(
        job.effect(&terms()),
        SweepEffect::CreatePsbt {
            feerate_sat_per_1000_weight: 1_750
        }
    ));
    let mut psbt = Psbt::from_unsigned_tx(transaction_of(900)).unwrap();
    psbt.inputs[0].witness_utxo = Some(TxOut {
        value: Amount::from_sat(1_000),
        script_pubkey: ScriptBuf::from_bytes(vec![0x51]),
    });
    let psbt = psbt.to_string();
    let job = job.advance(SweepReply::Psbt(Some(psbt.clone())));
    match job.effect(&terms()) {
        SweepEffect::Color { psbt: uncolored, assets } => {
            assert_eq!(uncolored, psbt);
            assert_eq!(assets.len(), 1);
            assert_eq!(assets[0].contract_id, "rgb:a");
            assert_eq!(assets[0].amount, 30);
            assert_eq!(assets[0].vout, 0);
        }
        other => panic!("unexpected {other:?}"),
    }
    let job = job.advance(SweepReply::Colored {
        psbt: psbt.clone(),
        contract_ids: vec!["rgb:a".to_string()],
    });
    assert!(matches!(job.effect(&terms()), SweepEffect::Sign { psbt: colored } if colored == psbt));
    let job = job.advance(SweepReply::Signed(psbt));
    let named = format!(
        "consignment_{}_rgb:a",
        transaction_of(900).compute_txid()
    );
    assert!(matches!(
        job.effect(&terms()),
        SweepEffect::SaveConsignment { file, contract_id }
            if file == named && contract_id == "rgb:a"
    ));
    let job = job.advance(SweepReply::Done);
    assert!(matches!(
        job.effect(&terms()),
        SweepEffect::ProvideConsignment { file } if file == named
    ));
    let job = job.advance(SweepReply::Done);
    assert!(matches!(
        job.effect(&terms()),
        SweepEffect::RemoveConsignment { file } if file == named
    ));
    let job = job.advance(SweepReply::Done);
    assert!(matches!(
        job.effect(&terms()),
        SweepEffect::Persist { tx } if tx == bitcoin::consensus::serialize(&transaction_of(900))
    ));
}
