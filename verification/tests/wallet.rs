use std::str::FromStr;

use bitcoin::bip32::{ChildNumber, Xpriv, Xpub};
use bitcoin::secp256k1::Secp256k1;
use bitcoin::{
    absolute, transaction, Address, Amount, CompressedPublicKey, Network, NetworkKind, OutPoint,
    Psbt, ScriptBuf, Sequence, Transaction, TxIn, TxOut, Txid, Witness,
};
use rgb_lightning_node::app_state::AppState;
use rgb_lightning_node::crypto::final_channel_id;
use rgb_lightning_node::error::{APIError, RgbLibError};
use rgb_lightning_node::network::{funding_address, BitcoinNetwork};
use rgb_lightning_node::psbt::{extract_signed_tx, normalize_funding_psbt_locktime};
use rgb_lightning_node::rgb_import::{
    accept_payload, admit_import, decode_rgb_base64, import_outcome, map_contract_import_error,
    map_transfer_import_error, open_transfer_payload, task_failed, validate_expected_asset_id,
    ExpectedAssetId, ImportRgbTransferConsignmentRequestData, RgbPayloadKind,
    MAX_RGB_IMPORT_BASE64_CHARACTERS,
};
use rgb_lightning_node::sender_recovery::check_signed_psbt;
use rgb_lightning_node::signer::{
    attach_external_signer_transport, infer_keyindex_from_script, resolve_rgb_psbt_signer_failure,
    rgb_signer_descriptors_for_psbt_with_context, sign_psbt, LocalUnspent, RgbWalletAccount,
    RlnSignerError, WalletInputMetadata,
};
use rgb_lightning_node::wallet::{
    get_change_script, list_confirmed_utxos, UnlockedAppState, WalletCall, WalletOutput,
};

fn message(error: RgbLibError) -> String {
    match error {
        RgbLibError::Internal { details } => details,
        other => panic!("unexpected {other:?}"),
    }
}

#[test]
fn external_mode_does_not_invoke_local_psbt_sign() {
    let err = RlnSignerError::Protocol("simulated".to_string());
    let res = resolve_rgb_psbt_signer_failure(true, &err, || {
        panic!("local PSBT signing must not run in external signer mode");
    });
    let err_out = res.expect_err("external signer failure must surface as RgbLibError");
    let msg = message(err_out);
    assert!(
        msg.contains("external signer RGB PSBT signing failed"),
        "{msg}"
    );
    assert!(msg.contains("simulated"), "{msg}");
}

#[test]
fn internal_mode_falls_back_to_local_psbt_sign() {
    let err = RlnSignerError::Protocol("ignored".to_string());
    let res = resolve_rgb_psbt_signer_failure(false, &err, || Ok("signed-local".into()));
    assert_eq!(res.expect("fallback ok"), "signed-local");
}

#[test]
fn external_mode_surfaces_transport_error_in_message() {
    let err = RlnSignerError::Transport("signer offline".to_string());
    let res = resolve_rgb_psbt_signer_failure(true, &err, || {
        panic!("local PSBT signing must not run in external signer mode");
    });
    let msg = message(res.expect_err("expected error"));
    assert!(
        msg.contains("external signer RGB PSBT signing failed"),
        "{msg}"
    );
    assert!(msg.contains("signer offline"), "{msg}");
}

#[test]
fn base64_validation_is_bounded_and_payload_specific() {
    assert!(matches!(
        decode_rgb_base64(String::new(), RgbPayloadKind::Contract),
        Err(APIError::InvalidRgbContract(_))
    ));
    assert!(matches!(
        decode_rgb_base64(
            "not base64".to_string(),
            RgbPayloadKind::TransferConsignment
        ),
        Err(APIError::InvalidRgbConsignment(_))
    ));
    assert!(matches!(
        decode_rgb_base64(
            "A".repeat(MAX_RGB_IMPORT_BASE64_CHARACTERS + 1),
            RgbPayloadKind::Contract,
        ),
        Err(APIError::InvalidRgbContract(_))
    ));
    assert_eq!(
        decode_rgb_base64("YWJj".to_string(), RgbPayloadKind::Contract).unwrap(),
        b"abc"
    );
}

#[test]
fn imports_are_held_against_the_expected_asset() {
    let expected = |canonical: Option<&str>| ExpectedAssetId {
        given: "rgb:given".to_string(),
        canonical: canonical.map(|c| c.to_string()),
    };
    let kind = RgbPayloadKind::Contract;
    assert_eq!(
        validate_expected_asset_id(&expected(Some("rgb:a")), "rgb:a", kind),
        Ok(())
    );
    assert_eq!(
        validate_expected_asset_id(&expected(Some("rgb:a")), "rgb:b", kind),
        Err(APIError::InvalidRgbContract(
            "expected asset id rgb:given, got rgb:b".to_string()
        ))
    );
    assert_eq!(
        validate_expected_asset_id(&expected(None), "rgb:b", kind),
        Err(APIError::InvalidAssetID("rgb:given".to_string()))
    );
    assert_eq!(
        accept_payload(Err("truncated".to_string()), &None, kind),
        Err(APIError::InvalidRgbContract("truncated".to_string()))
    );
    assert_eq!(
        accept_payload(Ok("rgb:b".to_string()), &None, kind),
        Ok("rgb:b".to_string())
    );
    let request = || ImportRgbTransferConsignmentRequestData {
        consignment_base64: "YWJj".to_string(),
        offchain_txid: "t".to_string(),
        expected_asset_id: None,
    };
    assert_eq!(open_transfer_payload(true, request()).unwrap(), b"abc");
    assert_eq!(
        open_transfer_payload(false, request()),
        Err(APIError::InvalidRgbConsignment(
            "off-chain transaction ID is invalid".to_string()
        ))
    );
    let mut state = AppState::new();
    assert_eq!(admit_import(&state), Err(APIError::LockedNode));
    state.update_unlocked_app_state(true);
    assert_eq!(admit_import(&state), Ok(()));
    let outcome = import_outcome(kind, "rgb:b".to_string(), Ok(true)).unwrap();
    assert_eq!(outcome.asset_id, "rgb:b");
    assert!(outcome.already_imported);
    assert!(matches!(
        task_failed(kind, " import", "cancelled"),
        APIError::Unexpected(m) if m.contains("cancelled")
    ));
    let internal = || RgbLibError::Internal {
        details: "x".to_string(),
    };
    assert!(map_contract_import_error(internal()) == map_transfer_import_error(internal()));
}

#[test]
fn channel_ids_fold_the_output_index_into_the_transaction_id() {
    let txid = format!("{}{}", "00".repeat(31), "ff");
    // the transaction ID is written in reverse: its last byte comes first
    assert_eq!(
        final_channel_id(&txid, 0x0102).unwrap(),
        format!("ff{}{}", "00".repeat(29), "0102")
    );
    assert!(final_channel_id("xyz", 0).is_err());
}

fn account(secp: &Secp256k1<bitcoin::secp256k1::All>, seed: u8) -> Xpub {
    let master = Xpriv::new_master(NetworkKind::Test, &[seed; 32]).unwrap();
    Xpub::from_priv(secp, &master)
}

fn child_script(
    secp: &Secp256k1<bitcoin::secp256k1::All>,
    account: &Xpub,
    path: &[u32],
    taproot: bool,
) -> Vec<u8> {
    let path: Vec<ChildNumber> = path.iter().map(|i| ChildNumber::from(*i)).collect();
    let child = account.derive_pub(secp, &path).unwrap();
    let address = if taproot {
        let key = child.public_key.x_only_public_key().0;
        Address::p2tr(secp, key, None, Network::Regtest)
    } else {
        Address::p2wpkh(&CompressedPublicKey(child.public_key), Network::Regtest)
    };
    address.script_pubkey().to_bytes()
}

#[test]
fn key_index_is_found_under_either_account() {
    let secp = Secp256k1::new();
    let colored = account(&secp, 1);
    let vanilla = account(&secp, 2);
    let accounts = RgbWalletAccount {
        account_xpub_colored: colored.to_string(),
        account_xpub_vanilla: vanilla.to_string(),
    };
    for (account, path, taproot, index) in [
        (&colored, vec![3], false, 3),
        (&colored, vec![0, 5], true, 5),
        (&vanilla, vec![1, 4], true, 4),
        (&vanilla, vec![2], false, 2),
    ] {
        let script = child_script(&secp, account, &path, taproot);
        assert_eq!(
            infer_keyindex_from_script(&accounts, "regtest", &script),
            Some(index)
        );
    }
    let unparsable = RgbWalletAccount {
        account_xpub_colored: "no key".to_string(),
        account_xpub_vanilla: "no key".to_string(),
    };
    assert_eq!(
        infer_keyindex_from_script(&unparsable, "regtest", &vec![0, 1]),
        None
    );
}

fn transaction(lock_time: u32, sequence: u32) -> Transaction {
    Transaction {
        version: transaction::Version::TWO,
        lock_time: absolute::LockTime::from_consensus(lock_time),
        input: vec![TxIn {
            previous_output: OutPoint {
                txid: Txid::from_str(&"11".repeat(32)).unwrap(),
                vout: 3,
            },
            script_sig: ScriptBuf::new(),
            sequence: Sequence(sequence),
            witness: Witness::new(),
        }],
        output: vec![TxOut {
            value: Amount::from_sat(900),
            script_pubkey: ScriptBuf::from_bytes(vec![0x51]),
        }],
    }
}

fn psbt(lock_time: u32, sequence: u32, script: Option<Vec<u8>>) -> Psbt {
    let mut psbt = Psbt::from_unsigned_tx(transaction(lock_time, sequence)).unwrap();
    psbt.inputs[0].witness_utxo = script.map(|s| TxOut {
        value: Amount::from_sat(1_000),
        script_pubkey: ScriptBuf::from_bytes(s),
    });
    psbt
}

fn lock_time_after(lock_time: u32, sequence: u32, height: u32) -> u32 {
    let text = psbt(lock_time, sequence, None).to_string();
    let normalized = normalize_funding_psbt_locktime(text, height).unwrap();
    Psbt::from_str(&normalized)
        .unwrap()
        .unsigned_tx
        .lock_time
        .to_consensus_u32()
}

#[test]
fn lock_time_is_clamped_to_the_known_height() {
    let replaceable = 0xFFFF_FFFD;
    assert_eq!(lock_time_after(110, replaceable, 100), 100);
    assert_eq!(lock_time_after(102, replaceable, 100), 100);
    assert_eq!(lock_time_after(101, replaceable, 100), 101);
    assert_eq!(lock_time_after(50, replaceable, 100), 50);
    // not enforced, or not a height
    assert_eq!(lock_time_after(110, u32::MAX, 100), 110);
    assert_eq!(lock_time_after(500_000_000, replaceable, 100), 500_000_000);
    assert!(normalize_funding_psbt_locktime("no psbt".to_string(), 100).is_err());
}

#[test]
fn signed_transactions_are_extracted() {
    let known = psbt(0, 0, Some(vec![0x51])).to_string();
    assert_eq!(extract_signed_tx(&known), Ok(()));
    let tx = sign_psbt(false, Some(&known)).unwrap();
    assert_eq!(tx, bitcoin::consensus::serialize(&transaction(0, 0)));
    // without the input's value only an external signer's transaction is taken
    let unknown = psbt(0, 0, None).to_string();
    assert!(extract_signed_tx(&unknown).is_err());
    assert_eq!(sign_psbt(false, Some(&unknown)), None);
    assert_eq!(sign_psbt(true, Some(&unknown)), Some(tx));
    assert_eq!(sign_psbt(true, Some("no psbt")), None);
    assert_eq!(sign_psbt(true, None), None);

    let txid = transaction(0, 0).compute_txid().to_string();
    assert_eq!(
        check_signed_psbt(&txid, known.clone().into_bytes()).unwrap(),
        known
    );
    assert!(check_signed_psbt(&"22".repeat(32), known.into_bytes()).is_err());
    assert!(check_signed_psbt(&txid, vec![0xff]).is_err());
}

fn unspent() -> LocalUnspent {
    LocalUnspent {
        txid: "11".repeat(32),
        vout: 3,
        derivation_index: 8,
    }
}

fn no_accounts() -> RgbWalletAccount {
    RgbWalletAccount {
        account_xpub_colored: "no key".to_string(),
        account_xpub_vanilla: "no key".to_string(),
    }
}

#[test]
fn inputs_are_described_for_the_signer() {
    let text = psbt(0, 0, Some(vec![0x51])).to_string();
    let own = rgb_signer_descriptors_for_psbt_with_context(
        Ok(vec![unspent()]),
        no_accounts(),
        "regtest".to_string(),
        vec![],
        false,
        &text,
    )
    .unwrap();
    let value: serde_json::Value = serde_json::from_str(&own[0]).unwrap();
    assert_eq!(value["txid"], "11".repeat(32));
    assert_eq!(value["outnum"], 3);
    assert_eq!(value["amount"], 1_000);
    assert_eq!(value["keyindex"], 8);
    assert_eq!(value["is_p2sh"], false);
    assert_eq!(value["script_hex"], "51");
    assert_eq!(value["is_in_coinbase"], false);

    let answered = rgb_signer_descriptors_for_psbt_with_context(
        Ok(vec![unspent()]),
        no_accounts(),
        "regtest".to_string(),
        vec![Some(WalletInputMetadata {
            amount_sat: 7,
            keyindex: 9,
            is_p2sh: true,
            script_pubkey_hex: "00".to_string(),
        })],
        true,
        &text,
    )
    .unwrap();
    let value: serde_json::Value = serde_json::from_str(&answered[0]).unwrap();
    assert_eq!(value["amount"], 7);
    assert_eq!(value["keyindex"], 9);
    assert_eq!(value["is_p2sh"], true);
}

fn description_error(unspents: Vec<LocalUnspent>, network: &str, text: &str) -> String {
    message(
        rgb_signer_descriptors_for_psbt_with_context(
            Ok(unspents),
            no_accounts(),
            network.to_string(),
            vec![],
            true,
            text,
        )
        .unwrap_err(),
    )
}

#[test]
fn inputs_that_cannot_be_described_are_named() {
    let text = psbt(0, 0, Some(vec![0x51])).to_string();
    let outpoint = format!("{}:3", "11".repeat(32));
    assert_eq!(
        description_error(vec![], "regtest", &text),
        format!("cannot map PSBT input {outpoint} to wallet unspents for external signer")
    );
    assert_eq!(
        description_error(vec![unspent()], "regtest", &text),
        format!("external signer did not return wallet input metadata for {outpoint}")
    );
    assert_eq!(
        description_error(
            vec![unspent()],
            "regtest",
            &psbt(0, 0, None).to_string()
        ),
        "PSBT input index 0 missing witness_utxo"
    );
    assert_eq!(
        description_error(vec![unspent()], "mars", &text),
        "invalid bitcoin network for signer descriptor derivation: failed to parse mars as network"
    );
    assert!(description_error(vec![unspent()], "regtest", "no psbt")
        .starts_with("invalid unsigned PSBT for external signer: "));
}

#[test]
fn wallet_signing_follows_the_mode() {
    let text = psbt(0, 0, Some(vec![0x51])).to_string();
    let state = |external_signer_mode| UnlockedAppState {
        accounts: no_accounts(),
        network: "regtest".to_string(),
        external_signer_mode,
    };
    let signed = state(false).rgb_sign_psbt(
        Ok(vec![]),
        vec![],
        text.clone(),
        |descriptors, psbt| {
            assert!(descriptors.is_empty());
            Ok(format!("signed {psbt}"))
        },
        || panic!("the wallet is not asked"),
    );
    assert_eq!(signed, Ok(format!("signed {text}")));
    let fallback = state(false).rgb_sign_psbt(
        Ok(vec![]),
        vec![],
        text.clone(),
        |_, _| Err(RlnSignerError::Transport("gone".to_string())),
        || Ok("by the wallet".to_string()),
    );
    assert_eq!(fallback, Ok("by the wallet".to_string()));
    let metadata = WalletInputMetadata {
        amount_sat: 7,
        keyindex: 9,
        is_p2sh: false,
        script_pubkey_hex: "00".to_string(),
    };
    let external = state(true).rgb_sign_psbt(
        Ok(vec![unspent()]),
        vec![Some(metadata)],
        text,
        |descriptors, _| {
            assert_eq!(descriptors.len(), 1);
            Err(RlnSignerError::Protocol("refused".to_string()))
        },
        || panic!("the wallet is not asked"),
    );
    assert_eq!(
        message(external.unwrap_err()),
        "external signer RGB PSBT signing failed: refused"
    );
}

#[test]
fn signer_errors_are_told_apart() {
    let attach = |e| attach_external_signer_transport::<u8>(Err(e), Ok(()));
    assert_eq!(
        attach(RlnSignerError::Transport("t".to_string())),
        Err(APIError::ExternalSignerUnavailable("t".to_string()))
    );
    assert_eq!(
        attach(RlnSignerError::Protocol("p".to_string())),
        Err(APIError::ExternalSignerProtocolError("p".to_string()))
    );
    assert_eq!(
        attach(RlnSignerError::Unsupported("u".to_string())),
        Err(APIError::ExternalSignerProtocolError("u".to_string()))
    );
    assert_eq!(
        attach_external_signer_transport(Ok(1u8), Err("bad".to_string())),
        Err(APIError::ExternalSignerProtocolError("bad".to_string()))
    );
    assert_eq!(attach_external_signer_transport(Ok(1u8), Ok(())), Ok(1));
}

#[test]
fn spendable_outputs_are_weighed() {
    let secp = Secp256k1::new();
    let key = account(&secp, 1);
    let listed = |outpoint: String, script| WalletOutput {
        outpoint,
        value_sat: 1,
        script,
    };
    let output = |script| listed(format!("{}:7", "1a".repeat(32)), script);
    let outputs = vec![
        output(child_script(&secp, &key, &[0], false)),
        output(vec![0x6a]),
        output(child_script(&secp, &key, &[0], true)),
        // no x coordinate of a point
        output([vec![0x51, 0x20], vec![0xff; 32]].concat()),
    ];
    let utxos = list_confirmed_utxos("regtest", Some(&outputs)).unwrap();
    assert_eq!(utxos.len(), 2);
    for (utxo, (place, weight)) in utxos.iter().zip([(0, 112), (2, 70)]) {
        assert_eq!(utxo.txid, [0x1a; 32]);
        assert_eq!((utxo.vout, utxo.value_sat), (7, 1));
        assert_eq!(utxo.script, outputs[place].script);
        assert_eq!(utxo.satisfaction_weight, weight);
    }
    // the bytes of a transaction ID are written in reverse
    let script = || child_script(&secp, &key, &[0], false);
    let ids = |outpoints: &[String]| {
        let outputs = outpoints.iter().map(|o| listed(o.clone(), script())).collect();
        list_confirmed_utxos("regtest", Some(&outputs)).unwrap()
    };
    let txid = format!("{}FF", "00".repeat(31));
    let reversed = ids(&[format!("{txid}:0"), format!("{txid}:{}", u32::MAX)]);
    assert_eq!((reversed[0].txid[0], reversed[0].txid[31]), (0xff, 0));
    assert_eq!((reversed[0].vout, reversed[1].vout), (0, u32::MAX));
    // outputs whose outpoint cannot be read are passed over
    assert!(ids(&[
        txid.clone(),
        format!("{txid}:"),
        format!("{txid}:00"),
        format!("{txid}:+1"),
        format!("{txid}:4294967296"),
        format!("{txid}:1:1"),
        "abcd:1".to_string(),
    ])
    .is_empty());
    assert_eq!(list_confirmed_utxos("regtest", None), None);
    assert_eq!(list_confirmed_utxos("mars", Some(&outputs)), None);
}

#[test]
fn addresses_and_scripts_belong_together() {
    let secp = Secp256k1::new();
    let script = child_script(&secp, &account(&secp, 1), &[0], false);
    for (network, prefix) in [
        (BitcoinNetwork::Mainnet, "bc1q"),
        (BitcoinNetwork::Testnet, "tb1q"),
        (BitcoinNetwork::Testnet4, "tb1q"),
        (BitcoinNetwork::Signet, "tb1q"),
        (BitcoinNetwork::SignetCustom, "tb1q"),
        (BitcoinNetwork::Regtest, "bcrt1q"),
    ] {
        let address = funding_address(&script, network);
        assert!(address.starts_with(prefix), "{address}");
        assert_eq!(get_change_script(Ok(address)), Ok(script.clone()));
    }
    assert_eq!(get_change_script(Ok("no address".to_string())), Err(()));
    assert_eq!(
        get_change_script(Err(RgbLibError::Internal {
            details: "offline".to_string()
        })),
        Err(())
    );
}

#[test]
fn wallet_calls_carry_their_arguments() {
    let state = UnlockedAppState {
        accounts: no_accounts(),
        network: "regtest".to_string(),
        external_signer_mode: false,
    };
    assert!(matches!(state.rgb_get_address(), WalletCall::GetAddress));
    assert!(matches!(
        state.rgb_fail_transfers(Some(4), false, true),
        WalletCall::FailTransfers {
            batch_transfer_idx: Some(4),
            no_asset_only: false,
            skip_sync: true,
        }
    ));
    assert!(matches!(
        state.rgb_create_utxos(true, 5, 1_000, 7, false),
        WalletCall::CreateUtxos {
            up_to: true,
            num: Some(5),
            size: Some(1_000),
            fee_rate: 7,
            skip_sync: false,
        }
    ));
}

#[test]
fn wallet_calls_go_online_only_to_sync() {
    let state = UnlockedAppState {
        accounts: no_accounts(),
        network: "regtest".to_string(),
        external_signer_mode: false,
    };
    for skip_sync in [false, true] {
        assert_eq!(
            state.rgb_get_btc_balance(skip_sync),
            WalletCall::GetBtcBalance {
                skip_sync,
                online: !skip_sync
            }
        );
        assert_eq!(
            state.rgb_list_transactions(skip_sync),
            WalletCall::ListTransactions {
                skip_sync,
                online: !skip_sync
            }
        );
        assert_eq!(
            state.rgb_list_unspents(skip_sync),
            WalletCall::ListUnspents {
                skip_sync,
                online: !skip_sync,
                settled_only: false
            }
        );
    }
    assert_eq!(
        state.rgb_list_transfers("rgb:a".to_string()),
        WalletCall::ListTransfers {
            asset_id: Some("rgb:a".to_string())
        }
    );
    assert_eq!(
        state.rgb_create_utxos_begin(true, 4, 1_000, 7, false),
        WalletCall::CreateUtxosBegin {
            up_to: true,
            num: Some(4),
            size: Some(1_000),
            fee_rate: 7,
            skip_sync: false
        }
    );
    assert_eq!(
        state.rgb_send_btc_begin("addr".to_string(), 5, 7),
        WalletCall::SendBtcBegin {
            address: "addr".to_string(),
            amount: 5,
            fee_rate: 7,
            skip_sync: false
        }
    );
    assert_eq!(
        state.rgb_send_begin(vec![], true, 7, 1, None, false),
        WalletCall::SendBegin {
            recipients: vec![],
            donation: true,
            fee_rate: 7,
            min_confirmations: 1,
            expiration_timestamp: None,
            dry_run: false
        }
    );
}
