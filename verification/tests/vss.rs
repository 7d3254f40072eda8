use bitcoin::bip32::{ChildNumber, Xpriv};
use bitcoin::hashes::sha256;
use bitcoin::secp256k1::Secp256k1;
use bitcoin::NetworkKind;
use rgb_lightning_node::error::APIError;
use rgb_lightning_node::vss::{
    derive_vss_identity, derive_vss_identity_from_bootstrap, derive_vss_identity_from_key_source,
    ldk_seed, restore_from_vss, rgb_store_id, vss_identity, BootstrapData, KeySourceFile,
    RgbRestore, RgbRestoreReply, RgbRestoreStep, SignerIdentity, WalletRestore,
};

fn digest(data: &[u8]) -> [u8; 32] {
    let hash: sha256::Hash = bitcoin::hashes::Hash::hash(data);
    bitcoin::hashes::Hash::to_byte_array(hash)
}

fn fake_bootstrap(node_id: &str) -> BootstrapData {
    BootstrapData {
        identity: SignerIdentity {
            node_id: node_id.to_string(),
            account_xpub_vanilla: "xv".to_string(),
            account_xpub_colored: "xc".to_string(),
            master_fingerprint: "deadbeef".to_string(),
        },
        protocol_version: "1".to_string(),
        api_level: 1,
    }
}

#[test]
fn deterministic_for_same_bootstrap() {
    let b = fake_bootstrap(&"02".repeat(33));
    let a = derive_vss_identity_from_bootstrap(&b).expect("derive");
    let c = derive_vss_identity_from_bootstrap(&b).expect("derive");
    assert_eq!(a.pubkey_hex, c.pubkey_hex);
    assert_eq!(a.signing_key, c.signing_key);
}

#[test]
fn differs_for_different_bootstrap() {
    let a = derive_vss_identity_from_bootstrap(&fake_bootstrap(&"02".repeat(33))).expect("derive");
    let b = derive_vss_identity_from_bootstrap(&fake_bootstrap(&"03".repeat(33))).expect("derive");
    assert_ne!(a.pubkey_hex, b.pubkey_hex);
}

#[test]
fn key_source_matches_bootstrap_identity() {
    let b = fake_bootstrap(&"02".repeat(33));
    let key_source = KeySourceFile::from_bootstrap(&b);
    let from_bootstrap = derive_vss_identity_from_bootstrap(&b).expect("derive bootstrap");
    let from_key_source =
        derive_vss_identity_from_key_source(&key_source).expect("derive key source");
    assert_eq!(from_bootstrap.pubkey_hex, from_key_source.pubkey_hex);
    assert_eq!(from_bootstrap.signing_key, from_key_source.signing_key);
}

#[test]
fn bootstrap_identity_is_the_tagged_hash_of_the_public_material() {
    let b = fake_bootstrap("node");
    let identity = derive_vss_identity_from_bootstrap(&b).expect("derive");
    let expected = digest(b"rln-vss-identity-v1nodexvxcdeadbeef1");
    assert_eq!(identity.signing_key, expected);
    // without the tag the key is another one
    let untagged = digest(b"nodexvxcdeadbeef1");
    assert_ne!(identity.signing_key, untagged);
    assert_eq!(identity.pubkey_hex.len(), 66);
    assert_eq!(
        rgb_store_id(&identity),
        format!("{}_rgb", identity.pubkey_hex)
    );
}

#[test]
fn seed_identity_is_the_hardened_child() {
    let seed: Vec<u8> = (0u8..16).collect();
    let secp = Secp256k1::new();
    let hardened = |index| ChildNumber::Hardened { index };
    let master = Xpriv::new_master(NetworkKind::Test, &seed).unwrap();
    let node = master.derive_priv(&secp, &[hardened(535)]).unwrap();
    let store = node.derive_priv(&secp, &[hardened(1)]).unwrap();

    let identity = derive_vss_identity(Ok(seed.clone())).expect("derive");
    assert_eq!(identity.signing_key, store.private_key.secret_bytes());
    assert_eq!(
        identity.pubkey_hex,
        store.private_key.public_key(&secp).to_string()
    );
    assert_eq!(
        ldk_seed(&seed).expect("derive"),
        node.private_key.secret_bytes()
    );

    match derive_vss_identity(Err("bad checksum".to_string())) {
        Err(APIError::FailedVssInit(m)) => {
            assert_eq!(m, "VSS identity: invalid mnemonic: bad checksum")
        }
        other => panic!("unexpected {other:?}"),
    }
}

#[test]
fn identity_follows_the_key_source() {
    let b = fake_bootstrap("node");
    assert!(vss_identity(false, None, None).unwrap().is_none());
    let external = vss_identity(true, None, Some(&b)).unwrap().unwrap();
    assert_eq!(external, derive_vss_identity_from_bootstrap(&b).unwrap());
    let own = vss_identity(true, Some(Ok(vec![7; 64])), Some(&b))
        .unwrap()
        .unwrap();
    assert_eq!(own, derive_vss_identity(Ok(vec![7; 64])).unwrap());
    assert!(matches!(
        vss_identity(true, None, None),
        Err(APIError::FailedVssInit(m))
            if m == "VSS identity: external-signer mode is missing bootstrap data"
    ));
}

#[test]
fn state_is_only_fetched_without_local_state() {
    assert_eq!(restore_from_vss(true, Ok(5), false), Ok(0));
    assert_eq!(restore_from_vss(false, Ok(0), false), Ok(0));
    assert_eq!(restore_from_vss(false, Ok(5), false), Ok(5));
    assert_eq!(restore_from_vss(false, Err("down".to_string()), true), Ok(0));
    match restore_from_vss(false, Err("down".to_string()), false) {
        Err(APIError::FailedVssInit(m)) => assert_eq!(
            m,
            "VSS restore failed: down. Pass --vss-allow-empty-restore to start with an empty \
             local state instead (UNSAFE if you previously had active channels)."
        ),
        other => panic!("unexpected {other:?}"),
    }
}

#[test]
fn local_wallet_is_never_replaced() {
    let job = RgbRestore::maybe_restore_rgb_from_vss("/data".to_string(), false);
    let job = job.advance(RgbRestoreReply::Present(true));
    assert!(matches!(job.step, RgbRestoreStep::Done(Ok(()))));
}

#[test]
fn missing_wallet_is_fetched() {
    let start = || {
        RgbRestore::maybe_restore_rgb_from_vss("/data".to_string(), false)
            .advance(RgbRestoreReply::Present(false))
    };
    assert!(matches!(start().step, RgbRestoreStep::CreateDataDir));
    match start()
        .advance(RgbRestoreReply::Created(Err("denied".to_string())))
        .step
    {
        RgbRestoreStep::Done(Err(APIError::FailedVssInit(m))) => assert_eq!(
            m,
            "RGB VSS restore: failed to create data_dir /data: denied"
        ),
        other => panic!("unexpected {other:?}"),
    }
    let fetch = || start().advance(RgbRestoreReply::Created(Ok(())));
    for outcome in [WalletRestore::Restored, WalletRestore::NotFound] {
        assert!(matches!(
            fetch().advance(RgbRestoreReply::Restored(outcome)).step,
            RgbRestoreStep::Done(Ok(()))
        ));
    }
    match fetch()
        .advance(RgbRestoreReply::Restored(WalletRestore::Failed(
            "corrupt".to_string(),
        )))
        .step
    {
        RgbRestoreStep::Done(Err(APIError::FailedVssInit(m))) => assert_eq!(
            m,
            "RGB VSS restore failed: corrupt. Pass --vss-allow-empty-restore to start with an \
             empty RGB wallet instead (UNSAFE if you previously had RGB assets)."
        ),
        other => panic!("unexpected {other:?}"),
    }
    let tolerant = RgbRestore::maybe_restore_rgb_from_vss("/data".to_string(), true)
        .advance(RgbRestoreReply::Present(false))
        .advance(RgbRestoreReply::Created(Ok(())))
        .advance(RgbRestoreReply::Restored(WalletRestore::Failed(
            "corrupt".to_string(),
        )));
    assert!(matches!(tolerant.step, RgbRestoreStep::Done(Ok(()))));
}
