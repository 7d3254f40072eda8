use rgb_lightning_node::config::{Config, CoreDefaults};
use rgb_lightning_node::error::APIError;
use rgb_lightning_node::gossip::{
    GossipSourceConfig, RGS_SNAPSHOT_MAX_SIZE, RGS_SYNC_INTERVAL_SECS, RGS_SYNC_TIMEOUT_SECS,
};
use rgb_lightning_node::network::BitcoinNetwork;
use rgb_lightning_node::payments::NodeId;
use rgb_lightning_node::recovery::{
    RgbFundingRecoveryAction, RgbFundingRecoveryStage, RgbFundingRecoveryState,
};
use rgb_lightning_node::sender_funding::{AssetSchema, RgbSenderFundingStage};
use rgb_lightning_node::startup::{
    admit_external_signer, check_chain, check_restored, check_rgb_proxy_endpoint, default_proxy,
    load_channel_manager, markers_to_recover, megabytes, needs_indexer_check, resolve_indexer_url,
    settle_recovery, stored_or_new, supported_asset_schemas, sync_failed, user_config, wallet_keys,
    ConfigSync, ConfigSyncReply, ConfigSyncStep, RestoreVerdict, SignerFindings, StoredManager,
    StoredMonitor, UnlockRequest, WalletKeys, SYNC_ATTEMPTS,
};
use rgb_lightning_node::table::Id;
use rgb_lightning_node::upkeep::{
    addresses_to_try, announced_name, check_announce_addresses, judge_address, should_announce,
};
use rgb_lightning_node::vss::{BootstrapData, KeySourceFile, SignerIdentity};

#[test]
fn rgs_constants_have_expected_values() {
    assert_eq!(RGS_SYNC_INTERVAL_SECS, 60 * 60);
    assert_eq!(RGS_SNAPSHOT_MAX_SIZE, 15 * 1024 * 1024);
    assert_eq!(RGS_SYNC_TIMEOUT_SECS, 5);
}

#[test]
fn default_is_p2p() {
    assert!(matches!(
        GossipSourceConfig::default(),
        GossipSourceConfig::P2PNetwork
    ));
}

#[test]
fn indexer_url_falls_back_to_the_config_file() {
    assert_eq!(
        resolve_indexer_url(None, Some("127.0.0.1:50001")).unwrap(),
        "127.0.0.1:50001"
    );
}

#[test]
fn indexer_url_from_the_request_wins_over_the_config_file() {
    assert_eq!(
        resolve_indexer_url(Some("from-request:50001"), Some("from-config:50001")).unwrap(),
        "from-request:50001"
    );
}

#[test]
fn indexer_url_missing_from_both_sources_errors() {
    assert!(matches!(
        resolve_indexer_url(None, None),
        Err(APIError::MissingIndexerUrl)
    ));
}

#[test]
fn ifa_supported_on_all_networks_but_mainnet() {
    assert!(!supported_asset_schemas(BitcoinNetwork::Mainnet).contains(&AssetSchema::Ifa));
    for network in [
        BitcoinNetwork::Testnet,
        BitcoinNetwork::Testnet4,
        BitcoinNetwork::Signet,
        BitcoinNetwork::SignetCustom,
        BitcoinNetwork::Regtest,
    ] {
        let schemas = supported_asset_schemas(network);
        assert!(schemas.contains(&AssetSchema::Ifa));
        assert!(schemas.contains(&AssetSchema::Nia));
        assert!(schemas.contains(&AssetSchema::Cfa));
        assert!(schemas.contains(&AssetSchema::Uda));
    }
}

fn core_defaults() -> CoreDefaults {
    CoreDefaults {
        fee_rate_sat_vb: 7,
        utxo_size_sat: 32_000,
        min_channel_confirmations: 6,
        virtual_htlc_min_msat: 1_000,
    }
}

fn bootstrap(api_level: u32) -> BootstrapData {
    BootstrapData {
        identity: SignerIdentity {
            node_id: "02aa".to_string(),
            account_xpub_vanilla: "xv".to_string(),
            account_xpub_colored: "xc".to_string(),
            master_fingerprint: "deadbeef".to_string(),
        },
        protocol_version: "1".to_string(),
        api_level,
    }
}

fn found(api_level: u32) -> SignerFindings {
    SignerFindings {
        attached: Ok(()),
        bootstrap: bootstrap(api_level),
        key_source: Ok(Some(KeySourceFile::from_bootstrap(&bootstrap(api_level)))),
        key_source_matches: true,
    }
}

#[test]
fn request_wins_over_the_configuration() {
    let mut config = Config::defaults(core_defaults());
    config.chain.proxy_endpoint = Some("rpc://config".to_string());
    config.node.announce_alias = Some("config".to_string());
    config.node.announce_addresses = vec!["config:9735".to_string()];
    let empty = UnlockRequest {
        indexer_url: None,
        proxy_endpoint: None,
        announce_alias: None,
        announce_addresses: vec![],
    }
    .with_defaults(&config.chain, &config.node);
    assert_eq!(empty.proxy_endpoint.as_deref(), Some("rpc://config"));
    assert_eq!(empty.announce_alias.as_deref(), Some("config"));
    assert_eq!(empty.announce_addresses, vec!["config:9735".to_string()]);
    let full = UnlockRequest {
        indexer_url: Some("i".to_string()),
        proxy_endpoint: Some("rpc://request".to_string()),
        announce_alias: Some("request".to_string()),
        announce_addresses: vec!["request:9735".to_string()],
    }
    .with_defaults(&config.chain, &config.node);
    assert_eq!(full.indexer_url.as_deref(), Some("i"));
    assert_eq!(full.proxy_endpoint.as_deref(), Some("rpc://request"));
    assert_eq!(full.announce_alias.as_deref(), Some("request"));
    assert_eq!(full.announce_addresses, vec!["request:9735".to_string()]);
}

#[test]
fn external_signer_is_admitted_only_where_everything_matches() {
    assert_eq!(
        admit_external_signer(&found(2), &bootstrap(2), 2),
        Ok("02aa".to_string())
    );
    assert_eq!(
        admit_external_signer(&found(1), &bootstrap(1), 2),
        Err(APIError::ExternalSignerProtocolError(
            "unsupported external signer api_level 1, expected 2".to_string()
        ))
    );
    let mut signer = found(2);
    signer.attached = Err("offline".to_string());
    assert_eq!(
        admit_external_signer(&signer, &bootstrap(2), 2),
        Err(APIError::ExternalSignerProtocolError("offline".to_string()))
    );
    let mut signer = found(2);
    signer.key_source = Err("unreadable".to_string());
    assert_eq!(
        admit_external_signer(&signer, &bootstrap(2), 2),
        Err(APIError::ExternalSignerProtocolError(
            "unreadable".to_string()
        ))
    );
    let mut signer = found(2);
    signer.key_source = Ok(None);
    assert_eq!(
        admit_external_signer(&signer, &bootstrap(2), 2),
        Err(APIError::NotInitialized)
    );
    let mut signer = found(2);
    signer.key_source_matches = false;
    assert_eq!(
        admit_external_signer(&signer, &bootstrap(2), 2),
        Err(APIError::ExternalSignerMismatch)
    );
    let mut other = bootstrap(2);
    other.identity.master_fingerprint = "feedbeef".to_string();
    assert_eq!(
        admit_external_signer(&found(2), &other, 2),
        Err(APIError::ExternalSignerMismatch)
    );
}

#[test]
fn wallet_keys_follow_the_signing_mode() {
    let keys = wallet_keys(true, Some(&bootstrap(1)), None).unwrap();
    assert_eq!(keys.account_xpub_vanilla, "xv");
    assert_eq!(keys.account_xpub_colored, "xc");
    assert_eq!(keys.master_fingerprint, "deadbeef");
    assert_eq!(keys.mnemonic, None);
    assert!(matches!(
        wallet_keys(true, None, None),
        Err(APIError::ExternalSignerProtocolError(m))
            if m == "missing external bootstrap in external mode"
    ));
    assert!(matches!(
        wallet_keys(false, Some(&bootstrap(1)), None),
        Err(APIError::ExternalSignerProtocolError(m))
            if m == "missing internal mnemonic in internal mode"
    ));
    let own = WalletKeys {
        account_xpub_vanilla: "a".to_string(),
        account_xpub_colored: "b".to_string(),
        master_fingerprint: "c".to_string(),
        mnemonic: Some("words".to_string()),
    };
    assert_eq!(
        wallet_keys(false, None, Some(own)).unwrap().mnemonic,
        Some("words".to_string())
    );
}

#[test]
fn bitcoind_has_to_run_on_the_same_network() {
    for (network, chain) in [
        (BitcoinNetwork::Mainnet, "main"),
        (BitcoinNetwork::Testnet, "test"),
        (BitcoinNetwork::Testnet4, "testnet4"),
        (BitcoinNetwork::Regtest, "regtest"),
        (BitcoinNetwork::Signet, "signet"),
        (BitcoinNetwork::SignetCustom, "signet"),
    ] {
        assert_eq!(check_chain(chain.to_string(), network), Ok(()));
        assert_eq!(
            check_chain("other".to_string(), network),
            Err(APIError::NetworkMismatch("other".to_string(), network))
        );
    }
}

#[test]
fn proxy_defaults_to_the_public_one_but_on_regtest() {
    assert_eq!(default_proxy(BitcoinNetwork::Regtest, "p", "l"), "l");
    for network in [
        BitcoinNetwork::Mainnet,
        BitcoinNetwork::Testnet,
        BitcoinNetwork::Testnet4,
        BitcoinNetwork::Signet,
        BitcoinNetwork::SignetCustom,
    ] {
        assert_eq!(default_proxy(network, "p", "l"), "p");
    }
    assert_eq!(
        check_rgb_proxy_endpoint(false, Ok(()), Ok(())),
        Err(APIError::InvalidProxyEndpoint)
    );
    assert_eq!(
        check_rgb_proxy_endpoint(true, Err(APIError::LockedNode), Ok(())),
        Err(APIError::LockedNode)
    );
    assert_eq!(
        check_rgb_proxy_endpoint(true, Ok(()), Err(APIError::UnlockedNode)),
        Err(APIError::UnlockedNode)
    );
    assert_eq!(check_rgb_proxy_endpoint(true, Ok(()), Ok(())), Ok(()));
}

#[test]
fn chain_sync_gives_up_after_three_attempts() {
    let mut attempts = SYNC_ATTEMPTS;
    for _ in 0..2 {
        attempts = sync_failed(attempts, "down".to_string()).unwrap();
    }
    assert_eq!(
        sync_failed(attempts, "down".to_string()),
        Err(APIError::FailedBitcoindConnection("down".to_string()))
    );
    assert!(needs_indexer_check("a", "b"));
    assert!(!needs_indexer_check("a", "a"));
    assert_eq!(megabytes(15), 15 * 1024 * 1024);
}

#[test]
fn virtual_channels_need_private_forwarding() {
    let mut config = Config::defaults(core_defaults());
    config.channels.accept_forwards_to_priv_channels = false;
    config.channels.their_to_self_delay = 1_000;
    let plain = user_config(&config.channels, false);
    assert!(!plain.accept_forwards_to_priv_channels);
    assert!(plain.manually_accept_inbound_channels);
    assert!(plain.negotiate_anchors_zero_fee_htlc_tx);
    assert!(!plain.force_announced_channel_preference);
    assert_eq!(plain.their_to_self_delay, 1_000);
    assert_eq!(plain.channel_config, config.channels.channel_config());
    assert!(user_config(&config.channels, true).accept_forwards_to_priv_channels);
}

#[test]
fn unreadable_channel_state_is_never_passed_over() {
    assert_eq!(load_channel_manager(&StoredManager::NotFound), Ok(false));
    assert_eq!(load_channel_manager(&StoredManager::Read), Ok(true));
    assert_eq!(
        load_channel_manager(&StoredManager::Unreadable("InvalidValue".to_string())),
        Err(APIError::FailedLoadingChannelState(
            "cannot deserialize the channel manager (InvalidValue); the persisted channel state \
             is incomplete or incompatible, a missing channel monitor is the most common cause \
             (see the LDK logs)"
                .to_string()
        ))
    );
    assert_eq!(stored_or_new(Some(3), 0), 3);
    assert_eq!(stored_or_new(None, 0), 0);
}

#[test]
fn lost_channels_stop_a_restore() {
    let a = "aa".repeat(32);
    let b = "bb".repeat(32);
    let c = "cc".repeat(32);
    let monitor = |id: &String, open| StoredMonitor {
        channel_id: id.clone(),
        open,
    };
    let monitors = vec![monitor(&a, true), monitor(&b, true), monitor(&c, false)];
    let known = vec![a.clone()];
    match check_restored(4, &monitors, &known, false) {
        RestoreVerdict::Refuse(APIError::FailedVssInit(m)) => assert_eq!(
            m,
            format!(
                "VSS restore is inconsistent: the restored channel manager does not know \
                 channel(s) {:?} that the restored channel monitors consider open. Unlocking \
                 would force-close them. Pass --vss-allow-empty-restore to proceed anyway and \
                 accept the force-close.",
                vec![b.clone()]
            )
        ),
        other => panic!("unexpected {other:?}"),
    }
    assert!(matches!(
        check_restored(4, &monitors, &vec![], true),
        RestoreVerdict::CloseLost(ids) if ids == vec![a, b]
    ));
    assert!(matches!(
        check_restored(0, &monitors, &known, false),
        RestoreVerdict::Consistent
    ));
    assert!(matches!(
        check_restored(4, &vec![], &known, false),
        RestoreVerdict::Consistent
    ));
}

#[test]
fn missing_virtual_markers_are_recovered() {
    let sessions = vec!["aa".to_string(), "bb".to_string()];
    let stored = vec!["virtual_channel_aa".to_string()];
    assert_eq!(
        markers_to_recover(&sessions, &stored),
        vec!["virtual_channel_bb".to_string()]
    );
}

#[test]
fn settings_are_copied_in_order() {
    let sync = ConfigSync::sync_config_to_kvstore(2);
    let sync = sync.advance(ConfigSyncReply::Value(Ok(Some("v".to_string()))));
    assert!(matches!(sync.step, ConfigSyncStep::Write(0, ref v) if v == "v"));
    let sync = sync.advance(ConfigSyncReply::Written);
    assert!(matches!(sync.step, ConfigSyncStep::Read(1)));
    let done = sync.advance(ConfigSyncReply::Value(Ok(None)));
    assert!(matches!(done.step, ConfigSyncStep::Done(Ok(()))));
    let failed = ConfigSync::sync_config_to_kvstore(2)
        .advance(ConfigSyncReply::Value(Err(APIError::LockedNode)));
    assert!(matches!(
        failed.step,
        ConfigSyncStep::Done(Err(APIError::LockedNode))
    ));
}

fn report(funding_txid: &str) -> RgbFundingRecoveryState {
    RgbFundingRecoveryState {
        funding_txid: funding_txid.to_string(),
        temporary_channel_id: "01".repeat(32),
        final_channel_id: None,
        stage: RgbFundingRecoveryStage::Sender(RgbSenderFundingStage::Broadcasting),
        channel_is_durable: true,
        transaction_is_known: None,
        error: None,
        action: RgbFundingRecoveryAction::ResumeBroadcast,
    }
}

#[test]
fn startup_recovery_merges_both_sides() {
    let outcome = settle_recovery(vec![report("bb")], vec![report("aa")], true, None).unwrap();
    assert_eq!(outcome.unresolved, vec![report("aa"), report("bb")]);
    assert!(outcome.check_consistency);
    let owned = settle_recovery(vec![report("bb")], vec![], true, Some("bb")).unwrap();
    assert!(!owned.check_consistency);
    assert!(settle_recovery(vec![report("bb")], vec![], true, Some("cc")).is_err());
    assert!(settle_recovery(vec![report("bb")], vec![], false, Some("bb")).is_err());
}

#[test]
fn announced_name_is_padded_to_32_bytes() {
    assert_eq!(announced_name(None).unwrap(), [0; 32]);
    let mut expected = [0; 32];
    expected[..3].copy_from_slice(b"rln");
    assert_eq!(announced_name(Some("rln")).unwrap(), expected);
    assert_eq!(
        announced_name(Some(&"a".repeat(32))).unwrap(),
        [b'a'; 32]
    );
    // the limit counts bytes, not characters
    assert_eq!(
        announced_name(Some(&"\u{e9}".repeat(17))),
        Err(APIError::InvalidAnnounceAlias(
            "cannot be longer than 32 bytes".to_string()
        ))
    );
}

#[test]
fn bad_announce_addresses_are_named() {
    let check = |addresses: &[&str]| {
        check_announce_addresses(&addresses.iter().map(|a| a.to_string()).collect())
    };
    let refused = |address: &str| {
        Err(APIError::InvalidAnnounceAddresses(format!(
            "failed to parse address '{address}'"
        )))
    };
    assert_eq!(judge_address("any", true), Ok(()));
    assert_eq!(judge_address("any", false), refused("any"));
    let onion = format!("{}.onion:9735", "a".repeat(56));
    assert_eq!(check(&[]), Ok(()));
    assert_eq!(
        check(&["203.0.113.7:9735", "[2001:db8::1]:9735", "node.example.com:9735", &onion]),
        Ok(())
    );
    assert_eq!(
        check(&["203.0.113.7:9735", "no port", "203.0.113.7:port"]),
        refused("no port")
    );
    assert_eq!(check(&["203.0.113.7:port"]), refused("203.0.113.7:port"));
    assert_eq!(check(&["node.example.com:65536"]), refused("node.example.com:65536"));
    assert_eq!(check(&["short.onion:9735"]), refused("short.onion:9735"));
    assert_eq!(check(&[""]), refused(""));
    assert!(!should_announce(&vec![]));
    assert!(!should_announce(&vec![false]));
    assert!(should_announce(&vec![false, true]));
}

#[test]
fn every_known_address_of_a_lost_peer_is_tried() {
    let node = |n| NodeId {
        parity: 2,
        x: Id { hi: 0, lo: n },
    };
    let known = vec![
        (node(1), "a:1".to_string()),
        (node(2), "b:1".to_string()),
        (node(1), "c:1".to_string()),
    ];
    assert_eq!(addresses_to_try(&known, node(1), false), vec![0, 2]);
    assert_eq!(addresses_to_try(&known, node(3), false), Vec::<usize>::new());
    assert_eq!(addresses_to_try(&known, node(1), true), Vec::<usize>::new());
}
