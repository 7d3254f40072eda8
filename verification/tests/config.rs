use rgb_lightning_node::config::{
    Config, CoreDefaults, DustExposure, TomlApi, TomlChannels, TomlConfig, TomlNode,
};
use rgb_lightning_node::cpfp::{
    attempt_key, child_of, constructing_outcome, unavailable_outcome, AttemptPlan,
    ChannelCloseBumpRecord, ChannelCloseEvent, CpfpState, PackageTx,
    MAX_TRACKED_CPFP_ATTEMPTS_PER_NODE,
};
use rgb_lightning_node::error::AppError;
use rgb_lightning_node::kv_store::{
    remove_with_replication_intent, write_with_replication_intent, KvStoreEntry, KvStoreKey,
    MemoryKvStore,
};

fn shared_defaults() -> CoreDefaults {
    CoreDefaults {
        fee_rate_sat_vb: 7,
        utxo_size_sat: 32_000,
        min_channel_confirmations: 6,
        virtual_htlc_min_msat: 1_000,
    }
}

fn empty() -> TomlConfig {
    TomlConfig {
        node: None,
        chain: None,
        gossip: None,
        vss: None,
        lsp: None,
        rgb: None,
        channels: None,
        payments: None,
        auth: None,
        api: None,
    }
}

fn no_channels() -> TomlChannels {
    TomlChannels {
        htlc_min_msat: None,
        virtual_htlc_min_msat: None,
        dust_limit_msat: None,
        open_min_sat: None,
        open_max_sat: None,
        open_min_rgb_amount: None,
        their_to_self_delay: None,
        accept_forwards_to_priv_channels: None,
        cltv_expiry_delta: None,
        our_to_self_delay: None,
        forwarding_fee_base_msat: None,
        forwarding_fee_proportional_millionths: None,
        max_dust_htlc_exposure_multiplier: None,
        max_dust_htlc_exposure_fixed_msat: None,
        max_inbound_htlc_value_in_flight_percent: None,
        our_max_accepted_htlcs: None,
        max_minimum_depth: None,
    }
}

#[test]
fn empty_file_yields_the_defaults() {
    let config = Config::from_toml(&empty(), shared_defaults()).unwrap();
    assert_eq!(config.rgb.fee_rate_sat_vb, 7);
    assert_eq!(config.channels.open_max_sat, 16_777_215);
    assert_eq!(config.channels.cltv_expiry_delta, 72);
    assert_eq!(config.channels.our_to_self_delay, 144);
    assert_eq!(config.channels.our_max_accepted_htlcs, 50);
    assert_eq!(config.channels.max_minimum_depth, 144);
    assert_eq!(
        config.channels.max_dust_htlc_exposure,
        DustExposure::FeeRateMultiplier(10_000)
    );
    assert_eq!(
        config.channels.open_rgb_min_sat(),
        config.channels.htlc_min_msat / 1_000 * 10 + 10
    );
    let channel = config.channels.channel_config();
    assert_eq!(channel.force_close_avoidance_max_fee_satoshis, 1_000);
    assert!(!channel.accept_underpaying_htlcs);
}

#[test]
fn file_values_override_the_defaults() {
    let mut toml = empty();
    toml.node = Some(TomlNode {
        announce_alias: Some("alias".to_string()),
        announce_addresses: Some(vec!["a:1".to_string()]),
        peer_reconnect_interval_secs: Some(9),
        announce_initial_delay_secs: None,
        announce_refresh_interval_secs: None,
    });
    toml.channels = Some(TomlChannels {
        max_dust_htlc_exposure_fixed_msat: Some(5),
        their_to_self_delay: Some(1),
        ..no_channels()
    });
    let config = Config::from_toml(&toml, shared_defaults()).unwrap();
    assert_eq!(config.node.announce_alias.as_deref(), Some("alias"));
    assert_eq!(config.node.announce_addresses, vec!["a:1".to_string()]);
    assert_eq!(config.node.peer_reconnect_interval_secs, 9);
    assert_eq!(config.node.announce_refresh_interval_secs, 3_600);
    assert_eq!(
        config.channels.max_dust_htlc_exposure,
        DustExposure::FixedLimitMsat(5)
    );
    assert_eq!(config.channels.their_to_self_delay, 1);
}

fn complaint(toml: TomlConfig) -> String {
    match Config::from_toml(&toml, shared_defaults()) {
        Err(AppError::InvalidConfig(m)) => m,
        other => panic!("unexpected {other:?}"),
    }
}

fn channels_complaint(channels: TomlChannels) -> String {
    let mut toml = empty();
    toml.channels = Some(channels);
    complaint(toml)
}

#[test]
fn values_that_the_node_cannot_work_with_are_named() {
    let mut toml = empty();
    toml.api = Some(TomlApi {
        default_page_size: Some(0),
    });
    assert!(complaint(toml).contains("api.default_page_size"));
    assert_eq!(
        channels_complaint(TomlChannels {
            open_max_sat: Some(16_777_216),
            ..no_channels()
        }),
        "channels.open_max_sat cannot exceed the protocol limit of 16777215 sats"
    );
    assert_eq!(
        channels_complaint(TomlChannels {
            open_min_sat: Some(900),
            open_max_sat: Some(800),
            ..no_channels()
        }),
        "channels.open_min_sat (900) cannot exceed channels.open_max_sat (800)"
    );
    assert_eq!(
        channels_complaint(TomlChannels {
            their_to_self_delay: Some(2_017),
            ..no_channels()
        }),
        "channels.their_to_self_delay must be between 1 and 2016"
    );
    assert_eq!(
        channels_complaint(TomlChannels {
            cltv_expiry_delta: Some(47),
            ..no_channels()
        }),
        "channels.cltv_expiry_delta must be at least 48"
    );
    assert_eq!(
        channels_complaint(TomlChannels {
            our_to_self_delay: Some(143),
            ..no_channels()
        }),
        "channels.our_to_self_delay must be between 144 and 2016"
    );
    assert_eq!(
        channels_complaint(TomlChannels {
            our_max_accepted_htlcs: Some(484),
            ..no_channels()
        }),
        "channels.our_max_accepted_htlcs must be between 1 and 483"
    );
    let mut toml = empty();
    toml.node = Some(TomlNode {
        announce_alias: Some("a".repeat(33)),
        announce_addresses: None,
        peer_reconnect_interval_secs: None,
        announce_initial_delay_secs: None,
        announce_refresh_interval_secs: None,
    });
    assert_eq!(
        complaint(toml),
        "announce_alias cannot be longer than 32 bytes"
    );
}

// ---------------------------------------------------------------------------------------------
// The store
// ---------------------------------------------------------------------------------------------

#[test]
fn store_keeps_one_value_per_key() {
    let mut store = MemoryKvStore::default();
    let missing = store.read("p", "s", "k").unwrap_err();
    assert!(missing.not_found);
    store.write("p", "s", "k", vec![1]);
    store.write("p", "s", "k", vec![2]);
    store.write("p", "t", "k2", vec![3]);
    assert_eq!(store.read("p", "s", "k").unwrap(), vec![2]);
    assert_eq!(store.list("p", "s"), vec!["k".to_string()]);
    store.remove("p", "s", "k");
    store.remove("p", "s", "k");
    assert!(store.read("p", "s", "k").is_err());
    assert_eq!(store.read("p", "t", "k2").unwrap(), vec![3]);
}

#[test]
fn values_and_replication_intents_are_committed_together() {
    let mut store = MemoryKvStore::default();
    let intent = || KvStoreEntry::new("queue", "", "k", vec![9]);
    store.commit(write_with_replication_intent(
        KvStoreEntry::new("p", "s", "k", vec![1]),
        intent(),
    ));
    assert_eq!(store.read("p", "s", "k").unwrap(), vec![1]);
    assert_eq!(store.read("queue", "", "k").unwrap(), vec![9]);
    store.remove("queue", "", "k");
    store.commit(remove_with_replication_intent(
        KvStoreKey::new("p", "s", "k"),
        intent(),
    ));
    assert!(store.read("p", "s", "k").is_err());
    assert_eq!(store.read("queue", "", "k").unwrap(), vec![9]);
}

// ---------------------------------------------------------------------------------------------
// Fee bumping
// ---------------------------------------------------------------------------------------------

fn event(channel: &str, target: u32) -> ChannelCloseEvent {
    ChannelCloseEvent {
        channel_id: channel.to_string(),
        counterparty_node_id: "peer".to_string(),
        claim_id: "claim".to_string(),
        commitment_txid: "commitment".to_string(),
        package_target_feerate_sat_per_1000_weight: target,
    }
}

fn register(state: &mut CpfpState, channel: &str, target: u32, now: u64) {
    let event = event(channel, target);
    let next = state.propose_registration(&event, now);
    state.register_event(&event, next, Ok(())).unwrap();
}

fn package() -> Vec<PackageTx> {
    [1, 2].iter().map(|n| PackageTx { raw: vec![*n] }).collect()
}

#[test]
fn attempts_are_registered_and_updated() {
    let mut state = CpfpState::load(vec![], true, "bitcoind");
    register(&mut state, "chan", 500, 10);
    let key = event("chan", 500).attempt();
    assert_eq!(key, "chan:commitment:claim");
    assert_eq!(key, attempt_key("chan", "commitment", "claim"));
    let record = state.record_for("chan").unwrap();
    assert_eq!((record.status.as_str(), record.created_at), ("pending", 10));
    register(&mut state, "chan", 700, 20);
    let record = state.record_for("chan").unwrap();
    assert_eq!((record.created_at, record.updated_at), (10, 20));
    assert_eq!(record.target_feerate_sat_per_1000_weight, 700);
    let next = state
        .propose_update(&key, "accepted", Some("child".to_string()), None, 30)
        .unwrap();
    state.update(next, Ok(())).unwrap();
    assert_eq!(state.record_for("chan").unwrap().status, "accepted");
    assert!(state.propose_update("other", "x", None, None, 30).is_none());
    assert_eq!(state.event_for("chan", "peer"), Some(event("chan", 700)));
    assert_eq!(state.event_for("chan", "stranger"), None);
    let stored: Vec<ChannelCloseBumpRecord> =
        state.records.iter().map(|(_, r)| r.clone()).collect();
    let reloaded = CpfpState::load(stored, true, "bitcoind");
    assert_eq!(reloaded.record_for("chan"), state.record_for("chan"));
    // events are not stored: after a start there is none to repeat
    assert_eq!(reloaded.event_for("chan", "peer"), None);
}

#[test]
fn registrations_that_cannot_be_written_change_nothing() {
    let mut state = CpfpState::load(vec![], true, "bitcoind");
    register(&mut state, "chan", 500, 10);
    let key = event("chan", 500).attempt();
    state.package_built(&key, 500, &package()).unwrap();

    let next = state.propose_registration(&event("chan", 700), 20);
    assert_eq!(
        state.register_event(&event("chan", 700), next, Err("disk full".to_string())),
        Err("disk full".to_string())
    );
    assert_eq!(state.record_for("chan").unwrap().updated_at, 10);
    assert_eq!(state.event_for("chan", "peer"), Some(event("chan", 500)));
    assert_eq!(state.pending_packages.len(), 1);

    let next = state
        .propose_update(&key, "accepted", None, None, 30)
        .unwrap();
    assert!(state.update(next, Err("disk full".to_string())).is_err());
    assert_eq!(state.record_for("chan").unwrap().status, "pending");
}

#[test]
fn events_and_packages_go_with_their_attempt() {
    let mut state = CpfpState::load(vec![], true, "bitcoind");
    register(&mut state, "chan", 500, 0);
    state
        .package_built(&event("chan", 500).attempt(), 500, &package())
        .unwrap();
    for i in 1..=63u64 {
        register(&mut state, &format!("chan{i}"), 500, i);
    }
    assert_eq!(state.events.len(), 64);
    assert_eq!(state.event_for("chan", "peer"), Some(event("chan", 500)));
    register(&mut state, "last", 500, 64);
    assert_eq!(state.event_for("chan", "peer"), None);
    assert!(state.pending_packages.is_empty());
    assert_eq!(state.events.len(), 64);
    assert_eq!(state.event_for("last", "peer"), Some(event("last", 500)));
}

#[test]
fn tracked_attempts_are_bounded() {
    let mut state = CpfpState::load(vec![], true, "bitcoind");
    for i in 0..70u64 {
        register(&mut state, &format!("chan{i}"), 500, i);
    }
    assert_eq!(state.records.len(), MAX_TRACKED_CPFP_ATTEMPTS_PER_NODE);
    assert!(state.record_for("chan69").is_some());
    assert!(state.record_for("chan0").is_none());
}

#[test]
fn refused_packages_are_submitted_again() {
    let mut state = CpfpState::load(vec![], true, "bitcoind");
    register(&mut state, "chan", 500, 10);
    let key = event("chan", 500).attempt();
    assert!(matches!(
        state.plan_attempt(&key, 500),
        AttemptPlan::Construct
    ));
    assert!(state.package_built(&key, 500, &vec![]).is_err());
    state.package_built(&key, 500, &package()).unwrap();
    // bytes that are no transaction have no ID
    assert_eq!(child_of(&package()), None);
    let refused = state.package_submitted(&key, None, Err("min fee".to_string()));
    assert_eq!(refused.status, "retryable_failure");
    assert_eq!(refused.error, Some("min fee".to_string()));
    assert!(matches!(
        state.plan_attempt(&key, 500),
        AttemptPlan::Resubmit(txs) if txs == package()
    ));
    assert!(matches!(
        state.plan_attempt(&key, 501),
        AttemptPlan::Construct
    ));
    assert_eq!(state.package_submitted(&key, None, Ok(())).status, "accepted");
    assert!(matches!(
        state.plan_attempt(&key, 500),
        AttemptPlan::Construct
    ));
    let alone = CpfpState::load(vec![], false, "esplora");
    assert!(matches!(
        alone.plan_attempt(&key, 500),
        AttemptPlan::BroadcastCommitment
    ));
    assert_eq!(unavailable_outcome().status, "unavailable");
    assert_eq!(constructing_outcome().status, "constructing");
}
