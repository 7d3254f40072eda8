use rgb_lightning_node::error::APIError;
use rgb_lightning_node::network::BitcoinNetwork;
use rgb_lightning_node::stages::{
    ChainFindings, KeySourceFindings, ProxyFindings, RecoveryFindings, StageFindings,
    WalletFindings,
};
use rgb_lightning_node::start::{StageOutcome, Start, StartStage};
use rgb_lightning_node::startup::{SignerFindings, StoredManager, StoredMonitor, WalletKeys};
use rgb_lightning_node::vss::{BootstrapData, KeySourceFile, SignerIdentity};

fn bootstrap(api_level: u32) -> BootstrapData {
    BootstrapData {
        identity: SignerIdentity {
            node_id: "02aa".to_string(),
            account_xpub_vanilla: "xv".to_string(),
            account_xpub_colored: "xc".to_string(),
            master_fingerprint: "deadbeef".to_string(),
        },
        protocol_version: "1".to_string(),
        api_level,
    }
}

fn signer(api_level: u32) -> StageFindings {
    StageFindings::KeySource(KeySourceFindings::External {
        found: SignerFindings {
            attached: Ok(()),
            bootstrap: bootstrap(api_level),
            key_source: Ok(Some(KeySourceFile::from_bootstrap(&bootstrap(api_level)))),
            key_source_matches: true,
        },
        expected: bootstrap(api_level),
        supported_api_level: 2,
    })
}

fn text(s: &str) -> String {
    s.to_string()
}

fn unexpected(s: &str) -> Result<(), APIError> {
    Err(APIError::Unexpected(text(s)))
}

trait Told {
    /// What a stage comes to that does not depend on what was fetched before.
    fn told(self) -> Result<(), APIError>;
}

impl Told for StageFindings {
    fn told(self) -> Result<(), APIError> {
        match self.outcome(0) {
            StageOutcome::Done => Ok(()),
            StageOutcome::Failed(e) => Err(e),
            StageOutcome::Restored(n) => panic!("{n} keys were fetched"),
        }
    }
}

#[test]
fn key_sources_have_to_be_admitted() {
    assert_eq!(
        StageFindings::KeySource(KeySourceFindings::Mnemonic).told(),
        Ok(())
    );
    assert_eq!(signer(2).told(), Ok(()));
    let refused = Err(APIError::ExternalSignerProtocolError(text(
        "unsupported external signer api_level 1, expected 2",
    )));
    assert_eq!(signer(1).told(), refused);
    let start = Start::start_ldk(true).found(signer(1));
    assert_eq!(start.stage, StartStage::Failed);
    assert_eq!(start.error, refused.err());
    assert_eq!(
        Start::start_ldk(true).found(signer(2)).stage,
        StartStage::VssIdentity
    );
    assert_eq!(
        Start::start_ldk(false)
            .found(StageFindings::KeySource(KeySourceFindings::Mnemonic))
            .stage,
        StartStage::ConfigSync
    );
}

#[test]
fn remote_stores_that_fail_stop_the_start() {
    let failed = |s: &str| Err(APIError::FailedVssInit(text(s)));
    assert_eq!(
        StageFindings::VssIdentity {
            seed: Some(Ok(vec![7; 64])),
            bootstrap: None
        }
        .told(),
        Ok(())
    );
    assert_eq!(
        StageFindings::VssIdentity {
            seed: None,
            bootstrap: Some(bootstrap(2))
        }
        .told(),
        Ok(())
    );
    assert_eq!(
        StageFindings::VssIdentity {
            seed: None,
            bootstrap: None
        }
        .told(),
        failed("VSS identity: external-signer mode is missing bootstrap data")
    );
    assert_eq!(StageFindings::VssStore(Ok(())).told(), Ok(()));
    assert_eq!(
        StageFindings::VssStore(Err(text("down"))).told(),
        failed("down")
    );
    assert_eq!(
        StageFindings::VssFence(Err(text("taken"))).told(),
        failed("taken")
    );
    let restore = |has_local_data, restored: Result<usize, &str>, allow_empty_restore| {
        StageFindings::VssRestore {
            has_local_data,
            restored: restored.map_err(text),
            allow_empty_restore,
        }
        .outcome(0)
    };
    assert!(matches!(
        restore(false, Ok(4), false),
        StageOutcome::Restored(4)
    ));
    // what is stored locally is not fetched again
    assert!(matches!(
        restore(true, Ok(4), false),
        StageOutcome::Restored(0)
    ));
    assert!(matches!(
        restore(false, Err("down"), true),
        StageOutcome::Restored(0)
    ));
    match restore(false, Err("down"), false) {
        StageOutcome::Failed(APIError::FailedVssInit(m)) => assert_eq!(
            m,
            "VSS restore failed: down. Pass --vss-allow-empty-restore to start with an empty \
             local state instead (UNSAFE if you previously had active channels)."
        ),
        other => panic!("unexpected {other:?}"),
    }
}

#[test]
fn indexers_and_proxies_are_checked() {
    let indexer = |request: Option<&str>, config: Option<&str>, checked| {
        StageFindings::Indexer {
            request: request.map(text),
            config: config.map(text),
            checked,
        }
        .told()
    };
    let bad = || Err(APIError::InvalidIndexer(text("no answer")));
    assert_eq!(indexer(None, None, Ok(())), Err(APIError::MissingIndexerUrl));
    assert_eq!(indexer(None, None, bad()), Err(APIError::MissingIndexerUrl));
    assert_eq!(indexer(Some("i"), None, Ok(())), Ok(()));
    assert_eq!(indexer(None, Some("i"), bad()), bad());
    let proxy = |transport_parses, endpoint, reached| {
        StageFindings::Proxy(Some(ProxyFindings {
            transport_parses,
            endpoint,
            reached,
        }))
        .told()
    };
    assert_eq!(StageFindings::Proxy(None).told(), Ok(()));
    assert_eq!(proxy(true, Ok(()), Ok(())), Ok(()));
    assert_eq!(
        proxy(false, Ok(()), Ok(())),
        Err(APIError::InvalidProxyEndpoint)
    );
    assert_eq!(
        proxy(true, Err(APIError::InvalidProxyEndpoint), bad()),
        Err(APIError::InvalidProxyEndpoint)
    );
    assert_eq!(proxy(true, Ok(()), bad()), bad());
}

#[test]
fn chains_have_to_be_those_of_the_node() {
    let bitcoind = |chain: Result<&str, &str>| {
        StageFindings::ChainBackend(ChainFindings::Bitcoind {
            chain: chain.map(text).map_err(text),
            network: BitcoinNetwork::Mainnet,
        })
        .told()
    };
    assert_eq!(bitcoind(Ok("main")), Ok(()));
    assert_eq!(
        bitcoind(Ok("test")),
        Err(APIError::NetworkMismatch(
            text("test"),
            BitcoinNetwork::Mainnet
        ))
    );
    assert_eq!(
        bitcoind(Err("refused")),
        Err(APIError::FailedBitcoindConnection(text("refused")))
    );
    let indexer = |ln: &str, checked, client: Result<(), String>, best_block| {
        StageFindings::ChainBackend(ChainFindings::Indexer {
            ln_indexer_url: text(ln),
            indexer_url: text("wallet"),
            checked,
            client,
            sync_client: Ok(()),
            best_block,
        })
        .told()
    };
    let bad = || Err(APIError::InvalidIndexer(text("bad")));
    assert_eq!(indexer("wallet", bad(), Ok(()), Ok(())), Ok(()));
    assert_eq!(indexer("other", bad(), Ok(()), Ok(())), bad());
    assert_eq!(
        indexer("other", Ok(()), Err(text("first")), Err(text("last"))),
        Err(APIError::InvalidIndexer(text("first")))
    );
    assert_eq!(
        indexer("wallet", Ok(()), Ok(()), Err(text("last"))),
        Err(APIError::InvalidIndexer(text("last")))
    );
    assert_eq!(
        StageFindings::ChainSync(Err(text("late"))).told(),
        Err(APIError::InvalidIndexer(text("late")))
    );
    assert_eq!(StageFindings::ChainSync(Ok(())).told(), Ok(()));
    let sync = |errors: &[&str]| {
        StageFindings::ListenerSync(errors.iter().map(|e| text(e)).collect()).told()
    };
    assert_eq!(sync(&[]), Ok(()));
    assert_eq!(sync(&["a", "b"]), Ok(()));
    assert_eq!(
        sync(&["a", "b", "c"]),
        Err(APIError::FailedBitcoindConnection(text("c")))
    );
}

#[test]
fn stored_state_has_to_be_whole() {
    assert_eq!(
        StageFindings::ConfigSync(Err(APIError::LockedNode)).told(),
        Err(APIError::LockedNode)
    );
    assert_eq!(
        StageFindings::SaveConfig(vec![
            Ok(()),
            Err(APIError::LockedNode),
            Err(APIError::UnlockedNode)
        ])
        .told(),
        Err(APIError::LockedNode)
    );
    assert_eq!(StageFindings::SaveConfig(vec![Ok(())]).told(), Ok(()));
    assert_eq!(
        StageFindings::SaveWalletConfig(vec![Err(APIError::UnlockedNode)]).told(),
        Err(APIError::UnlockedNode)
    );
    assert_eq!(
        StageFindings::ChannelManager(StoredManager::NotFound).told(),
        Ok(())
    );
    assert!(matches!(
        StageFindings::ChannelManager(StoredManager::Unreadable(text("x"))).told(),
        Err(APIError::FailedLoadingChannelState(m))
            if m.starts_with("cannot deserialize the channel manager (x)")
    ));
}

fn lost_channel(allow_empty_restore: bool) -> StageFindings {
    StageFindings::RestoreCheck {
        monitors: vec![StoredMonitor {
            channel_id: "aa".repeat(32),
            open: true,
        }],
        known: vec![],
        allow_empty_restore,
    }
}

/// A start with a remote store that goes well up to the check of what it fetched.
fn fetched(has_local_data: bool) -> Start {
    let mut start = Start::start_ldk(true);
    while start.stage != StartStage::RestoreCheck {
        start = match start.stage {
            StartStage::VssRestore => start.found(StageFindings::VssRestore {
                has_local_data,
                restored: Ok(4),
                allow_empty_restore: false,
            }),
            _ => start.advance(StageOutcome::Done),
        };
    }
    start
}

#[test]
fn refused_restores_are_refused_again() {
    assert!(matches!(
        lost_channel(true).outcome(4),
        StageOutcome::Done
    ));
    assert!(matches!(
        lost_channel(false).outcome(0),
        StageOutcome::Done
    ));
    // the manager is dropped, so that the next start fetches it again
    for _ in 0..2 {
        let start = fetched(false);
        assert_eq!(start.restored_keys, 4);
        let start = start.found(lost_channel(false));
        assert_eq!(start.stage, StartStage::DropManager);
        assert!(matches!(
            &start.error,
            Some(APIError::FailedVssInit(m)) if m.starts_with("VSS restore is inconsistent")
        ));
        let start = start.found(StageFindings::Done).found(StageFindings::Done);
        assert_eq!(start.stage, StartStage::Failed);
        assert!(!start.fence_held);
    }
    // with a manager left behind, the channels would be closed
    assert_eq!(
        fetched(true).found(lost_channel(false)).stage,
        StartStage::WalletKeys
    );
}

#[test]
fn wallets_have_to_open_and_recover() {
    let keys = |external_signer_mode, bootstrap, own| {
        StageFindings::WalletKeys {
            external_signer_mode,
            bootstrap,
            own,
        }
        .told()
    };
    let own = WalletKeys {
        account_xpub_vanilla: text("xv"),
        account_xpub_colored: text("xc"),
        master_fingerprint: text("deadbeef"),
        mnemonic: Some(text("words")),
    };
    assert_eq!(keys(true, Some(bootstrap(2)), None), Ok(()));
    assert_eq!(keys(false, None, Some(own)), Ok(()));
    assert_eq!(
        keys(true, None, None),
        Err(APIError::ExternalSignerProtocolError(text(
            "missing external bootstrap in external mode"
        )))
    );
    assert_eq!(
        StageFindings::RgbRestore(Err(APIError::FailedVssInit(text("x")))).told(),
        Err(APIError::FailedVssInit(text("x")))
    );
    let wallet = |found| StageFindings::RgbWallet(found).told();
    assert_eq!(wallet(WalletFindings::Opened), Ok(()));
    assert_eq!(
        wallet(WalletFindings::Failed(APIError::MissingIndexerUrl)),
        Err(APIError::MissingIndexerUrl)
    );
    assert_eq!(
        wallet(WalletFindings::BackupFailed(text("down"))),
        Err(APIError::FailedVssInit(text(
            "Failed to configure VSS backup for RGB wallet: down"
        )))
    );
    assert_eq!(
        wallet(WalletFindings::TaskFailed(text("panic"))),
        unexpected("rgb-lib wallet setup task failed: panic")
    );
    let recovery = |found| StageFindings::FundingRecovery(found).told();
    assert_eq!(recovery(RecoveryFindings::Recovered), Ok(()));
    assert_eq!(
        recovery(RecoveryFindings::Failed(text("stock"))),
        unexpected("RGB funding recovery failed: stock")
    );
    assert_eq!(
        recovery(RecoveryFindings::TaskFailed(text("panic"))),
        unexpected("RGB funding recovery task failed: panic")
    );
    assert_eq!(
        StageFindings::PreimageRoot(Err(text("no key"))).told(),
        unexpected("no key")
    );
}

#[test]
fn announcements_have_to_be_valid() {
    let announce = |address: &str, alias: &str| {
        StageFindings::Announcement {
            addresses: vec![text("203.0.113.7:9735"), text(address)],
            alias: Some(text(alias)),
        }
        .told()
    };
    let long = "a".repeat(33);
    assert_eq!(announce("node.example.com:9735", "rln"), Ok(()));
    assert_eq!(
        announce("host", &long),
        Err(APIError::InvalidAnnounceAddresses(text(
            "failed to parse address 'host'"
        )))
    );
    assert_eq!(
        announce("node.example.com:9735", &long),
        Err(APIError::InvalidAnnounceAlias(text(
            "cannot be longer than 32 bytes"
        )))
    );
    assert_eq!(StageFindings::Done.told(), Ok(()));
}
