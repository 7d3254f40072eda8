//! What the stages of a start find, and what comes of it.

use vstd::prelude::*;
use vstd::string::*;

use crate::error::APIError;
use crate::network::BitcoinNetwork;
use crate::start::{
    law_fetched_keys_stay_known, outcome_fits, run, start_next, StageOutcome, Start, StartStage,
};
use crate::startup::{
    admit_external_signer, are_wallet_keys, chain_name, check_chain, check_restored,
    check_rgb_proxy_endpoint, is_admission, is_loading, is_verdict, load_channel_manager,
    needs_indexer_check, resolve_indexer_url, wallet_keys, RestoreVerdict, SignerFindings,
    StartFailure, StoredManager, StoredMonitor, WalletKeys, SYNC_ATTEMPTS,
};
use crate::text::fixed_hex;
use crate::upkeep::{
    announced_name, check_announce_addresses, is_address_check, is_announced_name,
};
use crate::vss::{
    is_restore, is_vss_identity, restore_from_vss, vss_identity, BootstrapData, VssIdentity,
};

verus! {

/// Where the node's keys come from.
#[derive(Debug)]
pub enum KeySourceFindings {
    /// From its own mnemonic.
    Mnemonic,
    /// From an external signer, which has to be the expected one and to speak the supported level.
    External { found: SignerFindings, expected: BootstrapData, supported_api_level: u32 },
}

/// What is found of an RGB proxy that was asked for.
#[derive(Debug)]
pub struct ProxyFindings {
    pub transport_parses: bool,
    /// Whether the wallet has an endpoint for it.
    pub endpoint: Result<(), APIError>,
    /// Whether it answers.
    pub reached: Result<(), APIError>,
}

/// What is found of the chain's source.
#[derive(Debug)]
pub enum ChainFindings {
    /// Blocks come from bitcoind: the network that it says it runs on, or why it cannot be reached.
    Bitcoind { chain: Result<String, String>, network: BitcoinNetwork },
    /// Transactions come from an indexer.
    Indexer {
        ln_indexer_url: String,
        /// The indexer of the RGB wallet, which was checked before.
        indexer_url: String,
        /// What checking the indexer came to; it only counts for another one than the wallet's.
        checked: Result<(), APIError>,
        client: Result<(), String>,
        sync_client: Result<(), String>,
        best_block: Result<(), String>,
    },
}

/// What comes of opening the RGB wallet.
#[derive(Debug)]
pub enum WalletFindings {
    Opened,
    /// It cannot be opened or go online.
    Failed(APIError),
    /// Its backup cannot be configured.
    BackupFailed(String),
    /// The worker did not come to its end.
    TaskFailed(String),
}

/// What comes of recovering interrupted fundings.
#[derive(Debug)]
pub enum RecoveryFindings {
    Recovered,
    /// Reconciling, or the consistency check that was put off, failed.
    Failed(String),
    /// The worker did not come to its end.
    TaskFailed(String),
}

/// What a stage of the start finds.
#[derive(Debug)]
pub enum StageFindings {
    KeySource(KeySourceFindings),
    /// The seed of the node's mnemonic, or what the external signer says of itself.
    VssIdentity { seed: Option<Result<Vec<u8>, String>>, bootstrap: Option<BootstrapData> },
    VssStore(Result<(), String>),
    VssFence(Result<(), String>),
    VssRestore { has_local_data: bool, restored: Result<usize, String>, allow_empty_restore: bool },
    /// What copying the settings came to.
    ConfigSync(Result<(), APIError>),
    /// The indexers that the request and the configuration name, and what checking the one that is
    /// used came to.
    Indexer { request: Option<String>, config: Option<String>, checked: Result<(), APIError> },
    /// The proxy that was asked for, if one was.
    Proxy(Option<ProxyFindings>),
    /// What storing each setting came to, in order.
    SaveConfig(Vec<Result<(), APIError>>),
    ChainBackend(ChainFindings),
    ChannelManager(StoredManager),
    RestoreCheck { monitors: Vec<StoredMonitor>, known: Vec<String>, allow_empty_restore: bool },
    WalletKeys {
        external_signer_mode: bool,
        bootstrap: Option<BootstrapData>,
        own: Option<WalletKeys>,
    },
    /// What fetching the wallet came to.
    RgbRestore(Result<(), APIError>),
    RgbWallet(WalletFindings),
    SaveWalletConfig(Vec<Result<(), APIError>>),
    /// The errors of the attempts to catch up that failed, in order.
    ListenerSync(Vec<String>),
    FundingRecovery(RecoveryFindings),
    PreimageRoot(Result<(), String>),
    /// What catching up with the indexer came to; all is well without one.
    ChainSync(Result<(), String>),
    /// The addresses to announce, and the alias.
    Announcement { addresses: Vec<String>, alias: Option<String> },
    /// The stage cannot fail.
    Done,
}

/// Whether findings are those of a stage.
pub open spec fn findings_fit(stage: StartStage, findings: StageFindings) -> bool {
    match stage {
        StartStage::KeySource => findings is KeySource,
        StartStage::VssIdentity => findings is VssIdentity,
        StartStage::VssStore => findings is VssStore,
        StartStage::VssFence => findings is VssFence,
        StartStage::VssRestore => findings is VssRestore,
        StartStage::ConfigSync => findings is ConfigSync,
        StartStage::Indexer => findings is Indexer,
        StartStage::Proxy => findings is Proxy,
        StartStage::SaveConfig => findings is SaveConfig,
        StartStage::ChainBackend => findings is ChainBackend,
        StartStage::ChannelManager => findings is ChannelManager,
        StartStage::RestoreCheck => findings is RestoreCheck,
        StartStage::WalletKeys => findings is WalletKeys,
        StartStage::RgbRestore => findings is RgbRestore,
        StartStage::RgbWallet => findings is RgbWallet,
        StartStage::SaveWalletConfig => findings is SaveWalletConfig,
        StartStage::ListenerSync => findings is ListenerSync,
        StartStage::FundingRecovery => findings is FundingRecovery,
        StartStage::PreimageRoot => findings is PreimageRoot,
        StartStage::ChainSync => findings is ChainSync,
        StartStage::Announcement => findings is Announcement,
        StartStage::Reimport
        | StartStage::Peers
        | StartStage::Records
        | StartStage::Background
        | StartStage::DropManager
        | StartStage::ReleaseFence => findings is Done,
        StartStage::Running | StartStage::Failed => false,
    }
}

/// The outcome that a result stands for, its value aside.
pub open spec fn emptied<T>(r: Result<T, APIError>) -> StageOutcome {
    match r {
        Ok(_) => StageOutcome::Done,
        Err(e) => StageOutcome::Failed(e),
    }
}

/// What an optional value refers to.
pub open spec fn referred(bootstrap: Option<BootstrapData>) -> Option<&'static BootstrapData> {
    match bootstrap {
        Some(b) => Some(&b),
        None => None,
    }
}

/// The characters of an optional text.
pub open spec fn chars_of(s: Option<String>) -> Option<Seq<char>> {
    match s {
        Some(s) => Some(s@),
        None => None,
    }
}

/// The first failure of some results, if there is one.
pub open spec fn first_failure(results: Seq<Result<(), APIError>>) -> Result<(), APIError>
    decreases results.len(),
{
    if results.len() == 0 {
        Ok(())
    } else {
        match results[0] {
            Ok(_) => first_failure(results.drop_first()),
            Err(e) => Err(e),
        }
    }
}

/// What the source of the chain comes to.
pub open spec fn chain_outcome(found: ChainFindings) -> Result<(), APIError> {
    match found {
        ChainFindings::Bitcoind { chain, network } => match chain {
            Err(e) => Err(APIError::FailedBitcoindConnection(e)),
            Ok(chain) => if chain@ == chain_name(network) {
                Ok(())
            } else {
                Err(APIError::NetworkMismatch(chain, network))
            },
        },
        ChainFindings::Indexer {
            ln_indexer_url,
            indexer_url,
            checked,
            client,
            sync_client,
            best_block,
        } => if ln_indexer_url@ != indexer_url@ && checked is Err {
            checked
        } else {
            match (client, sync_client, best_block) {
                (Err(e), _, _) => Err(APIError::InvalidIndexer(e)),
                (_, Err(e), _) => Err(APIError::InvalidIndexer(e)),
                (_, _, Err(e)) => Err(APIError::InvalidIndexer(e)),
                _ => Ok(()),
            }
        },
    }
}

/// Whether a result is a failure to set up the remote store for a given reason, or none without one.
pub open spec fn vss_outcome(found: Result<(), String>) -> Result<(), APIError> {
    match found {
        Ok(_) => Ok(()),
        Err(e) => Err(APIError::FailedVssInit(e)),
    }
}

/// Whether an outcome is that of a stage, given what it found and how many keys of the node's state
/// were fetched before.
pub open spec fn is_outcome(
    findings: StageFindings,
    restored_keys: usize,
    r: StageOutcome,
) -> bool {
    match findings {
        StageFindings::KeySource(KeySourceFindings::Mnemonic) => r is Done,
        StageFindings::KeySource(
            KeySourceFindings::External { found, expected, supported_api_level },
        ) => exists|node_id: Result<String, APIError>| #[trigger]
            is_admission(found, expected, supported_api_level, node_id) && r == emptied(node_id),
        StageFindings::VssIdentity { seed, bootstrap } => exists|
            identity: Result<Option<VssIdentity>, APIError>,
        | #[trigger] is_vss_identity(true, seed, referred(bootstrap), identity) && r == emptied(identity),
        StageFindings::VssStore(opened) => r == emptied(vss_outcome(opened)),
        StageFindings::VssFence(taken) => r == emptied(vss_outcome(taken)),
        StageFindings::VssRestore { has_local_data, restored, allow_empty_restore } => exists|
            keys: Result<usize, APIError>,
        | #[trigger] is_restore(has_local_data, restored, allow_empty_restore, keys) && r == (match keys {
            Ok(n) => StageOutcome::Restored(n),
            Err(e) => StageOutcome::Failed(e),
        }),
        StageFindings::ConfigSync(copied) => r == emptied(copied),
        StageFindings::Indexer { request, config, checked } => r == emptied(
            if request is None && config is None {
                Err(APIError::MissingIndexerUrl)
            } else {
                checked
            },
        ),
        StageFindings::Proxy(None) => r is Done,
        StageFindings::Proxy(Some(proxy)) => r == emptied(
            if !proxy.transport_parses {
                Err(APIError::InvalidProxyEndpoint)
            } else if proxy.endpoint is Err {
                proxy.endpoint
            } else {
                proxy.reached
            },
        ),
        StageFindings::SaveConfig(saved) => r == emptied(first_failure(saved@)),
        StageFindings::ChainBackend(found) => r == emptied(chain_outcome(found)),
        StageFindings::ChannelManager(stored) => exists|restarts: Result<bool, APIError>| #[trigger]
            is_loading(stored, restarts) && r == emptied(restarts),
        StageFindings::RestoreCheck { monitors, known, allow_empty_restore } => exists|
            verdict: RestoreVerdict,
        | #[trigger] is_verdict(verdict, restored_keys, monitors@, known@, allow_empty_restore) && r
            == (match verdict {
            RestoreVerdict::Refuse(e) => StageOutcome::Failed(e),
            _ => StageOutcome::Done,
        }),
        StageFindings::WalletKeys { external_signer_mode, bootstrap, own } => exists|
            keys: Result<WalletKeys, APIError>,
        | #[trigger] are_wallet_keys(external_signer_mode, bootstrap, own, keys) && r == emptied(
            keys,
        ),
        StageFindings::RgbRestore(fetched) => r == emptied(fetched),
        StageFindings::RgbWallet(found) => match found {
            WalletFindings::Opened => r is Done,
            WalletFindings::Failed(e) => r == StageOutcome::Failed(e),
            WalletFindings::BackupFailed(e) => r matches StageOutcome::Failed(APIError::FailedVssInit(m)) && m@
                == "Failed to configure VSS backup for RGB wallet: "@ + e@,
            WalletFindings::TaskFailed(e) => r matches StageOutcome::Failed(APIError::Unexpected(m)) && m@
                == "rgb-lib wallet setup task failed: "@ + e@,
        },
        StageFindings::SaveWalletConfig(saved) => r == emptied(first_failure(saved@)),
        StageFindings::ListenerSync(errors) => r == (if errors@.len() < SYNC_ATTEMPTS {
            StageOutcome::Done
        } else {
            StageOutcome::Failed(APIError::FailedBitcoindConnection(errors@[SYNC_ATTEMPTS - 1]))
        }),
        StageFindings::FundingRecovery(found) => match found {
            RecoveryFindings::Recovered => r is Done,
            RecoveryFindings::Failed(e) => r matches StageOutcome::Failed(APIError::Unexpected(m)) && m@
                == "RGB funding recovery failed: "@ + e@,
            RecoveryFindings::TaskFailed(e) => r matches StageOutcome::Failed(APIError::Unexpected(m)) && m@
                == "RGB funding recovery task failed: "@ + e@,
        },
        StageFindings::PreimageRoot(derived) => r == (match derived {
            Ok(_) => StageOutcome::Done,
            Err(e) => StageOutcome::Failed(APIError::Unexpected(e)),
        }),
        StageFindings::ChainSync(synced) => r == (match synced {
            Ok(_) => StageOutcome::Done,
            Err(e) => StageOutcome::Failed(APIError::InvalidIndexer(e)),
        }),
        StageFindings::Announcement { addresses, alias } => exists|
            checked: Result<(), APIError>,
            name: Result<[u8; 32], APIError>,
        |
            #![trigger is_address_check(addresses@, checked), is_announced_name(
                chars_of(alias),
                name,
            )]
            is_address_check(addresses@, checked) && is_announced_name(chars_of(alias), name) && r
                == (if checked is Err {
                emptied(checked)
            } else {
                emptied(name)
            }),
        StageFindings::Done => r is Done,
    }
}

impl StageFindings {
    /// Channels are named by their IDs.
    pub open spec fn wf(self) -> bool {
        match self {
            StageFindings::RestoreCheck { monitors, .. } => forall|i: int|
                0 <= i < monitors@.len() ==> fixed_hex((#[trigger] monitors@[i]).channel_id@, 32),
            _ => true,
        }
    }

    /// The outcome of a stage, given what it found and how many keys were fetched before.
    #[verifier::rlimit(30)]
    pub fn outcome(self, restored_keys: usize) -> (r: StageOutcome)
        requires
            self.wf(),
        ensures
            is_outcome(self, restored_keys, r),
    {
        match self {
            StageFindings::KeySource(source) => key_source_outcome(source),
            StageFindings::VssIdentity { seed, bootstrap } => {
                let identity = vss_identity(true, seed, bootstrap.as_ref());
                assert(is_vss_identity(true, seed, referred(bootstrap), identity));
                without_value(identity)
            },
            StageFindings::VssStore(opened) => without_value(vss_failure(opened)),
            StageFindings::VssFence(taken) => without_value(vss_failure(taken)),
            StageFindings::VssRestore { has_local_data, restored, allow_empty_restore } => {
                let keys = restore_from_vss(has_local_data, restored, allow_empty_restore);
                assert(is_restore(has_local_data, restored, allow_empty_restore, keys));
                match keys {
                    Ok(n) => StageOutcome::Restored(n),
                    Err(e) => StageOutcome::Failed(e),
                }
            },
            StageFindings::ConfigSync(copied) => without_value(copied),
            StageFindings::Indexer { request, config, checked } => {
                let request = match &request {
                    Some(url) => Some(url.as_str()),
                    None => None,
                };
                let config = match &config {
                    Some(url) => Some(url.as_str()),
                    None => None,
                };
                match resolve_indexer_url(request, config) {
                    Ok(_) => without_value(checked),
                    Err(e) => StageOutcome::Failed(e),
                }
            },
            StageFindings::Proxy(None) => StageOutcome::Done,
            StageFindings::Proxy(Some(proxy)) => without_value(
                check_rgb_proxy_endpoint(proxy.transport_parses, proxy.endpoint, proxy.reached),
            ),
            StageFindings::SaveConfig(saved) => without_value(failure_among(saved)),
            StageFindings::ChainBackend(found) => without_value(chain_check(found)),
            StageFindings::ChannelManager(stored) => {
                let restarts = load_channel_manager(&stored);
                assert(is_loading(stored, restarts));
                without_value(restarts)
            },
            StageFindings::RestoreCheck { monitors, known, allow_empty_restore } => {
                let verdict = check_restored(restored_keys, &monitors, &known, allow_empty_restore);
                assert(is_verdict(verdict, restored_keys, monitors@, known@, allow_empty_restore));
                match verdict {
                    RestoreVerdict::Refuse(e) => StageOutcome::Failed(e),
                    _ => StageOutcome::Done,
                }
            },
            StageFindings::WalletKeys { external_signer_mode, bootstrap, own } => {
                let keys = wallet_keys(external_signer_mode, bootstrap.as_ref(), own);
                assert(are_wallet_keys(external_signer_mode, bootstrap, own, keys));
                without_value(keys)
            },
            StageFindings::RgbRestore(fetched) => without_value(fetched),
            StageFindings::RgbWallet(found) => match found {
                WalletFindings::Opened => StageOutcome::Done,
                WalletFindings::Failed(e) => StageOutcome::Failed(e),
                WalletFindings::BackupFailed(e) => StageOutcome::Failed(StartFailure::WalletBackup.report(e.as_str())),
                WalletFindings::TaskFailed(e) => StageOutcome::Failed(StartFailure::WalletTask.report(e.as_str())),
            },
            StageFindings::SaveWalletConfig(saved) => without_value(failure_among(saved)),
            StageFindings::ListenerSync(errors) => sync_outcome(errors),
            StageFindings::FundingRecovery(found) => match found {
                RecoveryFindings::Recovered => StageOutcome::Done,
                RecoveryFindings::Failed(e) => StageOutcome::Failed(StartFailure::Recovery.report(e.as_str())),
                RecoveryFindings::TaskFailed(e) => StageOutcome::Failed(StartFailure::RecoveryTask.report(e.as_str())),
            },
            StageFindings::PreimageRoot(derived) => match derived {
                Ok(_) => StageOutcome::Done,
                Err(e) => StageOutcome::Failed(APIError::Unexpected(e)),
            },
            StageFindings::ChainSync(synced) => match synced {
                Ok(_) => StageOutcome::Done,
                Err(e) => StageOutcome::Failed(APIError::InvalidIndexer(e)),
            },
            StageFindings::Announcement { addresses, alias } => {
                let checked = check_announce_addresses(&addresses);
                let name = announced_name(
                    match &alias {
                        Some(s) => Some(s.as_str()),
                        None => None,
                    },
                );
                assert(is_address_check(addresses@, checked));
                assert(is_announced_name(chars_of(alias), name));
                match checked {
                    Err(e) => StageOutcome::Failed(e),
                    Ok(_) => without_value(name),
                }
            },
            StageFindings::Done => StageOutcome::Done,
        }
    }
}

fn without_value<T>(r: Result<T, APIError>) -> (out: StageOutcome)
    ensures
        out == emptied(r),
{
    match r {
        Ok(_) => StageOutcome::Done,
        Err(e) => StageOutcome::Failed(e),
    }
}

fn vss_failure(found: Result<(), String>) -> (r: Result<(), APIError>)
    ensures
        r == vss_outcome(found),
{
    match found {
        Ok(_) => Ok(()),
        Err(e) => Err(APIError::FailedVssInit(e)),
    }
}

fn key_source_outcome(source: KeySourceFindings) -> (r: StageOutcome)
    ensures
        forall|keys: usize| #[trigger] is_outcome(StageFindings::KeySource(source), keys, r),
{
    match source {
        KeySourceFindings::Mnemonic => StageOutcome::Done,
        KeySourceFindings::External { found, expected, supported_api_level } => {
            let node_id = admit_external_signer(&found, &expected, supported_api_level);
            assert(is_admission(found, expected, supported_api_level, node_id));
            without_value(node_id)
        },
    }
}

fn failure_among(results: Vec<Result<(), APIError>>) -> (r: Result<(), APIError>)
    ensures
        r == first_failure(results@),
{
    let mut rest = results;
    while rest.len() > 0
        invariant
            first_failure(rest@) == first_failure(results@),
        decreases rest@.len(),
    {
        let ghost before = rest@;
        let first = rest.remove(0);
        assert(rest@ =~= before.drop_first());
        if first.is_err() {
            return first;
        }
    }
    Ok(())
}

fn sync_outcome(errors: Vec<String>) -> (r: StageOutcome)
    ensures
        forall|keys: usize| #[trigger] is_outcome(StageFindings::ListenerSync(errors), keys, r),
{
    let attempts: usize = SYNC_ATTEMPTS as usize;
    if errors.len() < attempts {
        return StageOutcome::Done;
    }
    let mut errors = errors;
    StageOutcome::Failed(APIError::FailedBitcoindConnection(errors.swap_remove(attempts - 1)))
}

fn chain_check(found: ChainFindings) -> (r: Result<(), APIError>)
    ensures
        r == chain_outcome(found),
{
    match found {
        ChainFindings::Bitcoind { chain, network } => match chain {
            Err(e) => Err(APIError::FailedBitcoindConnection(e)),
            Ok(chain) => match check_chain(chain, network) {
                Ok(_) => Ok(()),
                Err(e) => Err(e),
            },
        },
        ChainFindings::Indexer {
            ln_indexer_url,
            indexer_url,
            checked,
            client,
            sync_client,
            best_block,
        } => {
            if needs_indexer_check(ln_indexer_url.as_str(), indexer_url.as_str())
                && checked.is_err() {
                return checked;
            }
            match (client, sync_client, best_block) {
                (Err(e), _, _) => Err(APIError::InvalidIndexer(e)),
                (_, Err(e), _) => Err(APIError::InvalidIndexer(e)),
                (_, _, Err(e)) => Err(APIError::InvalidIndexer(e)),
                _ => Ok(()),
            }
        },
    }
}

impl Start {
    /// Takes what a stage found.
    pub fn found(self, findings: StageFindings) -> (r: Self)
        requires
            self.wf(),
            !self.is_over(),
            findings_fit(self.stage, findings),
            findings.wf(),
        ensures
            r.wf(),
            exists|outcome: StageOutcome| #[trigger]
                is_outcome(findings, self.restored_keys, outcome) && r == start_next(self, outcome),
    {
        let outcome = findings.outcome(self.restored_keys);
        assert(is_outcome(findings, self.restored_keys, outcome));
        assert(outcome_fits(self.stage, outcome));
        self.advance(outcome)
    }
}

/// A node whose external signer is not admitted does not start: nothing that comes after the keys is
/// reached.
pub proof fn law_unadmitted_signers_stop_the_start(
    start: Start,
    found: SignerFindings,
    expected: BootstrapData,
    supported_api_level: u32,
    outcome: StageOutcome,
)
    requires
        start.wf(),
        start.stage == StartStage::KeySource,
        is_outcome(
            StageFindings::KeySource(
                KeySourceFindings::External { found, expected, supported_api_level },
            ),
            start.restored_keys,
            outcome,
        ),
        found.attached is Err || found.bootstrap.api_level != supported_api_level
            || !(found.key_source matches Ok(Some(_))) || !found.key_source_matches
            || !crate::startup::same_signer(found.bootstrap, expected),
    ensures
        start_next(start, outcome).stage == StartStage::Failed,
{
}

/// A start that was refused because restored channels would be lost is refused again. Its manager was
/// dropped, so the next start finds none, fetches the state again, and comes to the same check, which
/// fails on the same state whatever the stages between came to.
pub proof fn law_refused_restores_are_refused_again(
    refused: Start,
    monitors: Vec<StoredMonitor>,
    known: Vec<String>,
    first: StageOutcome,
    again: Start,
    keys: usize,
    allow_empty_restore: bool,
    fetched: StageOutcome,
    between: Seq<StageOutcome>,
    second: StageOutcome,
)
    requires
        refused.wf(),
        refused.stage == StartStage::RestoreCheck,
        is_outcome(
            StageFindings::RestoreCheck { monitors, known, allow_empty_restore: false },
            refused.restored_keys,
            first,
        ),
        first is Failed,
        again.wf(),
        again.stage == StartStage::VssRestore,
        is_outcome(
            StageFindings::VssRestore { has_local_data: false, restored: Ok(keys), allow_empty_restore },
            again.restored_keys,
            fetched,
        ),
        keys > 0,
        run(start_next(again, fetched), between).stage == StartStage::RestoreCheck,
        is_outcome(
            StageFindings::RestoreCheck { monitors, known, allow_empty_restore: false },
            run(start_next(again, fetched), between).restored_keys,
            second,
        ),
    ensures
        start_next(refused, first).stage == StartStage::DropManager,
        second is Failed,
        start_next(run(start_next(again, fetched), between), second).stage
            == StartStage::DropManager,
{
    law_fetched_keys_stay_known(again, keys, between);
}

/// State that was not fetched at this start is not checked: only fetched channels can be refused.
pub proof fn law_only_fetched_state_is_refused(
    start: Start,
    monitors: Vec<StoredMonitor>,
    known: Vec<String>,
    allow_empty_restore: bool,
    outcome: StageOutcome,
)
    requires
        start.wf(),
        is_outcome(
            StageFindings::RestoreCheck { monitors, known, allow_empty_restore },
            start.restored_keys,
            outcome,
        ),
        outcome is Failed,
    ensures
        start.restored_keys > 0,
        !allow_empty_restore,
{
}

/// What a stage finds wrong fails it, with what was found; what it finds in order lets the start go on.
pub proof fn law_stages_pass_what_is_in_order(
    findings: StageFindings,
    restored_keys: usize,
    r: StageOutcome,
)
    requires
        is_outcome(findings, restored_keys, r),
    ensures
        findings matches StageFindings::VssStore(found) ==> (r is Failed <==> found is Err),
        findings matches StageFindings::VssFence(found) ==> (r is Failed <==> found is Err),
        findings matches StageFindings::ConfigSync(found) ==> (r is Failed <==> found is Err),
        findings matches StageFindings::RgbRestore(found) ==> (r is Failed <==> found is Err),
        findings matches StageFindings::PreimageRoot(found) ==> (r is Failed <==> found is Err),
        findings matches StageFindings::ChainSync(found) ==> (r is Failed <==> found is Err),
        findings matches StageFindings::RgbWallet(found) ==> (r is Failed <==> !(found is Opened)),
        findings matches StageFindings::FundingRecovery(found) ==> (r is Failed <==> !(
        found is Recovered)),
        findings matches StageFindings::ChannelManager(stored) ==> (r is Failed
            <==> stored is Unreadable),
        findings matches StageFindings::Indexer { request, config, checked } ==> (r is Failed <==> (
        request is None && config is None) || checked is Err),
        findings matches StageFindings::Proxy(Some(proxy)) ==> (r is Failed
            <==> !proxy.transport_parses || proxy.endpoint is Err || proxy.reached is Err),
        findings == StageFindings::Proxy(None) ==> r is Done,
        findings matches StageFindings::WalletKeys { external_signer_mode, bootstrap, own } ==> (
        r is Failed <==> if external_signer_mode {
            bootstrap is None
        } else {
            own is None
        }),
        findings matches StageFindings::ListenerSync(errors) ==> (r is Failed <==> errors@.len() >= 3),
        findings is Done ==> r is Done,
        findings == StageFindings::KeySource(KeySourceFindings::Mnemonic) ==> r is Done,
{
}

/// What a stage failed with is told as it was found.
pub proof fn law_failed_stages_say_why(
    findings: StageFindings,
    restored_keys: usize,
    e: APIError,
)
    requires
        is_outcome(findings, restored_keys, StageOutcome::Failed(e)),
    ensures
        (findings matches StageFindings::VssStore(Err(m))) ==> e == APIError::FailedVssInit(
            findings->VssStore_0->Err_0,
        ),
        (findings matches StageFindings::VssFence(Err(m))) ==> e == APIError::FailedVssInit(
            findings->VssFence_0->Err_0,
        ),
        (findings matches StageFindings::ConfigSync(Err(m))) ==> e == findings->ConfigSync_0->Err_0,
        (findings matches StageFindings::RgbRestore(Err(m))) ==> e == findings->RgbRestore_0->Err_0,
        (findings matches StageFindings::ChainSync(Err(m))) ==> e == APIError::InvalidIndexer(
            findings->ChainSync_0->Err_0,
        ),
        (findings matches StageFindings::PreimageRoot(Err(m))) ==> e == APIError::Unexpected(
            findings->PreimageRoot_0->Err_0,
        ),
        (findings matches StageFindings::RgbWallet(WalletFindings::Failed(m))) ==> e
            == findings->RgbWallet_0->Failed_0,
        (findings matches StageFindings::Indexer { request: None, config: None, .. }) ==> e
            == APIError::MissingIndexerUrl,
        (findings matches StageFindings::ListenerSync(errors)) ==> e
            == APIError::FailedBitcoindConnection(findings->ListenerSync_0@[2]),
{
}

/// A chain's source is accepted exactly where a bitcoind runs on the node's network, or an indexer that
/// was checked before, or is another one and checks out, answers with its clients and a best block.
pub proof fn law_chain_sources_are_checked(found: ChainFindings)
    ensures
        found matches ChainFindings::Bitcoind { chain, network } ==> (chain_outcome(found) is Ok <==> (
        chain matches Ok(name) && name@ == chain_name(network))),
        found matches ChainFindings::Indexer {
            ln_indexer_url,
            indexer_url,
            checked,
            client,
            sync_client,
            best_block,
        } ==> (chain_outcome(found) is Ok <==> client is Ok && sync_client is Ok && best_block is Ok
            && (ln_indexer_url@ == indexer_url@ || checked is Ok)),
{
}

/// Storing settings fails with the first setting that could not be stored, and only then.
pub proof fn law_the_first_unstored_setting_is_reported(
    results: Seq<Result<(), APIError>>,
    i: int,
)
    ensures
        (forall|k: int| 0 <= k < results.len() ==> #[trigger] results[k] is Ok) ==> first_failure(
            results,
        ) is Ok,
        0 <= i < results.len() && results[i] is Err && (forall|k: int|
            0 <= k < i ==> #[trigger] results[k] is Ok) ==> first_failure(results) == results[i],
    decreases results.len(),
{
    if results.len() > 0 && results[0] is Ok {
        let rest = results.drop_first();
        law_the_first_unstored_setting_is_reported(rest, i - 1);
        if forall|k: int| 0 <= k < results.len() ==> #[trigger] results[k] is Ok {
            assert forall|k: int| 0 <= k < rest.len() implies #[trigger] rest[k] is Ok by {
                assert(results[k + 1] is Ok);
            }
        }
        if 0 <= i < results.len() && results[i] is Err && (forall|k: int|
            0 <= k < i ==> #[trigger] results[k] is Ok) {
            assert forall|k: int| 0 <= k < i - 1 implies #[trigger] rest[k] is Ok by {
                assert(results[k + 1] is Ok);
            }
            assert(rest[i - 1] == results[i]);
        }
    }
}

/// State is fetched only where there is none, and how much was fetched is what the start remembers.
pub proof fn law_fetched_state_is_counted(
    has_local_data: bool,
    restored: Result<usize, String>,
    allow_empty_restore: bool,
    restored_keys: usize,
    r: StageOutcome,
)
    requires
        is_outcome(
            StageFindings::VssRestore { has_local_data, restored, allow_empty_restore },
            restored_keys,
            r,
        ),
    ensures
        r is Restored || r is Failed,
        has_local_data ==> r == StageOutcome::Restored(0),
        !has_local_data && restored is Ok ==> r == StageOutcome::Restored(restored->Ok_0),
        !has_local_data && restored is Err && !allow_empty_restore ==> r is Failed,
        !has_local_data && restored is Err && allow_empty_restore ==> r == StageOutcome::Restored(0),
{
}

/// An announcement passes exactly where every address is one and the alias fits; addresses are held
/// against their rule first.
pub proof fn law_announcements_are_checked(
    addresses: Vec<String>,
    alias: Option<String>,
    restored_keys: usize,
    r: StageOutcome,
)
    requires
        is_outcome(StageFindings::Announcement { addresses, alias }, restored_keys, r),
    ensures
        r is Done || r is Failed,
        r is Done <==> (forall|i: int|
            0 <= i < addresses@.len() ==> crate::upkeep::socket_address((#[trigger] addresses@[i])@))
            && (alias is Some ==> vstd::utf8::encode_utf8(alias->0@).len() <= 32),
        r matches StageOutcome::Failed(e) ==> (e is InvalidAnnounceAddresses <==> !forall|i: int|
            0 <= i < addresses@.len() ==> crate::upkeep::socket_address((#[trigger] addresses@[i])@))
            && (e is InvalidAnnounceAddresses || e is InvalidAnnounceAlias),
{
    let (checked, name) = choose|
        checked: Result<(), APIError>,
        name: Result<[u8; 32], APIError>,
    |
        #![trigger is_address_check(addresses@, checked), is_announced_name(chars_of(alias), name)]
        is_address_check(addresses@, checked) && is_announced_name(chars_of(alias), name) && r == (
        if checked is Err {
            emptied(checked)
        } else {
            emptied(name)
        });
    crate::upkeep::law_only_addresses_are_announced(addresses@, checked);
    crate::upkeep::law_names_are_whole_or_refused(chars_of(alias), name);
}

} // verus!
