//! Decisions made while the node starts.

use vstd::prelude::*;
use vstd::string::*;

use crate::config::{ChainSection, ChannelConfig, ChannelsSection, NodeSection};
use crate::error::{is_internal, APIError, RgbLibError};
use crate::network::BitcoinNetwork;
use crate::recovery::{
    contains_id, listed, ordered, should_complete_deferred_rgb_consistency_check,
    sort_rgb_funding_recoveries, RgbFundingRecoveryState,
};
use crate::sender_funding::AssetSchema;
use crate::text::{
    copy, copy_all, copy_opt, decimal, fixed_hex, join, join2, join3, join4, joined, number, same,
    text, views,
};
use crate::virtual_channels::virtual_channel_key;
use crate::vss::{BootstrapData, KeySourceFile};

verus! {

// ---------------------------------------------------------------------------------------------
// What the request and the configuration ask for
// ---------------------------------------------------------------------------------------------

/// The indexer that a request and a configuration come to.
pub open spec fn indexer_of<'a>(request: Option<&'a str>, config: Option<&'a str>) -> Result<
    &'a str,
    APIError,
> {
    match (request, config) {
        (Some(url), _) => Ok(url),
        (None, Some(url)) => Ok(url),
        (None, None) => Err::<&'a str, APIError>(APIError::MissingIndexerUrl),
    }
}

/// The indexer to use: the one that the request names, else the one of the configuration. There is
/// no default.
pub fn resolve_indexer_url<'a>(request: Option<&'a str>, config: Option<&'a str>) -> (r: Result<
    &'a str,
    APIError,
>)
    ensures
        r == indexer_of(request, config),
{
    match request {
        Some(url) => Ok(url),
        None => match config {
            Some(url) => Ok(url),
            None => Err(APIError::MissingIndexerUrl),
        },
    }
}

/// What an unlock request may leave to the configuration.
#[derive(Debug)]
pub struct UnlockRequest {
    pub indexer_url: Option<String>,
    pub proxy_endpoint: Option<String>,
    pub announce_alias: Option<String>,
    pub announce_addresses: Vec<String>,
}

/// The first of two values that is there.
pub open spec fn first_of(a: Option<String>, b: Option<String>) -> Option<String> {
    if a is Some {
        a
    } else {
        b
    }
}

/// Whether a list of addresses is the one to announce.
pub open spec fn addresses_of(r: Seq<String>, request: Seq<String>, config: Seq<String>) -> bool {
    views(r) == views(if request.len() > 0 {
        request
    } else {
        config
    })
}

/// The request with what the configuration fills in.
pub open spec fn is_filled_in(
    job: UnlockRequest,
    chain: ChainSection,
    node: NodeSection,
    r: UnlockRequest,
) -> bool {
    &&& r.indexer_url == job.indexer_url
    &&& r.proxy_endpoint == first_of(job.proxy_endpoint, chain.proxy_endpoint)
    &&& r.announce_alias == first_of(job.announce_alias, node.announce_alias)
    &&& addresses_of(
                r.announce_addresses@,
                job.announce_addresses@,
                node.announce_addresses@,
            )
}

impl UnlockRequest {
    /// Fills in from the configuration what the request leaves out. The indexer is resolved apart.
    pub fn with_defaults(self, chain: &ChainSection, node: &NodeSection) -> (r: Self)
        ensures
            is_filled_in(self, *chain, *node, r),
    {
        let proxy_endpoint = match self.proxy_endpoint {
            Some(endpoint) => Some(endpoint),
            None => copy_opt(&chain.proxy_endpoint),
        };
        let announce_alias = match self.announce_alias {
            Some(alias) => Some(alias),
            None => copy_opt(&node.announce_alias),
        };
        let announce_addresses = if self.announce_addresses.len() == 0 {
            copy_all(&node.announce_addresses)
        } else {
            self.announce_addresses
        };
        UnlockRequest {
            indexer_url: self.indexer_url,
            proxy_endpoint,
            announce_alias,
            announce_addresses,
        }
    }
}

/// The RGB proxy of a network where none was asked for: the local one on regtest, else the public
/// one.
pub fn default_proxy<'a>(network: BitcoinNetwork, public: &'a str, local: &'a str) -> (r: &'a str)
    ensures
        r == (if network == BitcoinNetwork::Regtest {
            local
        } else {
            public
        }),
{
    match network {
        BitcoinNetwork::Regtest => local,
        _ => public,
    }
}

/// What the check of a proxy comes to.
pub open spec fn is_proxy_checked(
    transport_parses: bool,
    endpoint: Result<(), APIError>,
    reached: Result<(), APIError>,
    r: Result<(), APIError>,
) -> bool {
    &&& r == (if !transport_parses {
            Err(APIError::InvalidProxyEndpoint)
        } else if endpoint is Err {
            endpoint
        } else {
            reached
        })
}

/// Refuses an RGB proxy that cannot be used: one whose transport cannot be parsed, one that the wallet
/// has no endpoint for, or one that does not answer.
pub fn check_rgb_proxy_endpoint(
    transport_parses: bool,
    endpoint: Result<(), APIError>,
    reached: Result<(), APIError>,
) -> (r: Result<(), APIError>)
    ensures
        is_proxy_checked(transport_parses, endpoint, reached, r),
{
    if !transport_parses {
        return Err(APIError::InvalidProxyEndpoint);
    }
    endpoint?;
    reached
}

/// Whether the indexer that Lightning syncs with has to be checked: it has been, where it is the one
/// of the RGB wallet.
pub fn needs_indexer_check(ln_indexer_url: &str, indexer_url: &str) -> (r: bool)
    ensures
        r == (ln_indexer_url@ != indexer_url@),
{
    !same(ln_indexer_url, indexer_url)
}

/// The name that bitcoind has for a network.
pub open spec fn chain_name(network: BitcoinNetwork) -> Seq<char> {
    match network {
        BitcoinNetwork::Mainnet => "main"@,
        BitcoinNetwork::Testnet => "test"@,
        BitcoinNetwork::Testnet4 => "testnet4"@,
        BitcoinNetwork::Regtest => "regtest"@,
        BitcoinNetwork::Signet | BitcoinNetwork::SignetCustom => "signet"@,
    }
}

/// What the check of a bitcoind comes to.
pub open spec fn is_chain_checked(
    chain: String,
    network: BitcoinNetwork,
    r: Result<(), APIError>,
) -> bool {
    &&& if chain@ == chain_name(network) {
            r is Ok
        } else {
            r == Err::<(), APIError>(APIError::NetworkMismatch(chain, network))
        }
}

/// Refuses a bitcoind that runs on another network.
pub fn check_chain(chain: String, network: BitcoinNetwork) -> (r: Result<(), APIError>)
    ensures
        is_chain_checked(chain, network, r),
{
    let expected = match network {
        BitcoinNetwork::Mainnet => "main",
        BitcoinNetwork::Testnet => "test",
        BitcoinNetwork::Testnet4 => "testnet4",
        BitcoinNetwork::Regtest => "regtest",
        BitcoinNetwork::Signet | BitcoinNetwork::SignetCustom => "signet",
    };
    if same(chain.as_str(), expected) {
        Ok(())
    } else {
        Err(APIError::NetworkMismatch(chain, network))
    }
}

/// What a failed attempt to catch up comes to.
pub open spec fn is_sync_failed(
    attempts: u8,
    error: String,
    r: Result<u8, APIError>,
) -> bool {
    &&& r == (if attempts == 1 {
            Err(APIError::FailedBitcoindConnection(error))
        } else {
            Ok::<u8, APIError>((attempts - 1) as u8)
        })
}

/// Gives up on catching up with the chain after as many failures as there were attempts; tells how
/// many attempts are left otherwise.
pub fn sync_failed(attempts: u8, error: String) -> (r: Result<u8, APIError>)
    requires
        attempts > 0,
    ensures
        is_sync_failed(attempts, error, r),
{
    if attempts == 1 {
        Err(APIError::FailedBitcoindConnection(error))
    } else {
        Ok(attempts - 1)
    }
}

/// How often catching up with the chain is attempted.
pub const SYNC_ATTEMPTS: u8 = 3;

/// Megabytes in bytes.
pub fn megabytes(mb: u64) -> (r: u64)
    requires
        mb * 1048576 <= u64::MAX,
    ensures
        r == mb * 1048576,
{
    mb * 1048576
}

// ---------------------------------------------------------------------------------------------
// Keys
// ---------------------------------------------------------------------------------------------

/// Whether two signers say the same of themselves.
pub open spec fn same_signer(a: BootstrapData, b: BootstrapData) -> bool {
    &&& a.identity.node_id@ == b.identity.node_id@
    &&& a.identity.account_xpub_vanilla@ == b.identity.account_xpub_vanilla@
    &&& a.identity.account_xpub_colored@ == b.identity.account_xpub_colored@
    &&& a.identity.master_fingerprint@ == b.identity.master_fingerprint@
    &&& a.protocol_version@ == b.protocol_version@
    &&& a.api_level == b.api_level
}

fn is_same_signer(a: &BootstrapData, b: &BootstrapData) -> (r: bool)
    ensures
        r == same_signer(*a, *b),
{
    same(a.identity.node_id.as_str(), b.identity.node_id.as_str()) && same(
        a.identity.account_xpub_vanilla.as_str(),
        b.identity.account_xpub_vanilla.as_str(),
    ) && same(
        a.identity.account_xpub_colored.as_str(),
        b.identity.account_xpub_colored.as_str(),
    ) && same(
        a.identity.master_fingerprint.as_str(),
        b.identity.master_fingerprint.as_str(),
    ) && same(a.protocol_version.as_str(), b.protocol_version.as_str()) && a.api_level
        == b.api_level
}

/// What the node finds when it looks an external signer up.
#[derive(Debug)]
pub struct SignerFindings {
    /// Whether the transport could be taken over, with the error where not.
    pub attached: Result<(), String>,
    /// What the signer says of itself.
    pub bootstrap: BootstrapData,
    /// What is kept of the signer on disk.
    pub key_source: Result<Option<KeySourceFile>, String>,
    /// Whether what is kept fits what the signer says.
    pub key_source_matches: bool,
}

/// Whether a result is a protocol error with the given text.
pub open spec fn breaks_protocol<T>(r: Result<T, APIError>, message: Seq<char>) -> bool {
    r matches Err(APIError::ExternalSignerProtocolError(m)) && m@ == message
}

/// Whether a result is what looking an external signer up comes to.
pub open spec fn is_admission(
    found: SignerFindings,
    expected: BootstrapData,
    supported_api_level: u32,
    r: Result<String, APIError>,
) -> bool {
    match found.attached {
        Err(e) => breaks_protocol(r, e@),
        Ok(_) => if found.bootstrap.api_level != supported_api_level {
            breaks_protocol(
                r,
                "unsupported external signer api_level "@ + decimal(
                    found.bootstrap.api_level as nat,
                ) + ", expected "@ + decimal(supported_api_level as nat),
            )
        } else {
            match found.key_source {
                Err(e) => breaks_protocol(r, e@),
                Ok(None) => r == Err::<String, APIError>(APIError::NotInitialized),
                Ok(Some(_)) => if !found.key_source_matches || !same_signer(
                    found.bootstrap,
                    expected,
                ) {
                    r == Err::<String, APIError>(APIError::ExternalSignerMismatch)
                } else {
                    r == Ok::<String, APIError>(found.bootstrap.identity.node_id)
                },
            }
        },
    }
}

/// Admits an external signer: it has to speak the supported level, to be the one that the node was
/// set up with, and to be the one that the request means. The result is the identity of the node.
pub fn admit_external_signer(
    found: &SignerFindings,
    expected: &BootstrapData,
    supported_api_level: u32,
) -> (r: Result<String, APIError>)
    ensures
        is_admission(*found, *expected, supported_api_level, r),
{
    if let Err(e) = &found.attached {
        return Err(APIError::ExternalSignerProtocolError(copy(e)));
    }
    if found.bootstrap.api_level != supported_api_level {
        return Err(
            APIError::ExternalSignerProtocolError(
                join4(
                    "unsupported external signer api_level ",
                    number(found.bootstrap.api_level as u64).as_str(),
                    ", expected ",
                    number(supported_api_level as u64).as_str(),
                ),
            ),
        );
    }
    match &found.key_source {
        Err(e) => Err(APIError::ExternalSignerProtocolError(copy(e))),
        Ok(None) => Err(APIError::NotInitialized),
        Ok(Some(_)) => if !found.key_source_matches || !is_same_signer(&found.bootstrap, expected) {
            Err(APIError::ExternalSignerMismatch)
        } else {
            Ok(copy(&found.bootstrap.identity.node_id))
        },
    }
}

/// The keys that the RGB wallet is made with.
#[derive(Debug)]
pub struct WalletKeys {
    pub account_xpub_vanilla: String,
    pub account_xpub_colored: String,
    pub master_fingerprint: String,
    /// Only where the node holds its own seed.
    pub mnemonic: Option<String>,
}

/// Whether a result is the keys for the RGB wallet, or says what they lack.
pub open spec fn are_wallet_keys(
    external_signer_mode: bool,
    bootstrap: Option<BootstrapData>,
    own: Option<WalletKeys>,
    r: Result<WalletKeys, APIError>,
) -> bool {
    if external_signer_mode {
        match bootstrap {
            None => breaks_protocol(r, "missing external bootstrap in external mode"@),
            Some(b) => r == Ok::<WalletKeys, APIError>(
                WalletKeys {
                    account_xpub_vanilla: b.identity.account_xpub_vanilla,
                    account_xpub_colored: b.identity.account_xpub_colored,
                    master_fingerprint: b.identity.master_fingerprint,
                    mnemonic: None,
                },
            ),
        }
    } else {
        match own {
            None => breaks_protocol(r, "missing internal mnemonic in internal mode"@),
            Some(keys) => r == Ok::<WalletKeys, APIError>(keys),
        }
    }
}

/// The keys for the RGB wallet: the external signer's in external mode, else those of the node's own
/// mnemonic.
pub fn wallet_keys(
    external_signer_mode: bool,
    bootstrap: Option<&BootstrapData>,
    own: Option<WalletKeys>,
) -> (r: Result<WalletKeys, APIError>)
    ensures
        are_wallet_keys(
            external_signer_mode,
            match bootstrap {
                Some(b) => Some(*b),
                None => None,
            },
            own,
            r,
        ),
{
    if external_signer_mode {
        match bootstrap {
            Some(b) => Ok(
                WalletKeys {
                    account_xpub_vanilla: copy(&b.identity.account_xpub_vanilla),
                    account_xpub_colored: copy(&b.identity.account_xpub_colored),
                    master_fingerprint: copy(&b.identity.master_fingerprint),
                    mnemonic: None,
                },
            ),
            None => Err(
                APIError::ExternalSignerProtocolError(
                    text("missing external bootstrap in external mode"),
                ),
            ),
        }
    } else {
        match own {
            Some(keys) => Ok(keys),
            None => Err(
                APIError::ExternalSignerProtocolError(
                    text("missing internal mnemonic in internal mode"),
                ),
            ),
        }
    }
}

/// The kinds of assets that a wallet supports.
pub open spec fn are_supported(
    bitcoin_network: BitcoinNetwork,
    r: Vec<AssetSchema>,
) -> bool {
    r@ =~= (if bitcoin_network == BitcoinNetwork::Mainnet {
        seq![AssetSchema::Nia, AssetSchema::Cfa, AssetSchema::Uda]
    } else {
        seq![AssetSchema::Nia, AssetSchema::Cfa, AssetSchema::Uda, AssetSchema::Ifa]
    })
}

/// The kinds of assets that a wallet supports: inflatable ones on every network but mainnet.
pub fn supported_asset_schemas(bitcoin_network: BitcoinNetwork) -> (r: Vec<AssetSchema>)
    ensures
        are_supported(bitcoin_network, r),
{
    let mut schemas: Vec<AssetSchema> = Vec::new();
    schemas.push(AssetSchema::Nia);
    schemas.push(AssetSchema::Cfa);
    schemas.push(AssetSchema::Uda);
    if bitcoin_network != BitcoinNetwork::Mainnet {
        schemas.push(AssetSchema::Ifa);
    }
    schemas
}

// ---------------------------------------------------------------------------------------------
// Channel settings
// ---------------------------------------------------------------------------------------------

/// What the node sets of the Lightning library's settings; the rest keeps the library's defaults.
#[derive(Clone, Copy, Debug, PartialEq, Eq, Structural)]
pub struct UserConfig {
    pub force_announced_channel_preference: bool,
    pub their_to_self_delay: u16,
    pub max_minimum_depth: u32,
    pub negotiate_anchors_zero_fee_htlc_tx: bool,
    pub our_to_self_delay: u16,
    pub max_inbound_htlc_value_in_flight_percent_of_channel: u8,
    pub our_max_accepted_htlcs: u16,
    pub channel_config: ChannelConfig,
    pub accept_forwards_to_priv_channels: bool,
    pub manually_accept_inbound_channels: bool,
}

/// The settings of the channel manager.
pub open spec fn is_user_config(
    channels: ChannelsSection,
    enable_virtual_channels: bool,
    r: UserConfig,
) -> bool {
    &&& r == (UserConfig {
            force_announced_channel_preference: false,
            their_to_self_delay: channels.their_to_self_delay,
            max_minimum_depth: channels.max_minimum_depth,
            negotiate_anchors_zero_fee_htlc_tx: true,
            our_to_self_delay: channels.our_to_self_delay,
            max_inbound_htlc_value_in_flight_percent_of_channel: channels.max_inbound_htlc_value_in_flight_percent,
            our_max_accepted_htlcs: channels.our_max_accepted_htlcs,
            channel_config: channels.config_of(),
            accept_forwards_to_priv_channels: channels.accept_forwards_to_priv_channels
                || enable_virtual_channels,
            manually_accept_inbound_channels: true,
        })
}

/// The settings of the channel manager. Virtual channels are not announced, so they need forwarding
/// to private channels.
pub fn user_config(channels: &ChannelsSection, enable_virtual_channels: bool) -> (r: UserConfig)
    ensures
        is_user_config(*channels, enable_virtual_channels, r),
{
    UserConfig {
        force_announced_channel_preference: false,
        their_to_self_delay: channels.their_to_self_delay,
        max_minimum_depth: channels.max_minimum_depth,
        negotiate_anchors_zero_fee_htlc_tx: true,
        our_to_self_delay: channels.our_to_self_delay,
        max_inbound_htlc_value_in_flight_percent_of_channel: channels.max_inbound_htlc_value_in_flight_percent,
        our_max_accepted_htlcs: channels.our_max_accepted_htlcs,
        channel_config: channels.channel_config(),
        accept_forwards_to_priv_channels: channels.accept_forwards_to_priv_channels
            || enable_virtual_channels,
        manually_accept_inbound_channels: true,
    }
}

// ---------------------------------------------------------------------------------------------
// Settings for the Lightning library
// ---------------------------------------------------------------------------------------------

/// What is to be done next to copy the stored settings.
#[derive(Debug)]
pub enum ConfigSyncStep {
    /// Read the setting at a place in the list.
    Read(usize),
    /// Write its value to the store that the Lightning library reads.
    Write(usize, String),
    Done(Result<(), APIError>),
}

/// What came of a step.
#[derive(Debug)]
pub enum ConfigSyncReply {
    Value(Result<Option<String>, APIError>),
    Written,
}

/// Copying the stored settings, of which there is a number, in order.
#[derive(Debug)]
pub struct ConfigSync {
    pub step: ConfigSyncStep,
    pub count: usize,
}

/// Whether a reply answers a step.
pub open spec fn config_sync_fits(step: ConfigSyncStep, reply: ConfigSyncReply) -> bool {
    match step {
        ConfigSyncStep::Read(_) => reply is Value,
        ConfigSyncStep::Write(_, _) => reply is Written,
        ConfigSyncStep::Done(_) => false,
    }
}

/// The step for the setting at a place.
pub open spec fn read_from(i: int, count: usize) -> ConfigSyncStep {
    if i < count {
        ConfigSyncStep::Read(i as usize)
    } else {
        ConfigSyncStep::Done(Ok(()))
    }
}

/// What a reply makes of the copying.
pub open spec fn config_sync_next(job: ConfigSync, reply: ConfigSyncReply) -> ConfigSync {
    let step = match (job.step, reply) {
        (ConfigSyncStep::Read(i), ConfigSyncReply::Value(Ok(Some(value)))) => ConfigSyncStep::Write(
            i,
            value,
        ),
        (ConfigSyncStep::Read(i), ConfigSyncReply::Value(Ok(None))) => read_from(i + 1, job.count),
        (ConfigSyncStep::Read(i), ConfigSyncReply::Value(Err(e))) => ConfigSyncStep::Done(Err(e)),
        (ConfigSyncStep::Write(i, _), _) => read_from(i + 1, job.count),
        (step, _) => step,
    };
    ConfigSync { step, count: job.count }
}

fn read_step(i: usize, count: usize) -> (r: ConfigSyncStep)
    ensures
        r == read_from(i as int, count),
{
    if i < count {
        ConfigSyncStep::Read(i)
    } else {
        ConfigSyncStep::Done(Ok(()))
    }
}

impl ConfigSync {
    /// A setting that is read or written is one of the list.
    pub open spec fn wf(self) -> bool {
        match self.step {
            ConfigSyncStep::Read(i) => i < self.count,
            ConfigSyncStep::Write(i, _) => i < self.count,
            ConfigSyncStep::Done(_) => true,
        }
    }

    /// Starts copying.
    pub fn sync_config_to_kvstore(count: usize) -> (r: Self)
        ensures
            r.wf(),
            r == (ConfigSync { step: read_from(0, count), count }),
    {
        ConfigSync { step: read_step(0, count), count }
    }

    /// Takes the reply to the step that was done. A setting without a value is passed over, one that
    /// cannot be read ends the copying.
    pub fn advance(self, reply: ConfigSyncReply) -> (r: Self)
        requires
            self.wf(),
            config_sync_fits(self.step, reply),
        ensures
            r.wf(),
            r == config_sync_next(self, reply),
    {
        let count = self.count;
        let step = match (self.step, reply) {
            (
                ConfigSyncStep::Read(i),
                ConfigSyncReply::Value(Ok(Some(value))),
            ) => ConfigSyncStep::Write(i, value),
            (ConfigSyncStep::Read(i), ConfigSyncReply::Value(Ok(None))) => read_step(i + 1, count),
            (ConfigSyncStep::Read(_), ConfigSyncReply::Value(Err(e))) => ConfigSyncStep::Done(
                Err(e),
            ),
            (ConfigSyncStep::Write(i, _), _) => read_step(i + 1, count),
            (step, _) => step,
        };
        ConfigSync { step, count }
    }
}

// ---------------------------------------------------------------------------------------------
// Stored state
// ---------------------------------------------------------------------------------------------

/// A stored collection, or an empty one where there is none or it cannot be parsed.
pub fn stored_or_new<T>(stored: Option<T>, empty: T) -> (r: T)
    ensures
        r == (match stored {
            Some(t) => t,
            None => empty,
        }),
{
    match stored {
        Some(t) => t,
        None => empty,
    }
}

/// What became of the stored channel manager.
#[derive(Debug)]
pub enum StoredManager {
    /// None is stored: the node is fresh.
    NotFound,
    Read,
    /// It cannot be parsed, with the reason.
    Unreadable(String),
}

/// Whether a result is what the stored channel manager comes to.
pub open spec fn is_loading(stored: StoredManager, r: Result<bool, APIError>) -> bool {
    match stored {
        StoredManager::NotFound => r == Ok::<bool, APIError>(false),
        StoredManager::Read => r == Ok::<bool, APIError>(true),
        StoredManager::Unreadable(e) => r matches Err(APIError::FailedLoadingChannelState(m)) && m@
            == "cannot deserialize the channel manager ("@ + e@
            + "); the persisted channel state is incomplete or incompatible, a missing channel monitor is the most common cause (see the LDK logs)"@,
    }
}

/// Whether the node restarts, rather than starts afresh. Channel state that cannot be parsed is never
/// passed over.
pub fn load_channel_manager(stored: &StoredManager) -> (r: Result<bool, APIError>)
    ensures
        is_loading(*stored, r),
{
    match stored {
        StoredManager::NotFound => Ok(false),
        StoredManager::Read => Ok(true),
        StoredManager::Unreadable(e) => Err(
            APIError::FailedLoadingChannelState(
                join3(
                    "cannot deserialize the channel manager (",
                    e.as_str(),
                    "); the persisted channel state is incomplete or incompatible, a missing channel monitor is the most common cause (see the LDK logs)",
                ),
            ),
        ),
    }
}

/// A stored channel monitor.
#[derive(Debug)]
pub struct StoredMonitor {
    pub channel_id: String,
    /// Whether it holds a balance that is claimed when the channel is closed, so that it takes the
    /// channel to be open.
    pub open: bool,
}

/// Whether a monitor watches an open channel that the channel manager does not know.
pub open spec fn is_lost(monitor: StoredMonitor, known: Seq<String>) -> bool {
    !listed(known, monitor.channel_id@) && monitor.open
}

/// The channels that the monitors take to be open and the manager does not know.
pub open spec fn lost_channels(monitors: Seq<StoredMonitor>, known: Seq<String>) -> Seq<Seq<char>>
    decreases monitors.len(),
{
    if monitors.len() == 0 {
        Seq::empty()
    } else {
        let before = lost_channels(monitors.drop_last(), known);
        if is_lost(monitors.last(), known) {
            before.push(monitors.last().channel_id@)
        } else {
            before
        }
    }
}

/// How a list of texts without characters to escape is shown.
pub open spec fn shown(items: Seq<Seq<char>>) -> Seq<char> {
    "["@ + joined(
        items.map_values(|item: Seq<char>| "\""@ + item + "\""@),
        ", "@,
    ) + "]"@
}

fn show(items: &Vec<String>) -> (r: String)
    ensures
        r@ == shown(views(items@)),
{
    let mut quoted: Vec<String> = Vec::new();
    let mut i: usize = 0;
    let ghost wanted = views(items@).map_values(|item: Seq<char>| "\""@ + item + "\""@);
    while i < items.len()
        invariant
            i <= items@.len(),
            wanted == views(items@).map_values(|item: Seq<char>| "\""@ + item + "\""@),
            views(quoted@) == wanted.take(i as int),
        decreases items@.len() - i,
    {
        let ghost before = quoted@;
        quoted.push(join3("\"", items[i].as_str(), "\""));
        proof {
            assert(views(quoted@) =~= views(before).push(quoted@.last()@));
            assert(quoted@.last()@ == wanted[i as int]);
            assert(wanted.take(i + 1) =~= wanted.take(i as int).push(wanted[i as int]));
        }
        i += 1;
    }
    assert(wanted.take(i as int) =~= wanted);
    join3("[", join(&quoted, ", ").as_str(), "]")
}

/// What is done about channels that a restored channel manager does not know.
#[derive(Debug)]
pub enum RestoreVerdict {
    /// Nothing is lost.
    Consistent,
    /// Go on; the given channels will be closed by force.
    CloseLost(Vec<String>),
    /// Drop the restored manager, so that the next attempt restores again, and refuse to go on.
    Refuse(APIError),
}

/// Whether a verdict is the one on restored state.
pub open spec fn is_verdict(
    r: RestoreVerdict,
    restored_keys: usize,
    monitors: Seq<StoredMonitor>,
    known: Seq<String>,
    allow_empty_restore: bool,
) -> bool {
    let lost = lost_channels(monitors, known);
    if restored_keys == 0 || lost.len() == 0 {
        r is Consistent
    } else if allow_empty_restore {
        r matches RestoreVerdict::CloseLost(ids) && views(ids@) == lost
    } else {
        r matches RestoreVerdict::Refuse(APIError::FailedVssInit(m)) && m@
            == "VSS restore is inconsistent: the restored channel manager does not know channel(s) "@
            + shown(lost)
            + " that the restored channel monitors consider open. Unlocking would force-close them. Pass --vss-allow-empty-restore to proceed anyway and accept the force-close."@
    }
}

/// Checks restored state: channels that their monitors take to be open, and that the channel manager
/// does not know, would be closed by force. State that was not just restored is not checked.
pub fn check_restored(
    restored_keys: usize,
    monitors: &Vec<StoredMonitor>,
    known: &Vec<String>,
    allow_empty_restore: bool,
) -> (r: RestoreVerdict)
    requires
        forall|i: int|
            0 <= i < monitors@.len() ==> fixed_hex((#[trigger] monitors@[i]).channel_id@, 32),
    ensures
        is_verdict(r, restored_keys, monitors@, known@, allow_empty_restore),
{
    if restored_keys == 0 {
        return RestoreVerdict::Consistent;
    }
    let mut lost: Vec<String> = Vec::new();
    let mut i: usize = 0;
    while i < monitors.len()
        invariant
            i <= monitors@.len(),
            views(lost@) == lost_channels(monitors@.take(i as int), known@),
        decreases monitors@.len() - i,
    {
        let ghost before = lost@;
        assert(monitors@.take(i + 1).drop_last() =~= monitors@.take(i as int));
        if !contains_id(known, monitors[i].channel_id.as_str()) && monitors[i].open {
            lost.push(copy(&monitors[i].channel_id));
            assert(views(lost@) =~= views(before).push(monitors@[i as int].channel_id@));
        }
        i += 1;
    }
    assert(monitors@.take(i as int) =~= monitors@);
    assert(lost@.len() == views(lost@).len());
    if lost.len() == 0 {
        RestoreVerdict::Consistent
    } else if allow_empty_restore {
        RestoreVerdict::CloseLost(lost)
    } else {
        RestoreVerdict::Refuse(
            APIError::FailedVssInit(
                join3(
                    "VSS restore is inconsistent: the restored channel manager does not know channel(s) ",
                    show(&lost).as_str(),
                    " that the restored channel monitors consider open. Unlocking would force-close them. Pass --vss-allow-empty-restore to proceed anyway and accept the force-close.",
                ),
            ),
        )
    }
}

/// The markers that are missing of the sessions of virtual channels, in the order of the sessions.
pub open spec fn missing_markers(sessions: Seq<String>, stored: Seq<String>) -> Seq<Seq<char>>
    decreases sessions.len(),
{
    if sessions.len() == 0 {
        Seq::empty()
    } else {
        let before = missing_markers(sessions.drop_last(), stored);
        let key = "virtual_channel_"@ + sessions.last()@;
        if listed(stored, key) {
            before
        } else {
            before.push(key)
        }
    }
}

/// The markers to write again for the sessions of virtual channels.
pub fn markers_to_recover(sessions: &Vec<String>, stored: &Vec<String>) -> (r: Vec<String>)
    ensures
        views(r@) == missing_markers(sessions@, stored@),
{
    let mut missing: Vec<String> = Vec::new();
    let mut i: usize = 0;
    while i < sessions.len()
        invariant
            i <= sessions@.len(),
            views(missing@) == missing_markers(sessions@.take(i as int), stored@),
        decreases sessions@.len() - i,
    {
        let ghost before = missing@;
        assert(sessions@.take(i + 1).drop_last() =~= sessions@.take(i as int));
        let key = virtual_channel_key(sessions[i].as_str());
        if !contains_id(stored, key.as_str()) {
            missing.push(key);
            assert(views(missing@) =~= views(before).push(key@));
        }
        i += 1;
    }
    assert(sessions@.take(i as int) =~= sessions@);
    missing
}

/// What is left of recovering interrupted fundings, and whether the consistency check that was put
/// off is made now.
#[derive(Debug)]
pub struct RecoveryOutcome {
    pub unresolved: Vec<RgbFundingRecoveryState>,
    pub check_consistency: bool,
}

/// What is left of recovering interrupted fundings.
pub open spec fn is_recovery_settled(
    senders: Vec<RgbFundingRecoveryState>,
    receivers: Vec<RgbFundingRecoveryState>,
    deferred_check: bool,
    pending_stock_operation: Option<&str>,
    r: Result<RecoveryOutcome, RgbLibError>,
) -> bool {
    &&& ({
            let all = ordered(senders@ + receivers@);
            match pending_stock_operation {
                None => r matches Ok(o) && o.unresolved@ == all && o.check_consistency
                    == deferred_check,
                Some(id) => if !deferred_check {
                    r is Err && is_internal(
                        r->Err_0,
                        "RGB stock operation '"@ + id@
                            + "' appeared after the startup consistency check"@,
                    )
                } else if exists|i: int|
                    0 <= i < all.len() && (#[trigger] all[i]).funding_txid@ == id@ {
                    r matches Ok(o) && o.unresolved@ == all && !o.check_consistency
                } else {
                    r is Err && is_internal(
                        r->Err_0,
                        "RGB stock operation '"@ + id@
                            + "' has no matching durable funding recovery record"@,
                    )
                },
            }
        })
}

/// Puts what is unresolved on either side together, in order, and decides on the consistency check
/// that was put off.
pub fn settle_recovery(
    senders: Vec<RgbFundingRecoveryState>,
    receivers: Vec<RgbFundingRecoveryState>,
    deferred_check: bool,
    pending_stock_operation: Option<&str>,
) -> (r: Result<RecoveryOutcome, RgbLibError>)
    ensures
        is_recovery_settled(senders, receivers, deferred_check, pending_stock_operation, r),
{
    let mut unresolved = senders;
    let mut receivers = receivers;
    unresolved.append(&mut receivers);
    sort_rgb_funding_recoveries(&mut unresolved);
    match should_complete_deferred_rgb_consistency_check(
        deferred_check,
        pending_stock_operation,
        unresolved.as_slice(),
    ) {
        Ok(check_consistency) => Ok(RecoveryOutcome { unresolved, check_consistency }),
        Err(e) => Err(e),
    }
}

proof fn lemma_lost(monitors: Seq<StoredMonitor>, known: Seq<String>, i: int)
    requires
        0 <= i < monitors.len(),
        is_lost(monitors[i], known),
    ensures
        lost_channels(monitors, known).contains(monitors[i].channel_id@),
    decreases monitors.len(),
{
    let before = lost_channels(monitors.drop_last(), known);
    let all = lost_channels(monitors, known);
    if i == monitors.len() - 1 {
        assert(all.last() == monitors[i].channel_id@);
    } else {
        lemma_lost(monitors.drop_last(), known, i);
        let j = before.index_of(monitors[i].channel_id@);
        assert(all[j] == before[j]);
    }
}

/// A restore never closes a channel by force unasked: where a monitor takes a channel to be open that
/// the restored manager does not know, the node only goes on if that was allowed, and the channel is
/// then among those that are named.
pub proof fn law_restores_never_close_channels_unasked(
    r: RestoreVerdict,
    restored_keys: usize,
    monitors: Seq<StoredMonitor>,
    known: Seq<String>,
    allow_empty_restore: bool,
    i: int,
)
    requires
        is_verdict(r, restored_keys, monitors, known, allow_empty_restore),
        restored_keys > 0,
        0 <= i < monitors.len(),
        is_lost(monitors[i], known),
    ensures
        !allow_empty_restore ==> r is Refuse,
        allow_empty_restore ==> (r matches RestoreVerdict::CloseLost(ids) && listed(
            ids@,
            monitors[i].channel_id@,
        )),
{
    lemma_lost(monitors, known, i);
    let lost = lost_channels(monitors, known);
    assert(lost[lost.index_of(monitors[i].channel_id@)] == monitors[i].channel_id@);
}

// ---------------------------------------------------------------------------------------------
// Failures of a start
// ---------------------------------------------------------------------------------------------

/// What failed while the node was starting.
#[derive(Clone, Copy, Debug, PartialEq, Eq, Structural)]
pub enum StartFailure {
    /// The wallet's backup cannot be configured. The node must not run without it unnoticed.
    WalletBackup,
    /// The worker that opens the wallet did not come to its end.
    WalletTask,
    /// The worker that recovers fundings did not come to its end.
    RecoveryTask,
    /// Fundings could not be recovered.
    Recovery,
}

impl StartFailure {
    /// The error that a failed start reports.
    pub fn report(self, error: &str) -> (r: APIError)
        ensures
            match self {
                StartFailure::WalletBackup => r matches APIError::FailedVssInit(m) && m@
                    == "Failed to configure VSS backup for RGB wallet: "@ + error@,
                StartFailure::WalletTask => r matches APIError::Unexpected(m) && m@
                    == "rgb-lib wallet setup task failed: "@ + error@,
                StartFailure::RecoveryTask => r matches APIError::Unexpected(m) && m@
                    == "RGB funding recovery task failed: "@ + error@,
                StartFailure::Recovery => r matches APIError::Unexpected(m) && m@
                    == "RGB funding recovery failed: "@ + error@,
            },
    {
        match self {
            StartFailure::WalletBackup => APIError::FailedVssInit(
                join2("Failed to configure VSS backup for RGB wallet: ", error),
            ),
            StartFailure::WalletTask => APIError::Unexpected(
                join2("rgb-lib wallet setup task failed: ", error),
            ),
            StartFailure::RecoveryTask => APIError::Unexpected(
                join2("RGB funding recovery task failed: ", error),
            ),
            StartFailure::Recovery => APIError::Unexpected(
                join2("RGB funding recovery failed: ", error),
            ),
        }
    }
}

/// What the request names goes before the configuration, and the configuration before nothing: an indexer
/// has no default.
pub proof fn law_requests_go_before_the_configuration<'a>(
    request: Option<&'a str>,
    config: Option<&'a str>,
)
    ensures
        request is Some ==> indexer_of(request, config) == Ok::<&'a str, APIError>(request->0),
        request is None && config is Some ==> indexer_of(request, config) == Ok::<&'a str, APIError>(
            config->0,
        ),
        request is None && config is None ==> indexer_of(request, config) is Err,
{
}

/// A request is filled in only where it leaves something out: its own proxy, alias and addresses count,
/// else those of the configuration.
pub proof fn law_requests_are_only_filled_in(
    request: UnlockRequest,
    chain: ChainSection,
    node: NodeSection,
    r: UnlockRequest,
)
    requires
        is_filled_in(request, chain, node, r),
    ensures
        request.proxy_endpoint is Some ==> r.proxy_endpoint == request.proxy_endpoint,
        request.proxy_endpoint is None ==> r.proxy_endpoint == chain.proxy_endpoint,
        request.announce_alias is Some ==> r.announce_alias == request.announce_alias,
        request.announce_alias is None ==> r.announce_alias == node.announce_alias,
        request.announce_addresses@.len() > 0 ==> r.announce_addresses@.len()
            == request.announce_addresses@.len() && forall|i: int|
            0 <= i < r.announce_addresses@.len() ==> (#[trigger] r.announce_addresses@[i])@
                == request.announce_addresses@[i]@,
        request.announce_addresses@.len() == 0 ==> r.announce_addresses@.len()
            == node.announce_addresses@.len() && forall|i: int|
            0 <= i < r.announce_addresses@.len() ==> (#[trigger] r.announce_addresses@[i])@
                == node.announce_addresses@[i]@,
        r.indexer_url == request.indexer_url,
{
    let own = request.announce_addresses@;
    let source = if own.len() > 0 {
        own
    } else {
        node.announce_addresses@
    };
    let v = views(r.announce_addresses@);
    assert(v == views(source));
    assert(v.len() == source.len());
    assert forall|i: int| 0 <= i < r.announce_addresses@.len() implies (
    #[trigger] r.announce_addresses@[i])@ == source[i]@ by {
        assert(v[i] == r.announce_addresses@[i]@);
        assert(views(source)[i] == source[i]@);
    }
}

/// A proxy is used only where it can be parsed, the wallet has an endpoint for it, and it answers; the
/// first of these that fails is what is reported.
pub proof fn law_proxies_are_used_only_when_they_answer(
    transport_parses: bool,
    endpoint: Result<(), APIError>,
    reached: Result<(), APIError>,
    r: Result<(), APIError>,
)
    requires
        is_proxy_checked(transport_parses, endpoint, reached, r),
    ensures
        r is Ok <==> transport_parses && endpoint is Ok && reached is Ok,
        !transport_parses ==> r == Err::<(), APIError>(APIError::InvalidProxyEndpoint),
        transport_parses && endpoint is Err ==> r == endpoint,
        transport_parses && endpoint is Ok ==> r == reached,
{
}

/// A bitcoind is accepted exactly where it runs on the node's network; every network has its own name
/// there, but for the two signets.
pub proof fn law_bitcoind_runs_on_the_nodes_network(
    chain: String,
    network: BitcoinNetwork,
    r: Result<(), APIError>,
    other: BitcoinNetwork,
)
    requires
        is_chain_checked(chain, network, r),
    ensures
        r is Ok <==> chain@ == chain_name(network),
        r is Err ==> r == Err::<(), APIError>(APIError::NetworkMismatch(chain, network)),
        network == BitcoinNetwork::Mainnet ==> (r is Ok <==> chain@ == "main"@),
        network == BitcoinNetwork::Testnet ==> (r is Ok <==> chain@ == "test"@),
        network == BitcoinNetwork::Testnet4 ==> (r is Ok <==> chain@ == "testnet4"@),
        network == BitcoinNetwork::Regtest ==> (r is Ok <==> chain@ == "regtest"@),
        network == BitcoinNetwork::Signet || network == BitcoinNetwork::SignetCustom ==> (r is Ok
            <==> chain@ == "signet"@),
        other != network && chain_name(other) == chain_name(network) ==> (other
            == BitcoinNetwork::Signet || other == BitcoinNetwork::SignetCustom),
{
    reveal_strlit("main");
    reveal_strlit("test");
    reveal_strlit("testnet4");
    reveal_strlit("regtest");
    reveal_strlit("signet");
    assert("main"@[0] == 'm' && "test"@[0] == 't' && "regtest"@[0] == 'r' && "signet"@[0] == 's'
        && "testnet4"@[0] == 't');
    assert("test"@.len() == 4 && "testnet4"@.len() == 8);
}

/// Catching up is given up at the last attempt, with its error, and tried again before that, one attempt
/// fewer each time.
pub proof fn law_catching_up_is_given_up_at_the_last_attempt(
    attempts: u8,
    error: String,
    r: Result<u8, APIError>,
)
    requires
        attempts > 0,
        is_sync_failed(attempts, error, r),
    ensures
        r is Err <==> attempts == 1,
        r is Err ==> r == Err::<u8, APIError>(APIError::FailedBitcoindConnection(error)),
        r matches Ok(left) ==> left + 1 == attempts,
{
}

/// A signer is admitted exactly where it was attached, speaks the supported level, is kept on disk as the
/// one that it says it is, and is the one that the request means; the node then has its identity.
pub proof fn law_admitted_signers_are_the_expected_ones(
    found: SignerFindings,
    expected: BootstrapData,
    supported_api_level: u32,
    r: Result<String, APIError>,
)
    requires
        is_admission(found, expected, supported_api_level, r),
    ensures
        r is Ok <==> {
            &&& found.attached is Ok
            &&& found.bootstrap.api_level == supported_api_level
            &&& found.key_source matches Ok(Some(_))
            &&& found.key_source_matches
            &&& found.bootstrap.identity.node_id@ == expected.identity.node_id@
            &&& found.bootstrap.identity.account_xpub_vanilla@
                == expected.identity.account_xpub_vanilla@
            &&& found.bootstrap.identity.account_xpub_colored@
                == expected.identity.account_xpub_colored@
            &&& found.bootstrap.identity.master_fingerprint@
                == expected.identity.master_fingerprint@
            &&& found.bootstrap.protocol_version@ == expected.protocol_version@
            &&& found.bootstrap.api_level == expected.api_level
        },
        r matches Ok(id) ==> id == found.bootstrap.identity.node_id,
        found.attached is Ok && found.bootstrap.api_level == supported_api_level && (
        found.key_source matches Ok(None)) ==> r == Err::<String, APIError>(APIError::NotInitialized),
        found.attached is Ok && found.bootstrap.api_level == supported_api_level && (
        found.key_source matches Ok(Some(_))) && !found.key_source_matches ==> r == Err::<
            String,
            APIError,
        >(APIError::ExternalSignerMismatch),
{
}

/// A wallet is made with the external signer's keys exactly in external mode, and then never with a
/// mnemonic; in internal mode with the node's own.
pub proof fn law_wallets_use_the_keys_of_their_mode(
    external_signer_mode: bool,
    bootstrap: Option<BootstrapData>,
    own: Option<WalletKeys>,
    r: Result<WalletKeys, APIError>,
)
    requires
        are_wallet_keys(external_signer_mode, bootstrap, own, r),
    ensures
        external_signer_mode ==> (r is Ok <==> bootstrap is Some),
        !external_signer_mode ==> (r is Ok <==> own is Some),
        external_signer_mode && r is Ok ==> r->Ok_0.mnemonic is None && r->Ok_0.account_xpub_vanilla
            == bootstrap->0.identity.account_xpub_vanilla && r->Ok_0.account_xpub_colored
            == bootstrap->0.identity.account_xpub_colored && r->Ok_0.master_fingerprint
            == bootstrap->0.identity.master_fingerprint,
        !external_signer_mode && r is Ok ==> r->Ok_0 == own->0,
{
}

/// Every network supports the three basic kinds of assets, and inflatable ones exactly where it is not
/// mainnet.
pub proof fn law_inflatable_assets_stay_off_mainnet(
    network: BitcoinNetwork,
    r: Vec<AssetSchema>,
)
    requires
        are_supported(network, r),
    ensures
        r@.contains(AssetSchema::Nia) && r@.contains(AssetSchema::Cfa) && r@.contains(
            AssetSchema::Uda,
        ),
        r@.contains(AssetSchema::Ifa) <==> network != BitcoinNetwork::Mainnet,
{
    assert(r@[0] == AssetSchema::Nia && r@[1] == AssetSchema::Cfa && r@[2] == AssetSchema::Uda);
    if network != BitcoinNetwork::Mainnet {
        assert(r@[3] == AssetSchema::Ifa);
    }
}

/// Inbound channels are accepted by hand and anchors negotiated; the configured limits are handed on, and
/// private channels are forwarded to where that is configured or virtual channels need it.
pub proof fn law_channel_settings_are_handed_on(
    channels: ChannelsSection,
    enable_virtual_channels: bool,
    r: UserConfig,
)
    requires
        is_user_config(channels, enable_virtual_channels, r),
    ensures
        r.manually_accept_inbound_channels && r.negotiate_anchors_zero_fee_htlc_tx
            && !r.force_announced_channel_preference,
        r.their_to_self_delay == channels.their_to_self_delay && r.our_to_self_delay
            == channels.our_to_self_delay,
        r.max_minimum_depth == channels.max_minimum_depth && r.our_max_accepted_htlcs
            == channels.our_max_accepted_htlcs,
        r.max_inbound_htlc_value_in_flight_percent_of_channel
            == channels.max_inbound_htlc_value_in_flight_percent,
        r.channel_config.cltv_expiry_delta == channels.cltv_expiry_delta
            && r.channel_config.forwarding_fee_base_msat == channels.forwarding_fee_base_msat
            && r.channel_config.forwarding_fee_proportional_millionths
            == channels.forwarding_fee_proportional_millionths
            && r.channel_config.max_dust_htlc_exposure == channels.max_dust_htlc_exposure,
        r.accept_forwards_to_priv_channels <==> channels.accept_forwards_to_priv_channels
            || enable_virtual_channels,
{
}

/// Every stored setting is read, in order, and every one with a value is written as it is; only one that
/// cannot be read stops the copying, with its error.
pub proof fn law_every_setting_is_copied(job: ConfigSync, reply: ConfigSyncReply)
    requires
        job.wf(),
        config_sync_fits(job.step, reply),
    ensures
        ({
            let next = config_sync_next(job, reply).step;
            let at = match job.step {
                ConfigSyncStep::Read(i) => i as int,
                ConfigSyncStep::Write(i, _) => i as int,
                ConfigSyncStep::Done(_) => 0,
            };
            &&& job.step is Read ==> (reply matches ConfigSyncReply::Value(Ok(Some(value))) ==> next == (
            ConfigSyncStep::Write(at as usize, value)))
            &&& job.step is Read ==> (reply matches ConfigSyncReply::Value(Err(e)) ==> next
                == ConfigSyncStep::Done(Err::<(), APIError>(e)))
            &&& job.step is Write || (reply matches ConfigSyncReply::Value(Ok(None))) ==> if at + 1
                < job.count {
                next == ConfigSyncStep::Read((at + 1) as usize)
            } else {
                next matches ConfigSyncStep::Done(Ok(_))
            }
            &&& config_sync_next(job, reply).count == job.count
            &&& job.count > 0 ==> read_from(0, job.count) == ConfigSyncStep::Read(0)
        }),
{
}

/// A node restarts exactly where a channel manager is stored that can be read; one that cannot be is
/// never taken for a fresh start.
pub proof fn law_unreadable_managers_stop_the_start(stored: StoredManager, r: Result<bool, APIError>)
    requires
        is_loading(stored, r),
    ensures
        r is Err <==> stored is Unreadable,
        r == Ok::<bool, APIError>(true) <==> stored is Read,
        r == Ok::<bool, APIError>(false) <==> stored is NotFound,
{
}

/// A restore goes on unchecked where nothing was fetched, and where every monitor that holds a balance
/// belongs to a channel that the manager knows; a monitor without a balance never stops it.
pub proof fn law_consistent_restores_go_on(
    r: RestoreVerdict,
    restored_keys: usize,
    monitors: Seq<StoredMonitor>,
    known: Seq<String>,
    allow_empty_restore: bool,
)
    requires
        is_verdict(r, restored_keys, monitors, known, allow_empty_restore),
    ensures
        restored_keys == 0 ==> r is Consistent,
        (forall|i: int|
            0 <= i < monitors.len() && (#[trigger] monitors[i]).open ==> exists|k: int|
                0 <= k < known.len() && (#[trigger] known[k])@ == monitors[i].channel_id@)
            ==> r is Consistent,
{
    if forall|i: int|
        0 <= i < monitors.len() && (#[trigger] monitors[i]).open ==> exists|k: int|
            0 <= k < known.len() && (#[trigger] known[k])@ == monitors[i].channel_id@ {
        lemma_none_lost(monitors, known);
    }
}

proof fn lemma_none_lost(monitors: Seq<StoredMonitor>, known: Seq<String>)
    requires
        forall|i: int|
            0 <= i < monitors.len() && (#[trigger] monitors[i]).open ==> exists|k: int|
                0 <= k < known.len() && (#[trigger] known[k])@ == monitors[i].channel_id@,
    ensures
        lost_channels(monitors, known).len() == 0,
    decreases monitors.len(),
{
    if monitors.len() > 0 {
        let rest = monitors.drop_last();
        assert forall|i: int| 0 <= i < rest.len() && (#[trigger] rest[i]).open implies exists|k: int|
            0 <= k < known.len() && (#[trigger] known[k])@ == rest[i].channel_id@ by {
            assert(monitors[i] == rest[i]);
        }
        lemma_none_lost(rest, known);
        let last = monitors[monitors.len() - 1];
        if last.open {
            let k = choose|k: int| 0 <= k < known.len() && (#[trigger] known[k])@ == last.channel_id@;
            assert(views(known)[k] == last.channel_id@);
        }
    }
}

/// Where a monitor holds a balance of a channel that the fetched manager does not know, the start is
/// refused, or the channel is named among those to be closed where that was allowed.
pub proof fn law_lost_channels_are_refused_or_named(
    r: RestoreVerdict,
    restored_keys: usize,
    monitors: Seq<StoredMonitor>,
    known: Seq<String>,
    allow_empty_restore: bool,
    i: int,
)
    requires
        is_verdict(r, restored_keys, monitors, known, allow_empty_restore),
        restored_keys > 0,
        0 <= i < monitors.len(),
        monitors[i].open,
        forall|k: int|
            0 <= k < known.len() ==> (#[trigger] known[k])@ != monitors[i].channel_id@,
    ensures
        !allow_empty_restore ==> r is Refuse,
        allow_empty_restore ==> r is CloseLost,
{
    assert(!listed(known, monitors[i].channel_id@)) by {
        if views(known).contains(monitors[i].channel_id@) {
            let k = choose|k: int|
                0 <= k < views(known).len() && views(known)[k] == monitors[i].channel_id@;
            assert(known[k]@ == monitors[i].channel_id@);
        }
    }
    law_restores_never_close_channels_unasked(
        r,
        restored_keys,
        monitors,
        known,
        allow_empty_restore,
        i,
    );
}

/// The marker of every session is there or written again.
pub proof fn law_every_session_has_its_marker(sessions: Seq<String>, stored: Seq<String>, i: int)
    requires
        0 <= i < sessions.len(),
    ensures
        ({
            let key = "virtual_channel_"@ + sessions[i]@;
            ||| views(stored).contains(key)
            ||| missing_markers(sessions, stored).contains(key)
        }),
    decreases sessions.len(),
{
    let key = "virtual_channel_"@ + sessions[i]@;
    let rest = sessions.drop_last();
    let before = missing_markers(rest, stored);
    if i == sessions.len() - 1 {
        if !listed(stored, key) {
            assert(missing_markers(sessions, stored).last() == key);
        }
    } else {
        assert(rest[i] == sessions[i]);
        law_every_session_has_its_marker(rest, stored, i);
        if before.contains(key) {
            let k = choose|k: int| 0 <= k < before.len() && before[k] == key;
            assert(missing_markers(sessions, stored)[k] == key);
        }
    }
}

/// Nothing unresolved is left out of what a start finds, on either side, and the deferred check is made
/// only once no stock operation is pending.
pub proof fn law_recoveries_are_put_together(
    senders: Vec<RgbFundingRecoveryState>,
    receivers: Vec<RgbFundingRecoveryState>,
    deferred_check: bool,
    pending: Option<&str>,
    o: RecoveryOutcome,
)
    requires
        is_recovery_settled(senders, receivers, deferred_check, pending, Ok(o)),
    ensures
        o.unresolved@.len() == senders@.len() + receivers@.len(),
        o.unresolved@.to_multiset() == (senders@ + receivers@).to_multiset(),
        o.check_consistency ==> deferred_check && pending is None,
        pending is None ==> o.check_consistency == deferred_check,
{
    crate::recovery::law_ordered_is_a_sorted_permutation(senders@ + receivers@);
    broadcast use vstd::seq_lib::group_to_multiset_ensures;

    assert(o.unresolved@.to_multiset().len() == o.unresolved@.len());
    assert((senders@ + receivers@).to_multiset().len() == (senders@ + receivers@).len());
}

} // verus!
