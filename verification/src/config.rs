//! Node settings: built-in defaults overridden by the optional configuration file.

use lightning::ln::channelmanager::{BREAKDOWN_TIMEOUT, MIN_CLTV_EXPIRY_DELTA};
use lightning::util::config::{
    ChannelConfig as LdkChannelConfig, ChannelHandshakeConfig as LdkChannelHandshakeConfig,
    ChannelHandshakeLimits as LdkChannelHandshakeLimits, MaxDustHTLCExposure,
};
use vstd::prelude::*;
use vstd::string::*;
use vstd::utf8::*;

use crate::error::AppError;
use crate::text::{copy_all, copy_opt, join2, join3, join5, number, text};
use crate::text::decimal;

verus! {

pub const HTLC_MIN_MSAT: u64 = 3_000_000;

pub const MAX_SWAP_FEE_MSAT: u64 = HTLC_MIN_MSAT;

pub const DUST_LIMIT_MSAT: u64 = 546_000;

pub const DEFAULT_FINAL_CLTV_EXPIRY_DELTA: u32 = 14;

pub const DEFAULT_UTXO_NUM: u8 = 4;

pub const DEFAULT_OPENCHANNEL_MIN_SAT: u64 = 5506;

pub const DEFAULT_OPENCHANNEL_MAX_SAT: u64 = 16_777_215;

pub const DEFAULT_OPENCHANNEL_MIN_RGB_AMT: u64 = 1;

/// lnd's largest `to_self_delay` is 2016 blocks; the default stays compatible with it.
pub const DEFAULT_THEIR_TO_SELF_DELAY: u16 = 2016;

pub const DEFAULT_PAYMENT_RETRY_TIMEOUT_SECS: u64 = 10;

pub const DEFAULT_PASSWORD_MIN_LENGTH: u8 = 8;

pub const DEFAULT_PAGE_SIZE: u64 = 100;

pub const DEFAULT_PEER_RECONNECT_INTERVAL_SECS: u64 = 1;

pub const DEFAULT_ANNOUNCE_INITIAL_DELAY_SECS: u64 = 60;

pub const DEFAULT_ANNOUNCE_REFRESH_INTERVAL_SECS: u64 = 3600;

pub const DEFAULT_INDEXER_TIMEOUT_SECS: u64 = 10;

pub const DEFAULT_FEE_REFRESH_INTERVAL_SECS: u64 = 60;

pub const DEFAULT_RGS_SYNC_INTERVAL_SECS: u64 = 3600;

pub const DEFAULT_RGS_SNAPSHOT_MAX_SIZE_MB: u64 = 15;

pub const DEFAULT_RGS_CONNECT_TIMEOUT_SECS: u64 = 5;

pub const DEFAULT_RGS_SYNC_TIMEOUT_SECS: u64 = 60;

pub const DEFAULT_VSS_RETRY_BACKOFF_MS: u64 = 100;

pub const DEFAULT_VSS_RETRY_MAX_ATTEMPTS: u32 = 3;

pub const DEFAULT_VSS_RETRY_MAX_TOTAL_DELAY_SECS: u64 = 5;

pub const DEFAULT_LSP_ORDER_RESPONSE_TIMEOUT_SECS: u64 = 30;

/// Stays above the LSP's own HTTP timeout of 15 seconds, with a buffer.
pub const DEFAULT_LSP_REQUEST_TIMEOUT_SECS: u64 = 25;

pub const MAX_TO_SELF_DELAY: u16 = 2016;

pub const MAX_CHANNEL_SAT: u64 = 16_777_215;

pub const MAX_ALIAS_BYTES: usize = 32;

/// The protocol's maximum for `max_accepted_htlcs`.
pub const MAX_ACCEPTED_HTLCS_CAP: u16 = 483;

/// Built-in values that the wallet and the channel code share.
#[derive(Clone, Copy, Debug, PartialEq, Eq, Structural)]
pub struct CoreDefaults {
    pub fee_rate_sat_vb: u64,
    pub utxo_size_sat: u32,
    pub min_channel_confirmations: u8,
    pub virtual_htlc_min_msat: u64,
}

// ---------------------------------------------------------------------------------------------
// Values inherited from the Lightning library
// ---------------------------------------------------------------------------------------------

/// Maximum dust HTLC exposure.
#[derive(Clone, Copy, Debug, PartialEq, Eq, Structural)]
pub enum DustExposure {
    FeeRateMultiplier(u64),
    FixedLimitMsat(u64),
}

/// The per-channel settings of the Lightning library, as plain values.
#[derive(Clone, Copy, Debug, PartialEq, Eq, Structural)]
pub struct ChannelConfig {
    pub forwarding_fee_proportional_millionths: u32,
    pub forwarding_fee_base_msat: u32,
    pub cltv_expiry_delta: u16,
    pub max_dust_htlc_exposure: DustExposure,
    pub force_close_avoidance_max_fee_satoshis: u64,
    pub accept_underpaying_htlcs: bool,
}

/// The handshake defaults that the node inherits.
#[derive(Clone, Copy, Debug, PartialEq, Eq, Structural)]
pub struct HandshakeDefaults {
    pub our_to_self_delay: u16,
    pub max_inbound_htlc_value_in_flight_percent_of_channel: u8,
    pub our_max_accepted_htlcs: u16,
}

/// What the Lightning library uses per channel when nothing is configured.
pub open spec fn ldk_channel_defaults() -> ChannelConfig {
    ChannelConfig {
        forwarding_fee_proportional_millionths: 0,
        forwarding_fee_base_msat: 1000,
        cltv_expiry_delta: 72,
        max_dust_htlc_exposure: DustExposure::FeeRateMultiplier(10000),
        force_close_avoidance_max_fee_satoshis: 1000,
        accept_underpaying_htlcs: false,
    }
}

/// `lightning::util::config::ChannelConfig::default`: no proportional fee, 1000 msat base fee, 72
/// blocks of CLTV delta, a dust exposure of 10000 times the fee rate, 1000 sat of force-close
/// avoidance and no underpaying HTLCs.
#[verifier::external_body]
fn default_channel_config() -> (r: ChannelConfig)
    ensures
        r == ldk_channel_defaults(),
{
    let d = LdkChannelConfig::default();
    ChannelConfig {
        forwarding_fee_proportional_millionths: d.forwarding_fee_proportional_millionths,
        forwarding_fee_base_msat: d.forwarding_fee_base_msat,
        cltv_expiry_delta: d.cltv_expiry_delta,
        max_dust_htlc_exposure: match d.max_dust_htlc_exposure {
            MaxDustHTLCExposure::FeeRateMultiplier(m) => DustExposure::FeeRateMultiplier(m),
            MaxDustHTLCExposure::FixedLimitMsat(m) => DustExposure::FixedLimitMsat(m),
        },
        force_close_avoidance_max_fee_satoshis: d.force_close_avoidance_max_fee_satoshis,
        accept_underpaying_htlcs: d.accept_underpaying_htlcs,
    }
}

/// `lightning::util::config::ChannelHandshakeConfig::default`: a `to_self_delay` of 144 blocks, 10
/// percent of the channel in flight and 50 accepted HTLCs.
#[verifier::external_body]
fn default_handshake_config() -> (r: HandshakeDefaults)
    ensures
        r == (HandshakeDefaults {
            our_to_self_delay: 144,
            max_inbound_htlc_value_in_flight_percent_of_channel: 10,
            our_max_accepted_htlcs: 50,
        }),
{
    let d = LdkChannelHandshakeConfig::default();
    HandshakeDefaults {
        our_to_self_delay: d.our_to_self_delay,
        max_inbound_htlc_value_in_flight_percent_of_channel: d.max_inbound_htlc_value_in_flight_percent_of_channel,
        our_max_accepted_htlcs: d.our_max_accepted_htlcs,
    }
}

/// `lightning::util::config::ChannelHandshakeLimits::default`: a minimum depth of at most 144
/// blocks. The other limits are not used here and nothing is said of them.
#[verifier::external_body]
fn default_max_minimum_depth() -> (r: u32)
    ensures
        r == 144,
{
    LdkChannelHandshakeLimits::default().max_minimum_depth
}

/// The constant `lightning::ln::channelmanager::MIN_CLTV_EXPIRY_DELTA`, 48 blocks.
#[verifier::external_body]
fn min_cltv_expiry_delta() -> (r: u16)
    ensures
        r == 48,
{
    MIN_CLTV_EXPIRY_DELTA
}

/// The constant `lightning::ln::channelmanager::BREAKDOWN_TIMEOUT`, 144 blocks.
#[verifier::external_body]
fn breakdown_timeout() -> (r: u16)
    ensures
        r == 144,
{
    BREAKDOWN_TIMEOUT
}

// ---------------------------------------------------------------------------------------------
// Sections
// ---------------------------------------------------------------------------------------------

/// How the node presents itself to its peers.
#[derive(Debug)]
pub struct NodeSection {
    pub announce_alias: Option<String>,
    pub announce_addresses: Vec<String>,
    pub peer_reconnect_interval_secs: u64,
    pub announce_initial_delay_secs: u64,
    pub announce_refresh_interval_secs: u64,
}

/// Access to the block chain.
#[derive(Debug)]
pub struct ChainSection {
    pub indexer_url: Option<String>,
    pub proxy_endpoint: Option<String>,
    pub indexer_timeout_secs: u64,
    pub fee_refresh_interval_secs: u64,
}

/// Rapid gossip sync.
#[derive(Clone, Copy, Debug, PartialEq, Eq, Structural)]
pub struct GossipSection {
    pub rgs_sync_interval_secs: u64,
    pub rgs_snapshot_max_size_mb: u64,
    pub rgs_connect_timeout_secs: u64,
    pub rgs_sync_timeout_secs: u64,
}

/// Retries against the remote store.
#[derive(Clone, Copy, Debug, PartialEq, Eq, Structural)]
pub struct VssSection {
    pub retry_backoff_ms: u64,
    pub retry_max_attempts: u32,
    pub retry_max_total_delay_secs: u64,
}

/// Timeouts towards the liquidity provider.
#[derive(Clone, Copy, Debug, PartialEq, Eq, Structural)]
pub struct LspSection {
    pub order_response_timeout_secs: u64,
    pub request_timeout_secs: u64,
}

/// The RGB wallet.
#[derive(Clone, Copy, Debug, PartialEq, Eq, Structural)]
pub struct RgbSection {
    pub fee_rate_sat_vb: u64,
    pub utxo_size_sat: u32,
    pub utxo_num: u8,
    pub min_channel_confirmations: u8,
}

/// Channel limits and policies.
#[derive(Clone, Copy, Debug, PartialEq, Eq, Structural)]
pub struct ChannelsSection {
    pub htlc_min_msat: u64,
    pub virtual_htlc_min_msat: u64,
    pub dust_limit_msat: u64,
    pub open_min_sat: u64,
    pub open_max_sat: u64,
    pub open_min_rgb_amount: u64,
    pub their_to_self_delay: u16,
    pub accept_forwards_to_priv_channels: bool,
    pub cltv_expiry_delta: u16,
    pub our_to_self_delay: u16,
    pub forwarding_fee_base_msat: u32,
    pub forwarding_fee_proportional_millionths: u32,
    pub max_dust_htlc_exposure: DustExposure,
    pub max_inbound_htlc_value_in_flight_percent: u8,
    pub our_max_accepted_htlcs: u16,
    pub max_minimum_depth: u32,
}

/// Outgoing payments and swaps.
#[derive(Clone, Copy, Debug, PartialEq, Eq, Structural)]
pub struct PaymentsSection {
    pub final_cltv_expiry_delta: u32,
    pub retry_timeout_secs: u64,
    pub max_swap_fee_msat: u64,
}

/// Authentication.
#[derive(Clone, Copy, Debug, PartialEq, Eq, Structural)]
pub struct AuthSection {
    pub password_min_length: u8,
}

/// The HTTP interface.
#[derive(Clone, Copy, Debug, PartialEq, Eq, Structural)]
pub struct ApiSection {
    pub default_page_size: u64,
}

/// Node settings resolved from built-in defaults overridden by the optional configuration file.
#[derive(Debug)]
pub struct Config {
    pub node: NodeSection,
    pub chain: ChainSection,
    pub gossip: GossipSection,
    pub vss: VssSection,
    pub lsp: LspSection,
    pub rgb: RgbSection,
    pub channels: ChannelsSection,
    pub payments: PaymentsSection,
    pub auth: AuthSection,
    pub api: ApiSection,
}

// ---------------------------------------------------------------------------------------------
// The configuration file
// ---------------------------------------------------------------------------------------------

/// The `[node]` table of the configuration file; a missing key is `None`.
#[derive(Debug)]
pub struct TomlNode {
    pub announce_alias: Option<String>,
    pub announce_addresses: Option<Vec<String>>,
    pub peer_reconnect_interval_secs: Option<u64>,
    pub announce_initial_delay_secs: Option<u64>,
    pub announce_refresh_interval_secs: Option<u64>,
}

/// The `[chain]` table of the configuration file; a missing key is `None`.
#[derive(Debug)]
pub struct TomlChain {
    pub indexer_url: Option<String>,
    pub proxy_endpoint: Option<String>,
    pub indexer_timeout_secs: Option<u64>,
    pub fee_refresh_interval_secs: Option<u64>,
}

/// The `[gossip]` table of the configuration file; a missing key is `None`.
#[derive(Clone, Copy, Debug, PartialEq, Eq, Structural)]
pub struct TomlGossip {
    pub rgs_sync_interval_secs: Option<u64>,
    pub rgs_snapshot_max_size_mb: Option<u64>,
    pub rgs_connect_timeout_secs: Option<u64>,
    pub rgs_sync_timeout_secs: Option<u64>,
}

/// The `[vss]` table of the configuration file; a missing key is `None`.
#[derive(Clone, Copy, Debug, PartialEq, Eq, Structural)]
pub struct TomlVss {
    pub retry_backoff_ms: Option<u64>,
    pub retry_max_attempts: Option<u32>,
    pub retry_max_total_delay_secs: Option<u64>,
}

/// The `[lsp]` table of the configuration file; a missing key is `None`.
#[derive(Clone, Copy, Debug, PartialEq, Eq, Structural)]
pub struct TomlLsp {
    pub order_response_timeout_secs: Option<u64>,
    pub request_timeout_secs: Option<u64>,
}

/// The `[rgb]` table of the configuration file; a missing key is `None`.
#[derive(Clone, Copy, Debug, PartialEq, Eq, Structural)]
pub struct TomlRgb {
    pub fee_rate_sat_vb: Option<u64>,
    pub utxo_size_sat: Option<u32>,
    pub utxo_num: Option<u8>,
    pub min_channel_confirmations: Option<u8>,
}

/// The `[channels]` table of the configuration file; a missing key is `None`.
#[derive(Clone, Copy, Debug, PartialEq, Eq, Structural)]
pub struct TomlChannels {
    pub htlc_min_msat: Option<u64>,
    pub virtual_htlc_min_msat: Option<u64>,
    pub dust_limit_msat: Option<u64>,
    pub open_min_sat: Option<u64>,
    pub open_max_sat: Option<u64>,
    pub open_min_rgb_amount: Option<u64>,
    pub their_to_self_delay: Option<u16>,
    pub accept_forwards_to_priv_channels: Option<bool>,
    pub cltv_expiry_delta: Option<u16>,
    pub our_to_self_delay: Option<u16>,
    pub forwarding_fee_base_msat: Option<u32>,
    pub forwarding_fee_proportional_millionths: Option<u32>,
    pub max_dust_htlc_exposure_multiplier: Option<u64>,
    pub max_dust_htlc_exposure_fixed_msat: Option<u64>,
    pub max_inbound_htlc_value_in_flight_percent: Option<u8>,
    pub our_max_accepted_htlcs: Option<u16>,
    pub max_minimum_depth: Option<u32>,
}

/// The `[payments]` table of the configuration file; a missing key is `None`.
#[derive(Clone, Copy, Debug, PartialEq, Eq, Structural)]
pub struct TomlPayments {
    pub final_cltv_expiry_delta: Option<u32>,
    pub retry_timeout_secs: Option<u64>,
    pub max_swap_fee_msat: Option<u64>,
}

/// The `[auth]` table of the configuration file; a missing key is `None`.
#[derive(Clone, Copy, Debug, PartialEq, Eq, Structural)]
pub struct TomlAuth {
    pub password_min_length: Option<u8>,
}

/// The `[api]` table of the configuration file; a missing key is `None`.
#[derive(Clone, Copy, Debug, PartialEq, Eq, Structural)]
pub struct TomlApi {
    pub default_page_size: Option<u64>,
}

/// The parsed configuration file; a missing table is `None`.
#[derive(Debug)]
pub struct TomlConfig {
    pub node: Option<TomlNode>,
    pub chain: Option<TomlChain>,
    pub gossip: Option<TomlGossip>,
    pub vss: Option<TomlVss>,
    pub lsp: Option<TomlLsp>,
    pub rgb: Option<TomlRgb>,
    pub channels: Option<TomlChannels>,
    pub payments: Option<TomlPayments>,
    pub auth: Option<TomlAuth>,
    pub api: Option<TomlApi>,
}

// ---------------------------------------------------------------------------------------------
// Defaults
// ---------------------------------------------------------------------------------------------

pub open spec fn default_gossip() -> GossipSection {
    GossipSection {
        rgs_sync_interval_secs: DEFAULT_RGS_SYNC_INTERVAL_SECS,
        rgs_snapshot_max_size_mb: DEFAULT_RGS_SNAPSHOT_MAX_SIZE_MB,
        rgs_connect_timeout_secs: DEFAULT_RGS_CONNECT_TIMEOUT_SECS,
        rgs_sync_timeout_secs: DEFAULT_RGS_SYNC_TIMEOUT_SECS,
    }
}

pub open spec fn default_vss() -> VssSection {
    VssSection {
        retry_backoff_ms: DEFAULT_VSS_RETRY_BACKOFF_MS,
        retry_max_attempts: DEFAULT_VSS_RETRY_MAX_ATTEMPTS,
        retry_max_total_delay_secs: DEFAULT_VSS_RETRY_MAX_TOTAL_DELAY_SECS,
    }
}

pub open spec fn default_lsp() -> LspSection {
    LspSection {
        order_response_timeout_secs: DEFAULT_LSP_ORDER_RESPONSE_TIMEOUT_SECS,
        request_timeout_secs: DEFAULT_LSP_REQUEST_TIMEOUT_SECS,
    }
}

pub open spec fn default_rgb(core: CoreDefaults) -> RgbSection {
    RgbSection {
        fee_rate_sat_vb: core.fee_rate_sat_vb,
        utxo_size_sat: core.utxo_size_sat,
        utxo_num: DEFAULT_UTXO_NUM,
        min_channel_confirmations: core.min_channel_confirmations,
    }
}

pub open spec fn default_channels(core: CoreDefaults) -> ChannelsSection {
    ChannelsSection {
        htlc_min_msat: HTLC_MIN_MSAT,
        virtual_htlc_min_msat: core.virtual_htlc_min_msat,
        dust_limit_msat: DUST_LIMIT_MSAT,
        open_min_sat: DEFAULT_OPENCHANNEL_MIN_SAT,
        open_max_sat: DEFAULT_OPENCHANNEL_MAX_SAT,
        open_min_rgb_amount: DEFAULT_OPENCHANNEL_MIN_RGB_AMT,
        their_to_self_delay: DEFAULT_THEIR_TO_SELF_DELAY,
        accept_forwards_to_priv_channels: false,
        cltv_expiry_delta: 72,
        our_to_self_delay: 144,
        forwarding_fee_base_msat: 1000,
        forwarding_fee_proportional_millionths: 0,
        max_dust_htlc_exposure: DustExposure::FeeRateMultiplier(10000),
        max_inbound_htlc_value_in_flight_percent: 10,
        our_max_accepted_htlcs: 50,
        max_minimum_depth: 144,
    }
}

pub open spec fn default_payments() -> PaymentsSection {
    PaymentsSection {
        final_cltv_expiry_delta: DEFAULT_FINAL_CLTV_EXPIRY_DELTA,
        retry_timeout_secs: DEFAULT_PAYMENT_RETRY_TIMEOUT_SECS,
        max_swap_fee_msat: MAX_SWAP_FEE_MSAT,
    }
}

pub open spec fn default_auth() -> AuthSection {
    AuthSection {
        password_min_length: DEFAULT_PASSWORD_MIN_LENGTH,
    }
}

pub open spec fn default_api() -> ApiSection {
    ApiSection {
        default_page_size: DEFAULT_PAGE_SIZE,
    }
}

impl Default for NodeSection {
    fn default() -> (r: Self)
        ensures
            r.announce_alias is None,
            r.announce_addresses@.len() == 0,
            r.peer_reconnect_interval_secs == DEFAULT_PEER_RECONNECT_INTERVAL_SECS,
            r.announce_initial_delay_secs == DEFAULT_ANNOUNCE_INITIAL_DELAY_SECS,
            r.announce_refresh_interval_secs == DEFAULT_ANNOUNCE_REFRESH_INTERVAL_SECS,
    {
        NodeSection {
            announce_alias: None,
            announce_addresses: Vec::new(),
            peer_reconnect_interval_secs: DEFAULT_PEER_RECONNECT_INTERVAL_SECS,
            announce_initial_delay_secs: DEFAULT_ANNOUNCE_INITIAL_DELAY_SECS,
            announce_refresh_interval_secs: DEFAULT_ANNOUNCE_REFRESH_INTERVAL_SECS,
        }
    }
}

impl Default for ChainSection {
    fn default() -> (r: Self)
        ensures
            r.indexer_url is None,
            r.proxy_endpoint is None,
            r.indexer_timeout_secs == DEFAULT_INDEXER_TIMEOUT_SECS,
            r.fee_refresh_interval_secs == DEFAULT_FEE_REFRESH_INTERVAL_SECS,
    {
        ChainSection {
            indexer_url: None,
            proxy_endpoint: None,
            indexer_timeout_secs: DEFAULT_INDEXER_TIMEOUT_SECS,
            fee_refresh_interval_secs: DEFAULT_FEE_REFRESH_INTERVAL_SECS,
        }
    }
}

impl Default for GossipSection {
    fn default() -> (r: Self)
        ensures
            r == default_gossip(),
    {
        GossipSection {
            rgs_sync_interval_secs: DEFAULT_RGS_SYNC_INTERVAL_SECS,
            rgs_snapshot_max_size_mb: DEFAULT_RGS_SNAPSHOT_MAX_SIZE_MB,
            rgs_connect_timeout_secs: DEFAULT_RGS_CONNECT_TIMEOUT_SECS,
            rgs_sync_timeout_secs: DEFAULT_RGS_SYNC_TIMEOUT_SECS,
        }
    }
}

impl Default for VssSection {
    fn default() -> (r: Self)
        ensures
            r == default_vss(),
    {
        VssSection {
            retry_backoff_ms: DEFAULT_VSS_RETRY_BACKOFF_MS,
            retry_max_attempts: DEFAULT_VSS_RETRY_MAX_ATTEMPTS,
            retry_max_total_delay_secs: DEFAULT_VSS_RETRY_MAX_TOTAL_DELAY_SECS,
        }
    }
}

impl Default for LspSection {
    fn default() -> (r: Self)
        ensures
            r == default_lsp(),
    {
        LspSection {
            order_response_timeout_secs: DEFAULT_LSP_ORDER_RESPONSE_TIMEOUT_SECS,
            request_timeout_secs: DEFAULT_LSP_REQUEST_TIMEOUT_SECS,
        }
    }
}

impl RgbSection {
    /// The RGB wallet's settings when the file says nothing.
    pub fn defaults(core: CoreDefaults) -> (r: Self)
        ensures
            r == default_rgb(core),
    {
        RgbSection {
            fee_rate_sat_vb: core.fee_rate_sat_vb,
            utxo_size_sat: core.utxo_size_sat,
            utxo_num: DEFAULT_UTXO_NUM,
            min_channel_confirmations: core.min_channel_confirmations,
        }
    }
}

impl ChannelsSection {
    /// The channel settings when the file says nothing. What the node inherits from the Lightning
    /// library comes from that library.
    pub fn defaults(core: CoreDefaults) -> (r: Self)
        ensures
            r == default_channels(core),
    {
        let ldk_channel = default_channel_config();
        let ldk_handshake = default_handshake_config();
        ChannelsSection {
            htlc_min_msat: HTLC_MIN_MSAT,
            virtual_htlc_min_msat: core.virtual_htlc_min_msat,
            dust_limit_msat: DUST_LIMIT_MSAT,
            open_min_sat: DEFAULT_OPENCHANNEL_MIN_SAT,
            open_max_sat: DEFAULT_OPENCHANNEL_MAX_SAT,
            open_min_rgb_amount: DEFAULT_OPENCHANNEL_MIN_RGB_AMT,
            their_to_self_delay: DEFAULT_THEIR_TO_SELF_DELAY,
            accept_forwards_to_priv_channels: false,
            cltv_expiry_delta: ldk_channel.cltv_expiry_delta,
            our_to_self_delay: ldk_handshake.our_to_self_delay,
            forwarding_fee_base_msat: ldk_channel.forwarding_fee_base_msat,
            forwarding_fee_proportional_millionths: ldk_channel.forwarding_fee_proportional_millionths,
            max_dust_htlc_exposure: ldk_channel.max_dust_htlc_exposure,
            max_inbound_htlc_value_in_flight_percent: ldk_handshake.max_inbound_htlc_value_in_flight_percent_of_channel,
            our_max_accepted_htlcs: ldk_handshake.our_max_accepted_htlcs,
            max_minimum_depth: default_max_minimum_depth(),
        }
    }

    /// Minimum capacity for an RGB channel, derived from the HTLC minimum so the channel can always
    /// route at least ten minimum HTLCs.
    pub fn open_rgb_min_sat(&self) -> (r: u64)
        ensures
            r == rgb_channel_minimum(self.htlc_min_msat),
    {
        self.htlc_min_msat / 1000 * 10 + 10
    }

    /// Per-channel settings with the configured forwarding values applied.
    pub open spec fn config_of(self) -> ChannelConfig {
        ChannelConfig {
            forwarding_fee_proportional_millionths: self.forwarding_fee_proportional_millionths,
            forwarding_fee_base_msat: self.forwarding_fee_base_msat,
            cltv_expiry_delta: self.cltv_expiry_delta,
            max_dust_htlc_exposure: self.max_dust_htlc_exposure,
            ..ldk_channel_defaults()
        }
    }

    /// Per-channel settings with the configured forwarding values applied.
    pub fn channel_config(&self) -> (r: ChannelConfig)
        ensures
            r == self.config_of(),
    {
        let d = default_channel_config();
        ChannelConfig {
            forwarding_fee_proportional_millionths: self.forwarding_fee_proportional_millionths,
            forwarding_fee_base_msat: self.forwarding_fee_base_msat,
            cltv_expiry_delta: self.cltv_expiry_delta,
            max_dust_htlc_exposure: self.max_dust_htlc_exposure,
            force_close_avoidance_max_fee_satoshis: d.force_close_avoidance_max_fee_satoshis,
            accept_underpaying_htlcs: d.accept_underpaying_htlcs,
        }
    }
}

/// Ten whole satoshis of HTLC minimum, and ten satoshis more.
pub open spec fn rgb_channel_minimum(htlc_min_msat: u64) -> int {
    htlc_min_msat / 1000 * 10 + 10
}

impl Default for PaymentsSection {
    fn default() -> (r: Self)
        ensures
            r == default_payments(),
    {
        PaymentsSection {
            final_cltv_expiry_delta: DEFAULT_FINAL_CLTV_EXPIRY_DELTA,
            retry_timeout_secs: DEFAULT_PAYMENT_RETRY_TIMEOUT_SECS,
            max_swap_fee_msat: MAX_SWAP_FEE_MSAT,
        }
    }
}

impl Default for AuthSection {
    fn default() -> (r: Self)
        ensures
            r == default_auth(),
    {
        AuthSection {
            password_min_length: DEFAULT_PASSWORD_MIN_LENGTH,
        }
    }
}

impl Default for ApiSection {
    fn default() -> (r: Self)
        ensures
            r == default_api(),
    {
        ApiSection {
            default_page_size: DEFAULT_PAGE_SIZE,
        }
    }
}

// ---------------------------------------------------------------------------------------------
// Overlay
// ---------------------------------------------------------------------------------------------

/// A value of the file where there is one, else the value that stood before.
pub open spec fn chosen<T>(value: Option<T>, before: T) -> T {
    match value {
        Some(v) => v,
        None => before,
    }
}

/// Replaces `target` by the value of the file, where there is one.
pub fn apply<T: Copy>(target: &mut T, value: Option<T>)
    ensures
        *final(target) == chosen(value, *old(target)),
{
    if let Some(value) = value {
        *target = value;
    }
}

/// The node section after the file's `[node]` table, the addresses by their contents.
pub open spec fn overlaid_node(before: NodeSection, t: Option<TomlNode>, after: NodeSection) -> bool {
    match t {
        None => after == before,
        Some(t) => {
            &&& after.announce_alias == (if t.announce_alias is Some {
                t.announce_alias
            } else {
                before.announce_alias
            })
            &&& after.announce_addresses@ == (match t.announce_addresses {
                Some(a) => a@,
                None => before.announce_addresses@,
            })
            &&& after.peer_reconnect_interval_secs == chosen(
                t.peer_reconnect_interval_secs,
                before.peer_reconnect_interval_secs,
            )
            &&& after.announce_initial_delay_secs == chosen(
                t.announce_initial_delay_secs,
                before.announce_initial_delay_secs,
            )
            &&& after.announce_refresh_interval_secs == chosen(
                t.announce_refresh_interval_secs,
                before.announce_refresh_interval_secs,
            )
        },
    }
}

/// The chain section after the file's `[chain]` table.
pub open spec fn overlaid_chain(before: ChainSection, t: Option<TomlChain>) -> ChainSection {
    match t {
        None => before,
        Some(t) => ChainSection {
            indexer_url: if t.indexer_url is Some {
                t.indexer_url
            } else {
                before.indexer_url
            },
            proxy_endpoint: if t.proxy_endpoint is Some {
                t.proxy_endpoint
            } else {
                before.proxy_endpoint
            },
            indexer_timeout_secs: chosen(t.indexer_timeout_secs, before.indexer_timeout_secs),
            fee_refresh_interval_secs: chosen(
                t.fee_refresh_interval_secs,
                before.fee_refresh_interval_secs,
            ),
        },
    }
}

/// The gossip section after the file's `[gossip]` table.
pub open spec fn overlaid_gossip(before: GossipSection, t: Option<TomlGossip>) -> GossipSection {
    match t {
        None => before,
        Some(t) => GossipSection {
            rgs_sync_interval_secs: chosen(t.rgs_sync_interval_secs, before.rgs_sync_interval_secs),
            rgs_snapshot_max_size_mb: chosen(
                t.rgs_snapshot_max_size_mb,
                before.rgs_snapshot_max_size_mb,
            ),
            rgs_connect_timeout_secs: chosen(
                t.rgs_connect_timeout_secs,
                before.rgs_connect_timeout_secs,
            ),
            rgs_sync_timeout_secs: chosen(t.rgs_sync_timeout_secs, before.rgs_sync_timeout_secs),
        },
    }
}

/// The vss section after the file's `[vss]` table.
pub open spec fn overlaid_vss(before: VssSection, t: Option<TomlVss>) -> VssSection {
    match t {
        None => before,
        Some(t) => VssSection {
            retry_backoff_ms: chosen(t.retry_backoff_ms, before.retry_backoff_ms),
            retry_max_attempts: chosen(t.retry_max_attempts, before.retry_max_attempts),
            retry_max_total_delay_secs: chosen(
                t.retry_max_total_delay_secs,
                before.retry_max_total_delay_secs,
            ),
        },
    }
}

/// The lsp section after the file's `[lsp]` table.
pub open spec fn overlaid_lsp(before: LspSection, t: Option<TomlLsp>) -> LspSection {
    match t {
        None => before,
        Some(t) => LspSection {
            order_response_timeout_secs: chosen(
                t.order_response_timeout_secs,
                before.order_response_timeout_secs,
            ),
            request_timeout_secs: chosen(t.request_timeout_secs, before.request_timeout_secs),
        },
    }
}

/// The rgb section after the file's `[rgb]` table.
pub open spec fn overlaid_rgb(before: RgbSection, t: Option<TomlRgb>) -> RgbSection {
    match t {
        None => before,
        Some(t) => RgbSection {
            fee_rate_sat_vb: chosen(t.fee_rate_sat_vb, before.fee_rate_sat_vb),
            utxo_size_sat: chosen(t.utxo_size_sat, before.utxo_size_sat),
            utxo_num: chosen(t.utxo_num, before.utxo_num),
            min_channel_confirmations: chosen(
                t.min_channel_confirmations,
                before.min_channel_confirmations,
            ),
        },
    }
}

/// The channels section after the file's `[channels]` table.
pub open spec fn overlaid_channels(before: ChannelsSection, t: Option<TomlChannels>) -> ChannelsSection {
    match t {
        None => before,
        Some(t) => ChannelsSection {
            htlc_min_msat: chosen(t.htlc_min_msat, before.htlc_min_msat),
            virtual_htlc_min_msat: chosen(t.virtual_htlc_min_msat, before.virtual_htlc_min_msat),
            dust_limit_msat: chosen(t.dust_limit_msat, before.dust_limit_msat),
            open_min_sat: chosen(t.open_min_sat, before.open_min_sat),
            open_max_sat: chosen(t.open_max_sat, before.open_max_sat),
            open_min_rgb_amount: chosen(t.open_min_rgb_amount, before.open_min_rgb_amount),
            their_to_self_delay: chosen(t.their_to_self_delay, before.their_to_self_delay),
            accept_forwards_to_priv_channels: chosen(
                t.accept_forwards_to_priv_channels,
                before.accept_forwards_to_priv_channels,
            ),
            cltv_expiry_delta: chosen(t.cltv_expiry_delta, before.cltv_expiry_delta),
            our_to_self_delay: chosen(t.our_to_self_delay, before.our_to_self_delay),
            forwarding_fee_base_msat: chosen(
                t.forwarding_fee_base_msat,
                before.forwarding_fee_base_msat,
            ),
            forwarding_fee_proportional_millionths: chosen(
                t.forwarding_fee_proportional_millionths,
                before.forwarding_fee_proportional_millionths,
            ),
            max_dust_htlc_exposure: match (
                t.max_dust_htlc_exposure_multiplier,
                t.max_dust_htlc_exposure_fixed_msat,
            ) {
                (_, Some(m)) => DustExposure::FixedLimitMsat(m),
                (Some(m), None) => DustExposure::FeeRateMultiplier(m),
                (None, None) => before.max_dust_htlc_exposure,
            },
            max_inbound_htlc_value_in_flight_percent: chosen(
                t.max_inbound_htlc_value_in_flight_percent,
                before.max_inbound_htlc_value_in_flight_percent,
            ),
            our_max_accepted_htlcs: chosen(t.our_max_accepted_htlcs, before.our_max_accepted_htlcs),
            max_minimum_depth: chosen(t.max_minimum_depth, before.max_minimum_depth),
        },
    }
}

/// The payments section after the file's `[payments]` table.
pub open spec fn overlaid_payments(before: PaymentsSection, t: Option<TomlPayments>) -> PaymentsSection {
    match t {
        None => before,
        Some(t) => PaymentsSection {
            final_cltv_expiry_delta: chosen(
                t.final_cltv_expiry_delta,
                before.final_cltv_expiry_delta,
            ),
            retry_timeout_secs: chosen(t.retry_timeout_secs, before.retry_timeout_secs),
            max_swap_fee_msat: chosen(t.max_swap_fee_msat, before.max_swap_fee_msat),
        },
    }
}

/// The auth section after the file's `[auth]` table.
pub open spec fn overlaid_auth(before: AuthSection, t: Option<TomlAuth>) -> AuthSection {
    match t {
        None => before,
        Some(t) => AuthSection {
            password_min_length: chosen(t.password_min_length, before.password_min_length),
        },
    }
}

/// The api section after the file's `[api]` table.
pub open spec fn overlaid_api(before: ApiSection, t: Option<TomlApi>) -> ApiSection {
    match t {
        None => before,
        Some(t) => ApiSection {
            default_page_size: chosen(t.default_page_size, before.default_page_size),
        },
    }
}

impl NodeSection {
    /// Overlays the values of the file's `[node]` table.
    pub fn overlay(&mut self, t: &TomlNode)
        ensures
            overlaid_node(*old(self), Some(*t), *final(self)),
    {
        if t.announce_alias.is_some() {
            self.announce_alias = copy_opt(&t.announce_alias);
        }
        if let Some(addresses) = &t.announce_addresses {
            self.announce_addresses = copy_all(addresses);
        }
        apply(&mut self.peer_reconnect_interval_secs, t.peer_reconnect_interval_secs);
        apply(&mut self.announce_initial_delay_secs, t.announce_initial_delay_secs);
        apply(&mut self.announce_refresh_interval_secs, t.announce_refresh_interval_secs);
    }
}

impl ChainSection {
    /// Overlays the values of the file's `[chain]` table.
    pub fn overlay(&mut self, t: &TomlChain)
        ensures
            *final(self) == overlaid_chain(*old(self), Some(*t)),
    {
        if t.indexer_url.is_some() {
            self.indexer_url = copy_opt(&t.indexer_url);
        }
        if t.proxy_endpoint.is_some() {
            self.proxy_endpoint = copy_opt(&t.proxy_endpoint);
        }
        apply(&mut self.indexer_timeout_secs, t.indexer_timeout_secs);
        apply(&mut self.fee_refresh_interval_secs, t.fee_refresh_interval_secs);
    }
}

impl GossipSection {
    /// Overlays the values of the file's `[gossip]` table.
    pub fn overlay(&mut self, t: &TomlGossip)
        ensures
            *final(self) == overlaid_gossip(*old(self), Some(*t)),
    {
        apply(&mut self.rgs_sync_interval_secs, t.rgs_sync_interval_secs);
        apply(&mut self.rgs_snapshot_max_size_mb, t.rgs_snapshot_max_size_mb);
        apply(&mut self.rgs_connect_timeout_secs, t.rgs_connect_timeout_secs);
        apply(&mut self.rgs_sync_timeout_secs, t.rgs_sync_timeout_secs);
    }
}

impl VssSection {
    /// Overlays the values of the file's `[vss]` table.
    pub fn overlay(&mut self, t: &TomlVss)
        ensures
            *final(self) == overlaid_vss(*old(self), Some(*t)),
    {
        apply(&mut self.retry_backoff_ms, t.retry_backoff_ms);
        apply(&mut self.retry_max_attempts, t.retry_max_attempts);
        apply(&mut self.retry_max_total_delay_secs, t.retry_max_total_delay_secs);
    }
}

impl LspSection {
    /// Overlays the values of the file's `[lsp]` table.
    pub fn overlay(&mut self, t: &TomlLsp)
        ensures
            *final(self) == overlaid_lsp(*old(self), Some(*t)),
    {
        apply(&mut self.order_response_timeout_secs, t.order_response_timeout_secs);
        apply(&mut self.request_timeout_secs, t.request_timeout_secs);
    }
}

impl RgbSection {
    /// Overlays the values of the file's `[rgb]` table.
    pub fn overlay(&mut self, t: &TomlRgb)
        ensures
            *final(self) == overlaid_rgb(*old(self), Some(*t)),
    {
        apply(&mut self.fee_rate_sat_vb, t.fee_rate_sat_vb);
        apply(&mut self.utxo_size_sat, t.utxo_size_sat);
        apply(&mut self.utxo_num, t.utxo_num);
        apply(&mut self.min_channel_confirmations, t.min_channel_confirmations);
    }
}

impl ChannelsSection {
    /// Overlays the values of the file's `[channels]` table.
    pub fn overlay(&mut self, t: &TomlChannels)
        ensures
            *final(self) == overlaid_channels(*old(self), Some(*t)),
    {
        apply(&mut self.htlc_min_msat, t.htlc_min_msat);
        apply(&mut self.virtual_htlc_min_msat, t.virtual_htlc_min_msat);
        apply(&mut self.dust_limit_msat, t.dust_limit_msat);
        apply(&mut self.open_min_sat, t.open_min_sat);
        apply(&mut self.open_max_sat, t.open_max_sat);
        apply(&mut self.open_min_rgb_amount, t.open_min_rgb_amount);
        apply(&mut self.their_to_self_delay, t.their_to_self_delay);
        apply(&mut self.accept_forwards_to_priv_channels, t.accept_forwards_to_priv_channels);
        apply(&mut self.cltv_expiry_delta, t.cltv_expiry_delta);
        apply(&mut self.our_to_self_delay, t.our_to_self_delay);
        apply(&mut self.forwarding_fee_base_msat, t.forwarding_fee_base_msat);
        apply(&mut self.forwarding_fee_proportional_millionths, t.forwarding_fee_proportional_millionths);
        if let Some(multiplier) = t.max_dust_htlc_exposure_multiplier {
            self.max_dust_htlc_exposure = DustExposure::FeeRateMultiplier(multiplier);
        }
        if let Some(fixed_msat) = t.max_dust_htlc_exposure_fixed_msat {
            self.max_dust_htlc_exposure = DustExposure::FixedLimitMsat(fixed_msat);
        }
        apply(&mut self.max_inbound_htlc_value_in_flight_percent, t.max_inbound_htlc_value_in_flight_percent);
        apply(&mut self.our_max_accepted_htlcs, t.our_max_accepted_htlcs);
        apply(&mut self.max_minimum_depth, t.max_minimum_depth);
    }
}

impl PaymentsSection {
    /// Overlays the values of the file's `[payments]` table.
    pub fn overlay(&mut self, t: &TomlPayments)
        ensures
            *final(self) == overlaid_payments(*old(self), Some(*t)),
    {
        apply(&mut self.final_cltv_expiry_delta, t.final_cltv_expiry_delta);
        apply(&mut self.retry_timeout_secs, t.retry_timeout_secs);
        apply(&mut self.max_swap_fee_msat, t.max_swap_fee_msat);
    }
}

impl AuthSection {
    /// Overlays the values of the file's `[auth]` table.
    pub fn overlay(&mut self, t: &TomlAuth)
        ensures
            *final(self) == overlaid_auth(*old(self), Some(*t)),
    {
        apply(&mut self.password_min_length, t.password_min_length);
    }
}

impl ApiSection {
    /// Overlays the values of the file's `[api]` table.
    pub fn overlay(&mut self, t: &TomlApi)
        ensures
            *final(self) == overlaid_api(*old(self), Some(*t)),
    {
        apply(&mut self.default_page_size, t.default_page_size);
    }
}

impl Config {
    /// The settings of a node without a configuration file.
    pub fn defaults(core: CoreDefaults) -> (r: Self)
        ensures
            is_default(r, core),
    {
        Config {
            node: NodeSection::default(),
            chain: ChainSection::default(),
            gossip: GossipSection::default(),
            vss: VssSection::default(),
            lsp: LspSection::default(),
            rgb: RgbSection::defaults(core),
            channels: ChannelsSection::defaults(core),
            payments: PaymentsSection::default(),
            auth: AuthSection::default(),
            api: ApiSection::default(),
        }
    }

    /// Overlays the values of the file on the settings.
    pub fn apply_toml(&mut self, toml: &TomlConfig)
        ensures
            overlaid(*old(self), *toml, *final(self)),
    {
        if let Some(node) = &toml.node {
            self.node.overlay(node);
        }
        if let Some(chain) = &toml.chain {
            self.chain.overlay(chain);
        }
        if let Some(gossip) = &toml.gossip {
            self.gossip.overlay(gossip);
        }
        if let Some(vss) = &toml.vss {
            self.vss.overlay(vss);
        }
        if let Some(lsp) = &toml.lsp {
            self.lsp.overlay(lsp);
        }
        if let Some(rgb) = &toml.rgb {
            self.rgb.overlay(rgb);
        }
        if let Some(channels) = &toml.channels {
            self.channels.overlay(channels);
        }
        if let Some(payments) = &toml.payments {
            self.payments.overlay(payments);
        }
        if let Some(auth) = &toml.auth {
            self.auth.overlay(auth);
        }
        if let Some(api) = &toml.api {
            self.api.overlay(api);
        }
    }
}

/// Whether a configuration holds the built-in values only.
pub open spec fn is_default(c: Config, core: CoreDefaults) -> bool {
    &&& c.node.announce_alias is None
    &&& c.node.announce_addresses@.len() == 0
    &&& c.node.peer_reconnect_interval_secs == DEFAULT_PEER_RECONNECT_INTERVAL_SECS
    &&& c.node.announce_initial_delay_secs == DEFAULT_ANNOUNCE_INITIAL_DELAY_SECS
    &&& c.node.announce_refresh_interval_secs == DEFAULT_ANNOUNCE_REFRESH_INTERVAL_SECS
    &&& c.chain.indexer_url is None
    &&& c.chain.proxy_endpoint is None
    &&& c.chain.indexer_timeout_secs == DEFAULT_INDEXER_TIMEOUT_SECS
    &&& c.chain.fee_refresh_interval_secs == DEFAULT_FEE_REFRESH_INTERVAL_SECS
    &&& c.gossip == default_gossip()
    &&& c.vss == default_vss()
    &&& c.lsp == default_lsp()
    &&& c.rgb == default_rgb(core)
    &&& c.channels == default_channels(core)
    &&& c.payments == default_payments()
    &&& c.auth == default_auth()
    &&& c.api == default_api()
}

/// Whether `after` is `before` with every value of the file put over it.
pub open spec fn overlaid(before: Config, t: TomlConfig, after: Config) -> bool {
    &&& overlaid_node(before.node, t.node, after.node)
    &&& after.chain == overlaid_chain(before.chain, t.chain)
    &&& after.gossip == overlaid_gossip(before.gossip, t.gossip)
    &&& after.vss == overlaid_vss(before.vss, t.vss)
    &&& after.lsp == overlaid_lsp(before.lsp, t.lsp)
    &&& after.rgb == overlaid_rgb(before.rgb, t.rgb)
    &&& after.channels == overlaid_channels(before.channels, t.channels)
    &&& after.payments == overlaid_payments(before.payments, t.payments)
    &&& after.auth == overlaid_auth(before.auth, t.auth)
    &&& after.api == overlaid_api(before.api, t.api)
}

// ---------------------------------------------------------------------------------------------
// Validation
// ---------------------------------------------------------------------------------------------

/// The error for a setting that the node cannot work with.
pub fn invalid(msg: String) -> (r: AppError)
    ensures
        r == AppError::InvalidConfig(msg),
{
    AppError::InvalidConfig(msg)
}

/// What is said of a setting that may not be zero.
pub open spec fn not_zero(key: Seq<char>) -> Option<Seq<char>> {
    Some(key + " must be greater than 0"@)
}

/// Whether a check met the outcome that a specification expects: the message of the first
/// violation, or success where there is none.
pub open spec fn reports(r: Result<(), AppError>, violation: Option<Seq<char>>) -> bool {
    match violation {
        None => r is Ok,
        Some(message) => r matches Err(AppError::InvalidConfig(m)) && m@ == message,
    }
}

/// Refuses a zero.
pub fn nonzero(value: u64, key: &str) -> (r: Result<(), AppError>)
    ensures
        reports(r, if value == 0 { not_zero(key@) } else { None }),
{
    if value == 0 {
        return Err(invalid(join2(key, " must be greater than 0")));
    }
    Ok(())
}

/// The first complaint about the alias, the wallet's values and the channel minimums, if any.
pub open spec fn minimum_violation(c: Config) -> Option<Seq<char>> {
    if c.node.announce_alias is Some && encode_utf8(c.node.announce_alias->0@).len() > MAX_ALIAS_BYTES {
        Some("announce_alias cannot be longer than "@ + decimal(MAX_ALIAS_BYTES as nat) + " bytes"@)
    } else if c.rgb.fee_rate_sat_vb == 0 {
        not_zero("rgb.fee_rate_sat_vb"@)
    } else if c.rgb.utxo_size_sat == 0 {
        not_zero("rgb.utxo_size_sat"@)
    } else if c.rgb.utxo_num == 0 {
        not_zero("rgb.utxo_num"@)
    } else if c.rgb.min_channel_confirmations == 0 {
        not_zero("rgb.min_channel_confirmations"@)
    } else if c.channels.htlc_min_msat == 0 {
        not_zero("channels.htlc_min_msat"@)
    } else if c.channels.virtual_htlc_min_msat == 0 {
        not_zero("channels.virtual_htlc_min_msat"@)
    } else if c.channels.dust_limit_msat == 0 {
        not_zero("channels.dust_limit_msat"@)
    } else if c.channels.open_min_sat == 0 {
        not_zero("channels.open_min_sat"@)
    } else if c.channels.open_min_rgb_amount == 0 {
        not_zero("channels.open_min_rgb_amount"@)
    } else {
        None
    }
}

/// The first complaint about the channel ranges, if any.
pub open spec fn range_violation(c: Config) -> Option<Seq<char>> {
    let ch = c.channels;
    if ch.open_max_sat > MAX_CHANNEL_SAT {
        Some(
            "channels.open_max_sat cannot exceed the protocol limit of "@ + decimal(
                MAX_CHANNEL_SAT as nat,
            ) + " sats"@,
        )
    } else if ch.open_min_sat > ch.open_max_sat {
        Some(
            "channels.open_min_sat ("@ + decimal(ch.open_min_sat as nat)
                + ") cannot exceed channels.open_max_sat ("@ + decimal(ch.open_max_sat as nat)
                + ")"@,
        )
    } else if rgb_channel_minimum(ch.htlc_min_msat) > ch.open_max_sat {
        Some(
            "the RGB channel minimum derived from channels.htlc_min_msat ("@ + decimal(
                rgb_channel_minimum(ch.htlc_min_msat) as nat,
            ) + " sats) cannot exceed channels.open_max_sat ("@ + decimal(ch.open_max_sat as nat)
                + ")"@,
        )
    } else if !(1 <= ch.their_to_self_delay <= MAX_TO_SELF_DELAY) {
        Some(
            "channels.their_to_self_delay must be between 1 and "@ + decimal(
                MAX_TO_SELF_DELAY as nat,
            ),
        )
    } else if ch.cltv_expiry_delta < 48 {
        Some("channels.cltv_expiry_delta must be at least "@ + decimal(48))
    } else if !(144 <= ch.our_to_self_delay <= MAX_TO_SELF_DELAY) {
        Some(
            "channels.our_to_self_delay must be between "@ + decimal(144) + " and "@ + decimal(
                MAX_TO_SELF_DELAY as nat,
            ),
        )
    } else if ch.max_dust_htlc_exposure == DustExposure::FeeRateMultiplier(0) {
        Some("channels.max_dust_htlc_exposure_multiplier must be greater than 0"@)
    } else if ch.max_dust_htlc_exposure == DustExposure::FixedLimitMsat(0) {
        Some("channels.max_dust_htlc_exposure_fixed_msat must be greater than 0"@)
    } else if !(1 <= ch.max_inbound_htlc_value_in_flight_percent <= 100) {
        Some("channels.max_inbound_htlc_value_in_flight_percent must be between 1 and 100"@)
    } else if !(1 <= ch.our_max_accepted_htlcs <= MAX_ACCEPTED_HTLCS_CAP) {
        Some(
            "channels.our_max_accepted_htlcs must be between 1 and "@ + decimal(
                MAX_ACCEPTED_HTLCS_CAP as nat,
            ),
        )
    } else {
        None
    }
}

/// The first complaint about depths, timeouts and intervals, if any.
pub open spec fn interval_violation(c: Config) -> Option<Seq<char>> {
    if c.channels.max_minimum_depth == 0 {
        not_zero("channels.max_minimum_depth"@)
    } else if c.payments.final_cltv_expiry_delta == 0 {
        not_zero("payments.final_cltv_expiry_delta"@)
    } else if c.payments.retry_timeout_secs == 0 {
        not_zero("payments.retry_timeout_secs"@)
    } else if c.payments.max_swap_fee_msat == 0 {
        not_zero("payments.max_swap_fee_msat"@)
    } else if c.auth.password_min_length == 0 {
        not_zero("auth.password_min_length"@)
    } else if c.api.default_page_size == 0 {
        not_zero("api.default_page_size"@)
    } else if c.node.peer_reconnect_interval_secs == 0 {
        not_zero("node.peer_reconnect_interval_secs"@)
    } else if c.node.announce_refresh_interval_secs == 0 {
        not_zero("node.announce_refresh_interval_secs"@)
    } else if c.chain.indexer_timeout_secs == 0 {
        not_zero("chain.indexer_timeout_secs"@)
    } else if c.chain.fee_refresh_interval_secs == 0 {
        not_zero("chain.fee_refresh_interval_secs"@)
    } else if c.gossip.rgs_sync_interval_secs == 0 {
        not_zero("gossip.rgs_sync_interval_secs"@)
    } else if c.gossip.rgs_snapshot_max_size_mb == 0 {
        not_zero("gossip.rgs_snapshot_max_size_mb"@)
    } else if c.gossip.rgs_connect_timeout_secs == 0 {
        not_zero("gossip.rgs_connect_timeout_secs"@)
    } else if c.gossip.rgs_sync_timeout_secs == 0 {
        not_zero("gossip.rgs_sync_timeout_secs"@)
    } else if c.vss.retry_backoff_ms == 0 {
        not_zero("vss.retry_backoff_ms"@)
    } else if c.vss.retry_max_attempts == 0 {
        not_zero("vss.retry_max_attempts"@)
    } else if c.vss.retry_max_total_delay_secs == 0 {
        not_zero("vss.retry_max_total_delay_secs"@)
    } else if c.lsp.order_response_timeout_secs == 0 {
        not_zero("lsp.order_response_timeout_secs"@)
    } else if c.lsp.request_timeout_secs == 0 {
        not_zero("lsp.request_timeout_secs"@)
    } else {
        None
    }
}

/// The first complaint about a configuration, in the order in which the settings are looked at.
pub open spec fn violation(c: Config) -> Option<Seq<char>> {
    if minimum_violation(c) is Some {
        minimum_violation(c)
    } else if range_violation(c) is Some {
        range_violation(c)
    } else {
        interval_violation(c)
    }
}

impl Config {
    /// The values that a valid configuration may hold.
    pub open spec fn valid(self) -> bool {
        &&& self.node.announce_alias matches Some(alias) ==> encode_utf8(alias@).len()
            <= MAX_ALIAS_BYTES
        &&& self.rgb.fee_rate_sat_vb > 0
        &&& self.rgb.utxo_size_sat > 0
        &&& self.rgb.utxo_num > 0
        &&& self.rgb.min_channel_confirmations > 0
        &&& self.channels.htlc_min_msat > 0
        &&& self.channels.virtual_htlc_min_msat > 0
        &&& self.channels.dust_limit_msat > 0
        &&& self.channels.open_min_sat > 0
        &&& self.channels.open_min_rgb_amount > 0
        &&& self.channels.open_min_sat <= self.channels.open_max_sat <= MAX_CHANNEL_SAT
        &&& rgb_channel_minimum(self.channels.htlc_min_msat) <= self.channels.open_max_sat
        &&& 1 <= self.channels.their_to_self_delay <= MAX_TO_SELF_DELAY
        &&& 48 <= self.channels.cltv_expiry_delta
        &&& 144 <= self.channels.our_to_self_delay <= MAX_TO_SELF_DELAY
        &&& match self.channels.max_dust_htlc_exposure {
            DustExposure::FeeRateMultiplier(m) => m > 0,
            DustExposure::FixedLimitMsat(m) => m > 0,
        }
        &&& 1 <= self.channels.max_inbound_htlc_value_in_flight_percent <= 100
        &&& 1 <= self.channels.our_max_accepted_htlcs <= MAX_ACCEPTED_HTLCS_CAP
        &&& self.channels.max_minimum_depth > 0
        &&& self.payments.final_cltv_expiry_delta > 0
        &&& self.payments.retry_timeout_secs > 0
        &&& self.payments.max_swap_fee_msat > 0
        &&& self.auth.password_min_length > 0
        &&& self.api.default_page_size > 0
        &&& self.node.peer_reconnect_interval_secs > 0
        &&& self.node.announce_refresh_interval_secs > 0
        &&& self.chain.indexer_timeout_secs > 0
        &&& self.chain.fee_refresh_interval_secs > 0
        &&& self.gossip.rgs_sync_interval_secs > 0
        &&& self.gossip.rgs_snapshot_max_size_mb > 0
        &&& self.gossip.rgs_connect_timeout_secs > 0
        &&& self.gossip.rgs_sync_timeout_secs > 0
        &&& self.vss.retry_backoff_ms > 0
        &&& self.vss.retry_max_attempts > 0
        &&& self.vss.retry_max_total_delay_secs > 0
        &&& self.lsp.order_response_timeout_secs > 0
        &&& self.lsp.request_timeout_secs > 0
    }

    fn validate_minimums(&self) -> (r: Result<(), AppError>)
        ensures
            reports(r, minimum_violation(*self)),
    {
        if let Some(alias) = &self.node.announce_alias {
            if alias.as_str().as_bytes().len() > MAX_ALIAS_BYTES {
                return Err(
                    invalid(
                        join3(
                            "announce_alias cannot be longer than ",
                            number(MAX_ALIAS_BYTES as u64).as_str(),
                            " bytes",
                        ),
                    ),
                );
            }
        }
        nonzero(self.rgb.fee_rate_sat_vb, "rgb.fee_rate_sat_vb")?;
        nonzero(self.rgb.utxo_size_sat as u64, "rgb.utxo_size_sat")?;
        nonzero(self.rgb.utxo_num as u64, "rgb.utxo_num")?;
        nonzero(self.rgb.min_channel_confirmations as u64, "rgb.min_channel_confirmations")?;
        nonzero(self.channels.htlc_min_msat, "channels.htlc_min_msat")?;
        nonzero(self.channels.virtual_htlc_min_msat, "channels.virtual_htlc_min_msat")?;
        nonzero(self.channels.dust_limit_msat, "channels.dust_limit_msat")?;
        nonzero(self.channels.open_min_sat, "channels.open_min_sat")?;
        nonzero(self.channels.open_min_rgb_amount, "channels.open_min_rgb_amount")?;
        Ok(())
    }

    fn validate_ranges(&self) -> (r: Result<(), AppError>)
        ensures
            reports(r, range_violation(*self)),
    {
        if self.channels.open_max_sat > MAX_CHANNEL_SAT {
            return Err(
                invalid(
                    join3(
                        "channels.open_max_sat cannot exceed the protocol limit of ",
                        number(MAX_CHANNEL_SAT).as_str(),
                        " sats",
                    ),
                ),
            );
        }
        if self.channels.open_min_sat > self.channels.open_max_sat {
            return Err(
                invalid(
                    join5(
                        "channels.open_min_sat (",
                        number(self.channels.open_min_sat).as_str(),
                        ") cannot exceed channels.open_max_sat (",
                        number(self.channels.open_max_sat).as_str(),
                        ")",
                    ),
                ),
            );
        }
        let open_rgb_min_sat: u64 = self.channels.open_rgb_min_sat();
        if open_rgb_min_sat > self.channels.open_max_sat {
            return Err(
                invalid(
                    join5(
                        "the RGB channel minimum derived from channels.htlc_min_msat (",
                        number(open_rgb_min_sat).as_str(),
                        " sats) cannot exceed channels.open_max_sat (",
                        number(self.channels.open_max_sat).as_str(),
                        ")",
                    ),
                ),
            );
        }
        if self.channels.their_to_self_delay == 0 || self.channels.their_to_self_delay
            > MAX_TO_SELF_DELAY {
            return Err(
                invalid(
                    join2(
                        "channels.their_to_self_delay must be between 1 and ",
                        number(MAX_TO_SELF_DELAY as u64).as_str(),
                    ),
                ),
            );
        }
        let min_cltv: u16 = min_cltv_expiry_delta();
        if self.channels.cltv_expiry_delta < min_cltv {
            return Err(
                invalid(
                    join2(
                        "channels.cltv_expiry_delta must be at least ",
                        number(min_cltv as u64).as_str(),
                    ),
                ),
            );
        }
        let breakdown: u16 = breakdown_timeout();
        if self.channels.our_to_self_delay < breakdown || self.channels.our_to_self_delay
            > MAX_TO_SELF_DELAY {
            let mut msg = join3(
                "channels.our_to_self_delay must be between ",
                number(breakdown as u64).as_str(),
                " and ",
            );
            msg.append(number(MAX_TO_SELF_DELAY as u64).as_str());
            return Err(invalid(msg));
        }
        match self.channels.max_dust_htlc_exposure {
            DustExposure::FeeRateMultiplier(m) => {
                if m == 0 {
                    return Err(
                        invalid(
                            text(
                                "channels.max_dust_htlc_exposure_multiplier must be greater than 0",
                            ),
                        ),
                    );
                }
            },
            DustExposure::FixedLimitMsat(m) => {
                if m == 0 {
                    return Err(
                        invalid(
                            text(
                                "channels.max_dust_htlc_exposure_fixed_msat must be greater than 0",
                            ),
                        ),
                    );
                }
            },
        }
        if self.channels.max_inbound_htlc_value_in_flight_percent == 0
            || self.channels.max_inbound_htlc_value_in_flight_percent > 100 {
            return Err(
                invalid(
                    text(
                        "channels.max_inbound_htlc_value_in_flight_percent must be between 1 and 100",
                    ),
                ),
            );
        }
        if self.channels.our_max_accepted_htlcs == 0 || self.channels.our_max_accepted_htlcs
            > MAX_ACCEPTED_HTLCS_CAP {
            return Err(
                invalid(
                    join2(
                        "channels.our_max_accepted_htlcs must be between 1 and ",
                        number(MAX_ACCEPTED_HTLCS_CAP as u64).as_str(),
                    ),
                ),
            );
        }
        Ok(())
    }

    fn validate_intervals(&self) -> (r: Result<(), AppError>)
        ensures
            reports(r, interval_violation(*self)),
    {
        nonzero(self.channels.max_minimum_depth as u64, "channels.max_minimum_depth")?;
        nonzero(self.payments.final_cltv_expiry_delta as u64, "payments.final_cltv_expiry_delta")?;
        nonzero(self.payments.retry_timeout_secs, "payments.retry_timeout_secs")?;
        nonzero(self.payments.max_swap_fee_msat, "payments.max_swap_fee_msat")?;
        nonzero(self.auth.password_min_length as u64, "auth.password_min_length")?;
        nonzero(self.api.default_page_size, "api.default_page_size")?;
        nonzero(self.node.peer_reconnect_interval_secs, "node.peer_reconnect_interval_secs")?;
        nonzero(self.node.announce_refresh_interval_secs, "node.announce_refresh_interval_secs")?;
        nonzero(self.chain.indexer_timeout_secs, "chain.indexer_timeout_secs")?;
        nonzero(self.chain.fee_refresh_interval_secs, "chain.fee_refresh_interval_secs")?;
        nonzero(self.gossip.rgs_sync_interval_secs, "gossip.rgs_sync_interval_secs")?;
        nonzero(self.gossip.rgs_snapshot_max_size_mb, "gossip.rgs_snapshot_max_size_mb")?;
        nonzero(self.gossip.rgs_connect_timeout_secs, "gossip.rgs_connect_timeout_secs")?;
        nonzero(self.gossip.rgs_sync_timeout_secs, "gossip.rgs_sync_timeout_secs")?;
        nonzero(self.vss.retry_backoff_ms, "vss.retry_backoff_ms")?;
        nonzero(self.vss.retry_max_attempts as u64, "vss.retry_max_attempts")?;
        nonzero(self.vss.retry_max_total_delay_secs, "vss.retry_max_total_delay_secs")?;
        nonzero(self.lsp.order_response_timeout_secs, "lsp.order_response_timeout_secs")?;
        nonzero(self.lsp.request_timeout_secs, "lsp.request_timeout_secs")?;
        Ok(())
    }

    /// Checks every setting and reports the first one that the node cannot work with.
    pub fn validate(&self) -> (r: Result<(), AppError>)
        ensures
            reports(r, violation(*self)),
            r is Ok <==> self.valid(),
    {
        self.validate_minimums()?;
        self.validate_ranges()?;
        self.validate_intervals()?;
        Ok(())
    }
}

/// Whether the file sets the dust exposure in both ways at once.
pub open spec fn exposure_conflict(t: TomlConfig) -> bool {
    t.channels matches Some(ch) && ch.max_dust_htlc_exposure_multiplier is Some
        && ch.max_dust_htlc_exposure_fixed_msat is Some
}

/// What the settings of a file come to.
pub open spec fn is_loaded(
    toml: TomlConfig,
    core: CoreDefaults,
    r: Result<Config, AppError>,
) -> bool {
    &&& exposure_conflict(toml) ==> (r matches Err(AppError::InvalidConfig(m)) && m@
                == ("channels.max_dust_htlc_exposure_multiplier and "@
                + "channels.max_dust_htlc_exposure_fixed_msat are mutually exclusive"@))
    &&& !exposure_conflict(toml) ==> exists|before: Config, after: Config|
                {
                    &&& is_default(before, core)
                    &&& #[trigger] overlaid(before, toml, after)
                    &&& match r {
                        Ok(config) => config == after && after.valid(),
                        Err(AppError::InvalidConfig(m)) => violation(after) == Some(m@),
                    }
                }
}

impl Config {
    /// Overlays the file values on the defaults and validates the result.
    pub fn from_toml(toml: &TomlConfig, core: CoreDefaults) -> (r: Result<Self, AppError>)
        ensures
            is_loaded(*toml, core, r),
    {
        if let Some(channels) = &toml.channels {
            if channels.max_dust_htlc_exposure_multiplier.is_some()
                && channels.max_dust_htlc_exposure_fixed_msat.is_some() {
                return Err(
                    invalid(
                        join2(
                            "channels.max_dust_htlc_exposure_multiplier and ",
                            "channels.max_dust_htlc_exposure_fixed_msat are mutually exclusive",
                        ),
                    ),
                );
            }
        }
        let mut config = Config::defaults(core);
        let ghost before = config;
        config.apply_toml(toml);
        assert(overlaid(before, *toml, config));
        config.validate()?;
        Ok(config)
    }
}

// ---------------------------------------------------------------------------------------------
// Laws
// ---------------------------------------------------------------------------------------------

/// Without a configuration file the node runs with the built-in values: an empty file changes
/// nothing.
pub proof fn law_empty_file_changes_nothing(before: Config, t: TomlConfig, after: Config)
    requires
        overlaid(before, t, after),
        t.node is None,
        t.chain is None,
        t.gossip is None,
        t.vss is None,
        t.lsp is None,
        t.rgb is None,
        t.channels is None,
        t.payments is None,
        t.auth is None,
        t.api is None,
    ensures
        after == before,
{
}

/// The built-in values pass validation as long as the shared ones are not zero.
pub proof fn law_defaults_are_valid(c: Config, core: CoreDefaults)
    requires
        is_default(c, core),
        core.fee_rate_sat_vb > 0,
        core.utxo_size_sat > 0,
        core.min_channel_confirmations > 0,
        core.virtual_htlc_min_msat > 0,
    ensures
        c.valid(),
        violation(c) is None,
{
}

/// Overlaying the same file twice is overlaying it once.
pub proof fn law_overlay_is_idempotent(before: Config, t: TomlConfig, once: Config, twice: Config)
    requires
        overlaid(before, t, once),
        overlaid(once, t, twice),
    ensures
        twice.node.announce_alias == once.node.announce_alias,
        twice.node.announce_addresses@ == once.node.announce_addresses@,
        twice.node.peer_reconnect_interval_secs == once.node.peer_reconnect_interval_secs,
        twice.node.announce_initial_delay_secs == once.node.announce_initial_delay_secs,
        twice.node.announce_refresh_interval_secs == once.node.announce_refresh_interval_secs,
        twice.chain == once.chain,
        twice.gossip == once.gossip,
        twice.vss == once.vss,
        twice.lsp == once.lsp,
        twice.rgb == once.rgb,
        twice.channels == once.channels,
        twice.payments == once.payments,
        twice.auth == once.auth,
        twice.api == once.api,
{
}

/// A valid configuration always admits an RGB channel that can route ten minimum HTLCs.
pub proof fn law_valid_config_admits_rgb_channels(c: Config)
    requires
        c.valid(),
    ensures
        c.channels.open_max_sat * 1000 > 10 * c.channels.htlc_min_msat,
{
}

/// Every value that the file sets is the one that counts, in its own place; every value that it does not
/// set stays as it was.
pub proof fn law_file_values_count_and_nothing_else_changes(
    before: Config,
    t: TomlConfig,
    after: Config,
)
    requires
        overlaid(before, t, after),
    ensures
        t.node is None ==> after.node == before.node,
        t.node matches Some(f) ==> {
            &&& f.announce_alias matches Some(v) ==> after.node.announce_alias == Some(v)
            &&& f.announce_alias is None ==> after.node.announce_alias == before.node.announce_alias
            &&& f.announce_addresses matches Some(v) ==> after.node.announce_addresses@ == v@
            &&& f.announce_addresses is None ==> after.node.announce_addresses@ == before.node.announce_addresses@
            &&& f.peer_reconnect_interval_secs matches Some(v) ==> after.node.peer_reconnect_interval_secs == v
            &&& f.peer_reconnect_interval_secs is None ==> after.node.peer_reconnect_interval_secs == before.node.peer_reconnect_interval_secs
            &&& f.announce_initial_delay_secs matches Some(v) ==> after.node.announce_initial_delay_secs == v
            &&& f.announce_initial_delay_secs is None ==> after.node.announce_initial_delay_secs == before.node.announce_initial_delay_secs
            &&& f.announce_refresh_interval_secs matches Some(v) ==> after.node.announce_refresh_interval_secs == v
            &&& f.announce_refresh_interval_secs is None ==> after.node.announce_refresh_interval_secs == before.node.announce_refresh_interval_secs
        },
        t.chain is None ==> after.chain == before.chain,
        t.chain matches Some(f) ==> {
            &&& f.indexer_url matches Some(v) ==> after.chain.indexer_url == Some(v)
            &&& f.indexer_url is None ==> after.chain.indexer_url == before.chain.indexer_url
            &&& f.proxy_endpoint matches Some(v) ==> after.chain.proxy_endpoint == Some(v)
            &&& f.proxy_endpoint is None ==> after.chain.proxy_endpoint == before.chain.proxy_endpoint
            &&& f.indexer_timeout_secs matches Some(v) ==> after.chain.indexer_timeout_secs == v
            &&& f.indexer_timeout_secs is None ==> after.chain.indexer_timeout_secs == before.chain.indexer_timeout_secs
            &&& f.fee_refresh_interval_secs matches Some(v) ==> after.chain.fee_refresh_interval_secs == v
            &&& f.fee_refresh_interval_secs is None ==> after.chain.fee_refresh_interval_secs == before.chain.fee_refresh_interval_secs
        },
        t.gossip is None ==> after.gossip == before.gossip,
        t.gossip matches Some(f) ==> {
            &&& f.rgs_sync_interval_secs matches Some(v) ==> after.gossip.rgs_sync_interval_secs == v
            &&& f.rgs_sync_interval_secs is None ==> after.gossip.rgs_sync_interval_secs == before.gossip.rgs_sync_interval_secs
            &&& f.rgs_snapshot_max_size_mb matches Some(v) ==> after.gossip.rgs_snapshot_max_size_mb == v
            &&& f.rgs_snapshot_max_size_mb is None ==> after.gossip.rgs_snapshot_max_size_mb == before.gossip.rgs_snapshot_max_size_mb
            &&& f.rgs_connect_timeout_secs matches Some(v) ==> after.gossip.rgs_connect_timeout_secs == v
            &&& f.rgs_connect_timeout_secs is None ==> after.gossip.rgs_connect_timeout_secs == before.gossip.rgs_connect_timeout_secs
            &&& f.rgs_sync_timeout_secs matches Some(v) ==> after.gossip.rgs_sync_timeout_secs == v
            &&& f.rgs_sync_timeout_secs is None ==> after.gossip.rgs_sync_timeout_secs == before.gossip.rgs_sync_timeout_secs
        },
        t.vss is None ==> after.vss == before.vss,
        t.vss matches Some(f) ==> {
            &&& f.retry_backoff_ms matches Some(v) ==> after.vss.retry_backoff_ms == v
            &&& f.retry_backoff_ms is None ==> after.vss.retry_backoff_ms == before.vss.retry_backoff_ms
            &&& f.retry_max_attempts matches Some(v) ==> after.vss.retry_max_attempts == v
            &&& f.retry_max_attempts is None ==> after.vss.retry_max_attempts == before.vss.retry_max_attempts
            &&& f.retry_max_total_delay_secs matches Some(v) ==> after.vss.retry_max_total_delay_secs == v
            &&& f.retry_max_total_delay_secs is None ==> after.vss.retry_max_total_delay_secs == before.vss.retry_max_total_delay_secs
        },
        t.lsp is None ==> after.lsp == before.lsp,
        t.lsp matches Some(f) ==> {
            &&& f.order_response_timeout_secs matches Some(v) ==> after.lsp.order_response_timeout_secs == v
            &&& f.order_response_timeout_secs is None ==> after.lsp.order_response_timeout_secs == before.lsp.order_response_timeout_secs
            &&& f.request_timeout_secs matches Some(v) ==> after.lsp.request_timeout_secs == v
            &&& f.request_timeout_secs is None ==> after.lsp.request_timeout_secs == before.lsp.request_timeout_secs
        },
        t.rgb is None ==> after.rgb == before.rgb,
        t.rgb matches Some(f) ==> {
            &&& f.fee_rate_sat_vb matches Some(v) ==> after.rgb.fee_rate_sat_vb == v
            &&& f.fee_rate_sat_vb is None ==> after.rgb.fee_rate_sat_vb == before.rgb.fee_rate_sat_vb
            &&& f.utxo_size_sat matches Some(v) ==> after.rgb.utxo_size_sat == v
            &&& f.utxo_size_sat is None ==> after.rgb.utxo_size_sat == before.rgb.utxo_size_sat
            &&& f.utxo_num matches Some(v) ==> after.rgb.utxo_num == v
            &&& f.utxo_num is None ==> after.rgb.utxo_num == before.rgb.utxo_num
            &&& f.min_channel_confirmations matches Some(v) ==> after.rgb.min_channel_confirmations == v
            &&& f.min_channel_confirmations is None ==> after.rgb.min_channel_confirmations == before.rgb.min_channel_confirmations
        },
        t.channels is None ==> after.channels == before.channels,
        t.channels matches Some(f) ==> {
            &&& f.htlc_min_msat matches Some(v) ==> after.channels.htlc_min_msat == v
            &&& f.htlc_min_msat is None ==> after.channels.htlc_min_msat == before.channels.htlc_min_msat
            &&& f.virtual_htlc_min_msat matches Some(v) ==> after.channels.virtual_htlc_min_msat == v
            &&& f.virtual_htlc_min_msat is None ==> after.channels.virtual_htlc_min_msat == before.channels.virtual_htlc_min_msat
            &&& f.dust_limit_msat matches Some(v) ==> after.channels.dust_limit_msat == v
            &&& f.dust_limit_msat is None ==> after.channels.dust_limit_msat == before.channels.dust_limit_msat
            &&& f.open_min_sat matches Some(v) ==> after.channels.open_min_sat == v
            &&& f.open_min_sat is None ==> after.channels.open_min_sat == before.channels.open_min_sat
            &&& f.open_max_sat matches Some(v) ==> after.channels.open_max_sat == v
            &&& f.open_max_sat is None ==> after.channels.open_max_sat == before.channels.open_max_sat
            &&& f.open_min_rgb_amount matches Some(v) ==> after.channels.open_min_rgb_amount == v
            &&& f.open_min_rgb_amount is None ==> after.channels.open_min_rgb_amount == before.channels.open_min_rgb_amount
            &&& f.their_to_self_delay matches Some(v) ==> after.channels.their_to_self_delay == v
            &&& f.their_to_self_delay is None ==> after.channels.their_to_self_delay == before.channels.their_to_self_delay
            &&& f.accept_forwards_to_priv_channels matches Some(v) ==> after.channels.accept_forwards_to_priv_channels == v
            &&& f.accept_forwards_to_priv_channels is None ==> after.channels.accept_forwards_to_priv_channels == before.channels.accept_forwards_to_priv_channels
            &&& f.cltv_expiry_delta matches Some(v) ==> after.channels.cltv_expiry_delta == v
            &&& f.cltv_expiry_delta is None ==> after.channels.cltv_expiry_delta == before.channels.cltv_expiry_delta
            &&& f.our_to_self_delay matches Some(v) ==> after.channels.our_to_self_delay == v
            &&& f.our_to_self_delay is None ==> after.channels.our_to_self_delay == before.channels.our_to_self_delay
            &&& f.forwarding_fee_base_msat matches Some(v) ==> after.channels.forwarding_fee_base_msat == v
            &&& f.forwarding_fee_base_msat is None ==> after.channels.forwarding_fee_base_msat == before.channels.forwarding_fee_base_msat
            &&& f.forwarding_fee_proportional_millionths matches Some(v) ==> after.channels.forwarding_fee_proportional_millionths == v
            &&& f.forwarding_fee_proportional_millionths is None ==> after.channels.forwarding_fee_proportional_millionths == before.channels.forwarding_fee_proportional_millionths
            &&& f.max_dust_htlc_exposure_fixed_msat matches Some(v) ==> after.channels.max_dust_htlc_exposure
                == DustExposure::FixedLimitMsat(v)
            &&& f.max_dust_htlc_exposure_fixed_msat is None ==> (
            f.max_dust_htlc_exposure_multiplier matches Some(v) ==> after.channels.max_dust_htlc_exposure
                == DustExposure::FeeRateMultiplier(v))
            &&& f.max_dust_htlc_exposure_fixed_msat is None && f.max_dust_htlc_exposure_multiplier is None
                ==> after.channels.max_dust_htlc_exposure == before.channels.max_dust_htlc_exposure
            &&& f.max_inbound_htlc_value_in_flight_percent matches Some(v) ==> after.channels.max_inbound_htlc_value_in_flight_percent == v
            &&& f.max_inbound_htlc_value_in_flight_percent is None ==> after.channels.max_inbound_htlc_value_in_flight_percent == before.channels.max_inbound_htlc_value_in_flight_percent
            &&& f.our_max_accepted_htlcs matches Some(v) ==> after.channels.our_max_accepted_htlcs == v
            &&& f.our_max_accepted_htlcs is None ==> after.channels.our_max_accepted_htlcs == before.channels.our_max_accepted_htlcs
            &&& f.max_minimum_depth matches Some(v) ==> after.channels.max_minimum_depth == v
            &&& f.max_minimum_depth is None ==> after.channels.max_minimum_depth == before.channels.max_minimum_depth
        },
        t.payments is None ==> after.payments == before.payments,
        t.payments matches Some(f) ==> {
            &&& f.final_cltv_expiry_delta matches Some(v) ==> after.payments.final_cltv_expiry_delta == v
            &&& f.final_cltv_expiry_delta is None ==> after.payments.final_cltv_expiry_delta == before.payments.final_cltv_expiry_delta
            &&& f.retry_timeout_secs matches Some(v) ==> after.payments.retry_timeout_secs == v
            &&& f.retry_timeout_secs is None ==> after.payments.retry_timeout_secs == before.payments.retry_timeout_secs
            &&& f.max_swap_fee_msat matches Some(v) ==> after.payments.max_swap_fee_msat == v
            &&& f.max_swap_fee_msat is None ==> after.payments.max_swap_fee_msat == before.payments.max_swap_fee_msat
        },
        t.auth is None ==> after.auth == before.auth,
        t.auth matches Some(f) ==> {
            &&& f.password_min_length matches Some(v) ==> after.auth.password_min_length == v
            &&& f.password_min_length is None ==> after.auth.password_min_length == before.auth.password_min_length
        },
        t.api is None ==> after.api == before.api,
        t.api matches Some(f) ==> {
            &&& f.default_page_size matches Some(v) ==> after.api.default_page_size == v
            &&& f.default_page_size is None ==> after.api.default_page_size == before.api.default_page_size
        },
{
}

/// Without a file the node runs with the documented values.
pub proof fn law_built_in_values_are_the_documented_ones(c: Config, core: CoreDefaults)
    requires
        is_default(c, core),
    ensures
        c.node.announce_alias is None && c.node.announce_addresses@.len() == 0,
        c.node.peer_reconnect_interval_secs == 1 && c.node.announce_initial_delay_secs == 60
            && c.node.announce_refresh_interval_secs == 3600,
        c.chain.indexer_url is None && c.chain.proxy_endpoint is None && c.chain.indexer_timeout_secs
            == 10 && c.chain.fee_refresh_interval_secs == 60,
        c.gossip.rgs_sync_interval_secs == 3600 && c.gossip.rgs_snapshot_max_size_mb == 15
            && c.gossip.rgs_connect_timeout_secs == 5 && c.gossip.rgs_sync_timeout_secs == 60,
        c.vss.retry_backoff_ms == 100 && c.vss.retry_max_attempts == 3
            && c.vss.retry_max_total_delay_secs == 5,
        c.lsp.order_response_timeout_secs == 30 && c.lsp.request_timeout_secs == 25,
        c.rgb.fee_rate_sat_vb == core.fee_rate_sat_vb && c.rgb.utxo_size_sat == core.utxo_size_sat
            && c.rgb.utxo_num == 4 && c.rgb.min_channel_confirmations
            == core.min_channel_confirmations,
        c.channels.htlc_min_msat == 3_000_000 && c.channels.virtual_htlc_min_msat
            == core.virtual_htlc_min_msat && c.channels.dust_limit_msat == 546_000,
        c.channels.open_min_sat == 5506 && c.channels.open_max_sat == 16_777_215
            && c.channels.open_min_rgb_amount == 1,
        c.channels.their_to_self_delay == 2016 && c.channels.our_to_self_delay == 144
            && c.channels.cltv_expiry_delta == 72,
        !c.channels.accept_forwards_to_priv_channels,
        c.channels.forwarding_fee_base_msat == 1000
            && c.channels.forwarding_fee_proportional_millionths == 0,
        c.channels.max_dust_htlc_exposure == DustExposure::FeeRateMultiplier(10000),
        c.channels.max_inbound_htlc_value_in_flight_percent == 10 && c.channels.our_max_accepted_htlcs
            == 50 && c.channels.max_minimum_depth == 144,
        c.payments.final_cltv_expiry_delta == 14 && c.payments.retry_timeout_secs == 10
            && c.payments.max_swap_fee_msat == 3_000_000,
        c.auth.password_min_length == 8 && c.api.default_page_size == 100,
{
}

/// A configuration passes exactly where it raises no complaint; its channel values are then within what
/// the protocol and the Lightning library allow.
pub proof fn law_accepted_channel_settings_are_in_range(c: Config)
    ensures
        violation(c) is None <==> c.valid(),
        violation(c) is None ==> {
            let ch = c.channels;
            &&& 0 < ch.open_min_sat <= ch.open_max_sat < 0x100_0000
            &&& 1 <= ch.their_to_self_delay <= 2016
            &&& 144 <= ch.our_to_self_delay <= 2016
            &&& ch.cltv_expiry_delta >= 48
            &&& 1 <= ch.max_inbound_htlc_value_in_flight_percent <= 100
            &&& 1 <= ch.our_max_accepted_htlcs <= 483
            &&& ch.max_minimum_depth > 0 && ch.htlc_min_msat > 0 && ch.virtual_htlc_min_msat > 0
            &&& ch.dust_limit_msat > 0 && ch.open_min_rgb_amount > 0
            &&& ch.max_dust_htlc_exposure != DustExposure::FeeRateMultiplier(0)
            &&& ch.max_dust_htlc_exposure != DustExposure::FixedLimitMsat(0)
            &&& 10 * (ch.htlc_min_msat / 1000) + 10 <= ch.open_max_sat
        },
        violation(c) is None ==> {
            &&& c.rgb.fee_rate_sat_vb > 0 && c.rgb.utxo_size_sat > 0 && c.rgb.utxo_num > 0
                && c.rgb.min_channel_confirmations > 0
            &&& c.payments.final_cltv_expiry_delta > 0 && c.payments.retry_timeout_secs > 0
                && c.payments.max_swap_fee_msat > 0
            &&& c.auth.password_min_length > 0 && c.api.default_page_size > 0
            &&& c.node.peer_reconnect_interval_secs > 0 && c.node.announce_refresh_interval_secs > 0
            &&& c.chain.indexer_timeout_secs > 0 && c.chain.fee_refresh_interval_secs > 0
            &&& c.gossip.rgs_sync_interval_secs > 0 && c.gossip.rgs_snapshot_max_size_mb > 0
                && c.gossip.rgs_connect_timeout_secs > 0 && c.gossip.rgs_sync_timeout_secs > 0
            &&& c.vss.retry_backoff_ms > 0 && c.vss.retry_max_attempts > 0
                && c.vss.retry_max_total_delay_secs > 0
            &&& c.lsp.order_response_timeout_secs > 0 && c.lsp.request_timeout_secs > 0
            &&& c.node.announce_alias matches Some(alias) ==> encode_utf8(alias@).len() <= 32
        },
{
}

/// A setting at the edge of its range is accepted, and one beyond it is not: a valid configuration stays
/// valid as each value moves within its range, and only then.
pub proof fn law_ranges_end_where_they_say(c: Config, delay: u16, percent: u8, htlcs: u16, delta: u16)
    requires
        c.valid(),
    ensures
        (Config {
            channels: ChannelsSection { their_to_self_delay: delay, ..c.channels },
            ..c
        }).valid() <==> 1 <= delay <= 2016,
        (Config {
            channels: ChannelsSection { our_to_self_delay: delay, ..c.channels },
            ..c
        }).valid() <==> 144 <= delay <= 2016,
        (Config {
            channels: ChannelsSection {
                max_inbound_htlc_value_in_flight_percent: percent,
                ..c.channels
            },
            ..c
        }).valid() <==> 1 <= percent <= 100,
        (Config {
            channels: ChannelsSection { our_max_accepted_htlcs: htlcs, ..c.channels },
            ..c
        }).valid() <==> 1 <= htlcs <= 483,
        (Config {
            channels: ChannelsSection { cltv_expiry_delta: delta, ..c.channels },
            ..c
        }).valid() <==> delta >= 48,
{
}

/// The least RGB channel holds ten whole satoshis of the HTLC minimum, and ten satoshis.
pub proof fn law_rgb_channels_hold_ten_minimum_htlcs(htlc_min_msat: u64)
    ensures
        ({
            let r = rgb_channel_minimum(htlc_min_msat);
            &&& (r - 10) * 100 <= htlc_min_msat < (r - 10) * 100 + 1000
            &&& (r - 10) % 10 == 0
            &&& r * 1000 >= 10 * htlc_min_msat + 10
        }),
{
}

/// A channel gets the configured fees, delta and dust exposure, and the Lightning library's values for
/// the rest.
pub proof fn law_channels_use_the_configured_fees(s: ChannelsSection)
    ensures
        ({
            let r = s.config_of();
            &&& r.forwarding_fee_base_msat == s.forwarding_fee_base_msat
            &&& r.forwarding_fee_proportional_millionths == s.forwarding_fee_proportional_millionths
            &&& r.cltv_expiry_delta == s.cltv_expiry_delta
            &&& r.max_dust_htlc_exposure == s.max_dust_htlc_exposure
            &&& r.force_close_avoidance_max_fee_satoshis == 1000
            &&& !r.accept_underpaying_htlcs
        }),
{
}

/// A file is loaded only where it sets the dust exposure in one way at most and everything in it is
/// valid; what it sets then counts.
pub proof fn law_loaded_files_are_valid(
    toml: TomlConfig,
    core: CoreDefaults,
    r: Result<Config, AppError>,
)
    requires
        is_loaded(toml, core, r),
    ensures
        (toml.channels matches Some(ch) && ch.max_dust_htlc_exposure_multiplier is Some
            && ch.max_dust_htlc_exposure_fixed_msat is Some) ==> r is Err,
        r matches Ok(c) ==> c.valid(),
        r matches Ok(c) ==> (toml.rgb matches Some(t) ==> (t.fee_rate_sat_vb matches Some(v)
            ==> c.rgb.fee_rate_sat_vb == v)),
        r matches Ok(c) ==> (toml.rgb is None ==> c.rgb.fee_rate_sat_vb == core.fee_rate_sat_vb),
        r matches Ok(c) ==> (toml.channels is None ==> c.channels.htlc_min_msat == 3_000_000),
        r matches Ok(c) ==> (toml.channels matches Some(t) ==> (t.htlc_min_msat matches Some(v)
            ==> c.channels.htlc_min_msat == v)),
{
}

} // verus!
