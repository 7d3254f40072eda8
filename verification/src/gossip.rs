//! Where the network graph comes from.

use vstd::prelude::*;

verus! {

/// How often a gossip snapshot is fetched, in seconds.
pub const RGS_SYNC_INTERVAL_SECS: u64 = 60 * 60;

/// The largest snapshot that is accepted, in bytes.
pub const RGS_SNAPSHOT_MAX_SIZE: usize = 15 * 1024 * 1024;

/// How long a snapshot server may take to answer, in seconds.
pub const RGS_SYNC_TIMEOUT_SECS: u64 = 5;

/// The configured source of gossip.
#[derive(Clone, Debug, PartialEq, Eq)]
pub enum GossipSourceConfig {
    /// The peers of the node.
    P2PNetwork,
    /// Snapshots of a server.
    RapidGossipSync { server_url: String },
}

impl Default for GossipSourceConfig {
    fn default() -> (r: Self)
        ensures
            r == GossipSourceConfig::P2PNetwork,
    {
        GossipSourceConfig::P2PNetwork
    }
}

} // verus!
