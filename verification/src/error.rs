//! The errors that the node's logic reports.

use vstd::prelude::*;

use crate::network::BitcoinNetwork;

verus! {

/// Errors met while the application starts.
#[derive(Debug)]
pub enum AppError {
    /// The configuration file holds a value that the node cannot work with.
    InvalidConfig(String),
}

/// Errors of the RGB wallet.
#[derive(Clone, Debug, PartialEq, Eq)]
pub enum RgbLibError {
    /// The wallet, or the code around it, met a state that it cannot go on from.
    Internal { details: String },
    /// The indexer failed.
    Indexer { details: String },
    /// The configured indexer cannot be used.
    InvalidIndexer { details: String },
    /// The network failed.
    Network { details: String },
    /// A consignment failed validation.
    InvalidConsignment,
    /// A transaction ID cannot be parsed.
    InvalidTxid,
    /// Any other wallet error, by its message.
    Other { details: String },
}

/// An internal error whose details are the given characters.
pub open spec fn is_internal(e: RgbLibError, details: Seq<char>) -> bool {
    e matches RgbLibError::Internal { details: d } && d@ == details
}

/// An internal error.
pub fn internal(details: String) -> (r: RgbLibError)
    ensures
        is_internal(r, details@),
{
    RgbLibError::Internal { details }
}

/// An internal error that says what was being done and how it failed.
pub fn rgb_sender_funding_error(context: &str, error: &str) -> (r: RgbLibError)
    ensures
        is_internal(r, context@ + ": "@ + error@),
{
    internal(crate::text::join3(context, ": ", error))
}

/// Errors that the interface reports.
#[derive(Clone, Debug, PartialEq, Eq)]
pub enum APIError {
    /// The node is changing its state; the request may be repeated.
    ChangingState,
    /// The node is locked.
    LockedNode,
    /// The node is unlocked.
    UnlockedNode,
    /// Interrupted RGB funding must be recovered first; holds the funding transactions.
    RgbFundingRecoveryRequired(String),
    /// A contract cannot be imported.
    InvalidRgbContract(String),
    /// A consignment cannot be imported.
    InvalidRgbConsignment(String),
    /// An asset ID cannot be parsed.
    InvalidAssetID(String),
    /// Neither the request nor the configuration names an indexer.
    MissingIndexerUrl,
    /// A request cannot be served as it stands.
    InvalidRequest(String),
    /// The external signer cannot be reached.
    ExternalSignerUnavailable(String),
    /// The external signer does not follow the protocol.
    ExternalSignerProtocolError(String),
    /// The external signer is not the one that the node was set up with.
    ExternalSignerMismatch,
    /// The node has not been set up.
    NotInitialized,
    /// The temporary channel ID is in use.
    TemporaryChannelIdAlreadyUsed,
    /// The indexer cannot be used.
    InvalidIndexer(String),
    /// The RGB proxy cannot be used.
    InvalidProxyEndpoint,
    /// Bitcoind cannot be reached.
    FailedBitcoindConnection(String),
    /// The node and its bitcoind run on different networks: bitcoind's, then the node's.
    NetworkMismatch(String, BitcoinNetwork),
    /// Stored channel state cannot be loaded.
    FailedLoadingChannelState(String),
    /// An announced address cannot be parsed.
    InvalidAnnounceAddresses(String),
    /// The announced alias cannot be used.
    InvalidAnnounceAlias(String),
    /// The remote store cannot be set up.
    FailedVssInit(String),
    /// Something that should not happen.
    Unexpected(String),
    /// An error of the RGB wallet.
    Rgb(RgbLibError),
}

} // verus!
