//! The order in which the node starts.

use vstd::prelude::*;

use crate::error::APIError;

verus! {

/// A stage of the start.
#[derive(Clone, Copy, Debug, PartialEq, Eq, Structural)]
pub enum StartStage {
    /// Take the mnemonic, or admit the external signer.
    KeySource,
    /// Derive the identity at the remote store.
    VssIdentity,
    /// Open the remote store.
    VssStore,
    /// Take the fence of the remote store, which keeps other instances out.
    VssFence,
    /// Fetch the node's state where none is stored.
    VssRestore,
    /// Copy the stored settings to the store that the Lightning library reads.
    ConfigSync,
    /// Resolve the indexer and check it.
    Indexer,
    /// Check the RGB proxy, or take the default one.
    Proxy,
    /// Store the indexer and the network.
    SaveConfig,
    /// Connect to the chain.
    ChainBackend,
    /// Load the channel monitors and the channel manager.
    ChannelManager,
    /// Check that restored state is consistent.
    RestoreCheck,
    /// Gather the keys of the RGB wallet.
    WalletKeys,
    /// Fetch the RGB wallet where none is there.
    RgbRestore,
    /// Open the RGB wallet.
    RgbWallet,
    /// Store the wallet's identity.
    SaveWalletConfig,
    /// Seed the RGB wallet with what the node stored itself.
    Reimport,
    /// Load the output sweeper, and bring everything to the tip of the chain.
    ListenerSync,
    /// Recover interrupted fundings.
    FundingRecovery,
    /// Derive the root of the preimages for sleeping recipients.
    PreimageRoot,
    /// Start listening for peers.
    Peers,
    /// Follow the chain.
    ChainSync,
    /// Load payments, swaps and virtual channels.
    Records,
    /// Start processing events, and the other background tasks.
    Background,
    /// Check what the node announces.
    Announcement,
    /// Drop the restored channel manager locally after its state was found to be inconsistent, so that
    /// the next start fetches and checks it again.
    DropManager,
    /// Give the fence up after a failure.
    ReleaseFence,
    Running,
    Failed,
}

/// The stage after one that went well.
pub open spec fn following(stage: StartStage, vss: bool) -> StartStage {
    match stage {
        StartStage::KeySource => if vss {
            StartStage::VssIdentity
        } else {
            StartStage::ConfigSync
        },
        StartStage::VssIdentity => StartStage::VssStore,
        StartStage::VssStore => StartStage::VssFence,
        StartStage::VssFence => StartStage::VssRestore,
        StartStage::VssRestore => StartStage::ConfigSync,
        StartStage::ConfigSync => StartStage::Indexer,
        StartStage::Indexer => StartStage::Proxy,
        StartStage::Proxy => StartStage::SaveConfig,
        StartStage::SaveConfig => StartStage::ChainBackend,
        StartStage::ChainBackend => StartStage::ChannelManager,
        StartStage::ChannelManager => if vss {
            StartStage::RestoreCheck
        } else {
            StartStage::WalletKeys
        },
        StartStage::RestoreCheck => StartStage::WalletKeys,
        StartStage::WalletKeys => if vss {
            StartStage::RgbRestore
        } else {
            StartStage::RgbWallet
        },
        StartStage::RgbRestore => StartStage::RgbWallet,
        StartStage::RgbWallet => StartStage::SaveWalletConfig,
        StartStage::SaveWalletConfig => StartStage::Reimport,
        StartStage::Reimport => StartStage::ListenerSync,
        StartStage::ListenerSync => StartStage::FundingRecovery,
        StartStage::FundingRecovery => StartStage::PreimageRoot,
        StartStage::PreimageRoot => StartStage::Peers,
        StartStage::Peers => StartStage::ChainSync,
        StartStage::ChainSync => StartStage::Records,
        StartStage::Records => StartStage::Background,
        StartStage::Background => StartStage::Announcement,
        StartStage::Announcement => StartStage::Running,
        StartStage::DropManager => StartStage::ReleaseFence,
        StartStage::ReleaseFence => StartStage::Failed,
        StartStage::Running => StartStage::Running,
        StartStage::Failed => StartStage::Failed,
    }
}

/// What comes of a stage.
#[derive(Debug)]
pub enum StageOutcome {
    Done,
    /// The node's state was looked after: as many keys were fetched.
    Restored(usize),
    Failed(APIError),
}

/// Whether an outcome can be that of a stage: fetching the node's state says how many keys came.
pub open spec fn outcome_fits(stage: StartStage, outcome: StageOutcome) -> bool {
    outcome is Failed || (outcome is Restored <==> stage == StartStage::VssRestore)
}

/// A start of the node.
#[derive(Debug)]
pub struct Start {
    pub stage: StartStage,
    /// Whether the node keeps its state at a remote store.
    pub vss: bool,
    /// Whether the fence was taken and not given up.
    pub fence_held: bool,
    /// How many keys of the node's state were fetched from the remote store.
    pub restored_keys: usize,
    /// What failed.
    pub error: Option<APIError>,
}

/// What the outcome of a stage makes of a start.
pub open spec fn start_next(start: Start, outcome: StageOutcome) -> Start {
    if start.stage == StartStage::DropManager {
        Start { stage: StartStage::ReleaseFence, ..start }
    } else if start.stage == StartStage::ReleaseFence {
        Start { stage: StartStage::Failed, fence_held: false, ..start }
    } else {
        match outcome {
            StageOutcome::Failed(e) => Start {
                stage: if start.stage == StartStage::RestoreCheck {
                    StartStage::DropManager
                } else if start.fence_held {
                    StartStage::ReleaseFence
                } else {
                    StartStage::Failed
                },
                error: Some(e),
                ..start
            },
            _ => Start {
                stage: following(start.stage, start.vss),
                fence_held: start.fence_held || start.stage == StartStage::VssFence,
                restored_keys: match outcome {
                    StageOutcome::Restored(keys) if start.stage == StartStage::VssRestore => keys,
                    _ => start.restored_keys,
                },
                ..start
            },
        }
    }
}

/// What the outcomes of several stages make of a start.
pub open spec fn run(start: Start, outcomes: Seq<StageOutcome>) -> Start
    decreases outcomes.len(),
{
    if outcomes.len() == 0 {
        start
    } else {
        start_next(run(start, outcomes.drop_last()), outcomes.last())
    }
}

/// How far a start has got.
pub open spec fn rank(stage: StartStage) -> nat {
    match stage {
        StartStage::KeySource => 0,
        StartStage::VssIdentity => 1,
        StartStage::VssStore => 2,
        StartStage::VssFence => 3,
        StartStage::VssRestore => 4,
        StartStage::ConfigSync => 5,
        StartStage::Indexer => 6,
        StartStage::Proxy => 7,
        StartStage::SaveConfig => 8,
        StartStage::ChainBackend => 9,
        StartStage::ChannelManager => 10,
        StartStage::RestoreCheck => 11,
        StartStage::WalletKeys => 12,
        StartStage::RgbRestore => 13,
        StartStage::RgbWallet => 14,
        StartStage::SaveWalletConfig => 15,
        StartStage::Reimport => 16,
        StartStage::ListenerSync => 17,
        StartStage::FundingRecovery => 18,
        StartStage::PreimageRoot => 19,
        StartStage::Peers => 20,
        StartStage::ChainSync => 21,
        StartStage::Records => 22,
        StartStage::Background => 23,
        StartStage::Announcement => 24,
        StartStage::DropManager => 25,
        StartStage::ReleaseFence => 26,
        StartStage::Running => 27,
        StartStage::Failed => 27,
    }
}

impl Start {
    /// Whether the start is over.
    pub open spec fn is_over(self) -> bool {
        self.stage == StartStage::Running || self.stage == StartStage::Failed
    }

    /// What holds of every start: the fence is held exactly from its stage on, until it is given up,
    /// an error is recorded exactly after a failure, and no keys are fetched before their stage.
    pub open spec fn wf(self) -> bool {
        &&& self.fence_held <==> self.vss && 3 < rank(self.stage) && self.stage != StartStage::Failed
        &&& self.error is Some <==> self.stage == StartStage::DropManager || self.stage
            == StartStage::ReleaseFence || self.stage == StartStage::Failed
        &&& self.restored_keys != 0 ==> self.vss && 4 < rank(self.stage)
        &&& self.stage == StartStage::VssIdentity || self.stage == StartStage::VssStore
            || self.stage == StartStage::VssFence || self.stage == StartStage::VssRestore
            || self.stage == StartStage::RestoreCheck || self.stage == StartStage::RgbRestore
            || self.stage == StartStage::DropManager || self.stage == StartStage::ReleaseFence
            ==> self.vss
    }

    /// Begins a start.
    pub fn start_ldk(vss: bool) -> (r: Self)
        ensures
            r == (Start {
                stage: StartStage::KeySource,
                vss,
                fence_held: false,
                restored_keys: 0,
                error: None,
            }),
            r.wf(),
    {
        Start {
            stage: StartStage::KeySource,
            vss,
            fence_held: false,
            restored_keys: 0,
            error: None,
        }
    }

    /// Takes the outcome of a stage. After a failure the fence is given up, if it was taken, and the
    /// start ends with the error; restored state that is inconsistent is dropped before.
    pub fn advance(self, outcome: StageOutcome) -> (r: Self)
        requires
            self.wf(),
            !self.is_over(),
            outcome_fits(self.stage, outcome),
        ensures
            r.wf(),
            r == start_next(self, outcome),
    {
        let mut start = self;
        match start.stage {
            StartStage::DropManager => {
                start.stage = StartStage::ReleaseFence;
            },
            StartStage::ReleaseFence => {
                start.stage = StartStage::Failed;
                start.fence_held = false;
            },
            _ => match outcome {
                StageOutcome::Failed(e) => {
                    start.error = Some(e);
                    start.stage = match start.stage {
                        StartStage::RestoreCheck => StartStage::DropManager,
                        _ => if start.fence_held {
                            StartStage::ReleaseFence
                        } else {
                            StartStage::Failed
                        },
                    };
                },
                StageOutcome::Restored(keys) => {
                    start.restored_keys = keys;
                    start.stage = next_stage(start.stage, start.vss);
                },
                StageOutcome::Done => {
                    match start.stage {
                        StartStage::VssFence => {
                            start.fence_held = true;
                        },
                        _ => {},
                    }
                    start.stage = next_stage(start.stage, start.vss);
                },
            },
        }
        start
    }
}

fn next_stage(stage: StartStage, vss: bool) -> (r: StartStage)
    ensures
        r == following(stage, vss),
{
    match stage {
        StartStage::KeySource => if vss {
            StartStage::VssIdentity
        } else {
            StartStage::ConfigSync
        },
        StartStage::VssIdentity => StartStage::VssStore,
        StartStage::VssStore => StartStage::VssFence,
        StartStage::VssFence => StartStage::VssRestore,
        StartStage::VssRestore => StartStage::ConfigSync,
        StartStage::ConfigSync => StartStage::Indexer,
        StartStage::Indexer => StartStage::Proxy,
        StartStage::Proxy => StartStage::SaveConfig,
        StartStage::SaveConfig => StartStage::ChainBackend,
        StartStage::ChainBackend => StartStage::ChannelManager,
        StartStage::ChannelManager => if vss {
            StartStage::RestoreCheck
        } else {
            StartStage::WalletKeys
        },
        StartStage::RestoreCheck => StartStage::WalletKeys,
        StartStage::WalletKeys => if vss {
            StartStage::RgbRestore
        } else {
            StartStage::RgbWallet
        },
        StartStage::RgbRestore => StartStage::RgbWallet,
        StartStage::RgbWallet => StartStage::SaveWalletConfig,
        StartStage::SaveWalletConfig => StartStage::Reimport,
        StartStage::Reimport => StartStage::ListenerSync,
        StartStage::ListenerSync => StartStage::FundingRecovery,
        StartStage::FundingRecovery => StartStage::PreimageRoot,
        StartStage::PreimageRoot => StartStage::Peers,
        StartStage::Peers => StartStage::ChainSync,
        StartStage::ChainSync => StartStage::Records,
        StartStage::Records => StartStage::Background,
        StartStage::Background => StartStage::Announcement,
        StartStage::Announcement => StartStage::Running,
        StartStage::DropManager => StartStage::ReleaseFence,
        StartStage::ReleaseFence => StartStage::Failed,
        StartStage::Running => StartStage::Running,
        StartStage::Failed => StartStage::Failed,
    }
}

/// A start that failed never leaves the fence behind, one that succeeded with a remote store always
/// holds it.
pub proof fn law_failed_starts_give_the_fence_up(start: Start)
    requires
        start.wf(),
        start.is_over(),
    ensures
        start.stage == StartStage::Failed ==> !start.fence_held && start.error is Some,
        start.stage == StartStage::Running ==> start.fence_held == start.vss && start.error is None,
{
}

/// Every start comes to an end.
pub proof fn law_starts_come_to_an_end(start: Start, outcome: StageOutcome)
    requires
        start.wf(),
        !start.is_over(),
    ensures
        rank(start_next(start, outcome).stage) > rank(start.stage),
{
}

/// No peer is listened to before interrupted fundings have been recovered, and none are recovered
/// before restored state was found to be consistent.
pub proof fn law_recovery_comes_before_peers(start: Start, outcome: StageOutcome)
    requires
        start.wf(),
        !start.is_over(),
    ensures
        start_next(start, outcome).stage == StartStage::Peers ==> start.stage
            == StartStage::PreimageRoot && !(outcome is Failed),
        start_next(start, outcome).stage == StartStage::PreimageRoot ==> start.stage
            == StartStage::FundingRecovery && !(outcome is Failed),
        start_next(start, outcome).stage == StartStage::WalletKeys && start.vss ==> start.stage
            == StartStage::RestoreCheck && !(outcome is Failed),
{
}

/// A restored channel manager that was found to be inconsistent is dropped before the fence is given
/// up, and dropped for no other reason.
pub proof fn law_refused_managers_are_dropped(start: Start, outcome: StageOutcome)
    requires
        start.wf(),
        !start.is_over(),
    ensures
        start_next(start, outcome).stage == StartStage::DropManager <==> start.stage
            == StartStage::RestoreCheck && outcome is Failed,
        start.stage == StartStage::RestoreCheck ==> start_next(start, outcome).stage
            != StartStage::ReleaseFence,
        start.stage == StartStage::DropManager ==> start_next(start, outcome) == (Start {
            stage: StartStage::ReleaseFence,
            ..start
        }),
{
}

/// How many keys were fetched stays known for the rest of the start, whatever the stages come to.
pub proof fn law_fetched_keys_stay_known(start: Start, keys: usize, outcomes: Seq<StageOutcome>)
    requires
        start.stage == StartStage::VssRestore,
    ensures
        run(start_next(start, StageOutcome::Restored(keys)), outcomes).restored_keys == keys,
{
    lemma_keys_stay(start_next(start, StageOutcome::Restored(keys)), outcomes);
}

proof fn lemma_keys_stay(start: Start, outcomes: Seq<StageOutcome>)
    requires
        4 < rank(start.stage),
    ensures
        run(start, outcomes).restored_keys == start.restored_keys,
        4 < rank(run(start, outcomes).stage),
    decreases outcomes.len(),
{
    if outcomes.len() > 0 {
        lemma_keys_stay(start, outcomes.drop_last());
    }
}

/// A start skips no stage: each is entered only from the one before it, once that went well, and the
/// stages of a remote store are entered exactly where there is one.
pub proof fn law_starts_skip_no_stage(start: Start, outcome: StageOutcome)
    requires
        start.wf(),
        !start.is_over(),
        outcome_fits(start.stage, outcome),
    ensures
        ({
            let next = start_next(start, outcome);
            let from = start.stage;
            &&& !(next.stage is DropManager) && !(next.stage is ReleaseFence) && !(
            next.stage is Failed) ==> !(outcome is Failed)
            &&& !(next.stage is KeySource)
            &&& next.stage is VssIdentity <==> from is KeySource && start.vss && !(outcome is Failed)
            &&& next.stage is VssStore ==> from is VssIdentity
            &&& next.stage is VssFence ==> from is VssStore
            &&& next.stage is VssRestore ==> from is VssFence
            &&& next.stage is ConfigSync ==> if start.vss {
                from is VssRestore
            } else {
                from is KeySource
            }
            &&& next.stage is Indexer ==> from is ConfigSync
            &&& next.stage is Proxy ==> from is Indexer
            &&& next.stage is SaveConfig ==> from is Proxy
            &&& next.stage is ChainBackend ==> from is SaveConfig
            &&& next.stage is ChannelManager ==> from is ChainBackend
            &&& next.stage is RestoreCheck <==> from is ChannelManager && start.vss && !(
            outcome is Failed)
            &&& next.stage is WalletKeys ==> if start.vss {
                from is RestoreCheck
            } else {
                from is ChannelManager
            }
            &&& next.stage is RgbRestore <==> from is WalletKeys && start.vss && !(
            outcome is Failed)
            &&& next.stage is RgbWallet ==> if start.vss {
                from is RgbRestore
            } else {
                from is WalletKeys
            }
        }),
{
}

/// What follows the wallet is gone through one stage at a time as well: a node runs only after the last
/// of them.
pub proof fn law_running_nodes_went_through_every_stage(start: Start, outcome: StageOutcome)
    requires
        start.wf(),
        !start.is_over(),
        outcome_fits(start.stage, outcome),
    ensures
        ({
            let next = start_next(start, outcome).stage;
            let from = start.stage;
            &&& next is SaveWalletConfig ==> from is RgbWallet
            &&& next is Reimport ==> from is SaveWalletConfig
            &&& next is ListenerSync ==> from is Reimport
            &&& next is FundingRecovery ==> from is ListenerSync
            &&& next is PreimageRoot ==> from is FundingRecovery
            &&& next is Peers ==> from is PreimageRoot
            &&& next is ChainSync ==> from is Peers
            &&& next is Records ==> from is ChainSync
            &&& next is Background ==> from is Records
            &&& next is Announcement ==> from is Background
            &&& next is Running ==> from is Announcement && !(outcome is Failed)
        }),
{
}

/// A stage that failed ends the start with its error, and gives the fence up exactly where it is held;
/// one that went well goes on, and never records an error.
pub proof fn law_failures_end_the_start(start: Start, outcome: StageOutcome)
    requires
        start.wf(),
        !start.is_over(),
        outcome_fits(start.stage, outcome),
        !(start.stage is DropManager),
        !(start.stage is ReleaseFence),
    ensures
        ({
            let next = start_next(start, outcome);
            &&& outcome matches StageOutcome::Failed(e) ==> next.error == Some(e) && next.fence_held
                == start.fence_held && (next.stage is DropManager || next.stage is ReleaseFence
                || next.stage is Failed) && (next.stage is Failed <==> !start.fence_held)
            &&& !(outcome is Failed) ==> next.error is None && !(next.stage is DropManager) && !(
            next.stage is ReleaseFence) && !(next.stage is Failed)
            &&& next.vss == start.vss
            &&& next.fence_held && !start.fence_held ==> start.stage is VssFence
            &&& start.stage is VssFence && !(outcome is Failed) ==> next.fence_held
            &&& outcome matches StageOutcome::Restored(keys) ==> next.restored_keys == keys
            &&& !(outcome is Restored) ==> next.restored_keys == start.restored_keys
        }),
{
}

/// Giving the fence up ends the start, with the error that led to it.
pub proof fn law_released_fences_end_the_start(start: Start, outcome: StageOutcome)
    requires
        start.wf(),
        start.stage is DropManager || start.stage is ReleaseFence,
    ensures
        start_next(start, outcome).error == start.error,
        start.stage is DropManager ==> start_next(start, outcome).stage is ReleaseFence
            && start_next(start, outcome).fence_held,
        start.stage is ReleaseFence ==> start_next(start, outcome).stage is Failed && !start_next(
            start,
            outcome,
        ).fence_held,
{
}

} // verus!
