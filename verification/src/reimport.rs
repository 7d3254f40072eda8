//! Seeding a restored RGB wallet with the funding consignments and commitment transitions that the
//! node stored itself.

use vstd::prelude::*;
use vstd::string::*;
use vstd::utf8::encode_utf8;

use crate::recovery::{contains_id, listed};
use crate::text::{holds, holds_bytes, join2};

verus! {

/// What is to be done next.
#[derive(Clone, Copy, Debug, PartialEq, Eq, Structural)]
pub enum ReimportStep {
    /// Read the marker of a finished replay.
    ReadMarker,
    /// List the transactions whose consignments are stored.
    ListConsignments,
    /// List the assets that the wallet knows.
    ListAssets,
    /// Read and load the consignment of a transaction, by its place in the list.
    Load(usize),
    /// Have the wallet accept the consignment and save its asset.
    Import(usize),
    /// List the stored commitment transitions.
    ListFascias,
    /// Read a commitment transition and have the wallet consume it.
    Replay(usize),
    /// Write the marker of a finished replay.
    WriteMarker,
    Done,
}

/// What came of a step.
#[derive(Debug)]
pub enum ReimportReply {
    /// Whether the marker is there.
    Marker(bool),
    /// What was listed.
    Listed(Result<Vec<String>, String>),
    /// The contract of the consignment; nothing where it cannot be read or loaded.
    Loaded(Option<String>),
    /// Whether the import went through.
    Imported(bool),
    /// The transition was handed to the wallet, or could not be.
    Replayed,
    /// The marker was written, or could not be.
    Written,
}

/// A run over what is stored.
#[derive(Debug)]
pub struct Reimport {
    pub step: ReimportStep,
    /// Whether no replay has finished yet.
    pub replay_pending: bool,
    pub txids: Vec<String>,
    pub known: Vec<String>,
    /// Whether anything was imported in this run.
    pub imported_any: bool,
    pub fascias: Vec<String>,
}

/// Whether a reply answers a step.
pub open spec fn reimport_fits(step: ReimportStep, reply: ReimportReply) -> bool {
    match step {
        ReimportStep::ReadMarker => reply is Marker,
        ReimportStep::ListConsignments | ReimportStep::ListAssets | ReimportStep::ListFascias => reply is Listed,
        ReimportStep::Load(_) => reply is Loaded,
        ReimportStep::Import(_) => reply is Imported,
        ReimportStep::Replay(_) => reply is Replayed,
        ReimportStep::WriteMarker => reply is Written,
        ReimportStep::Done => false,
    }
}

/// The step after the consignment at a place.
pub open spec fn after_consignment(
    i: usize,
    txids: nat,
    imported_any: bool,
    replay_pending: bool,
) -> ReimportStep {
    if i + 1 < txids {
        ReimportStep::Load((i + 1) as usize)
    } else if imported_any || replay_pending {
        ReimportStep::ListFascias
    } else {
        ReimportStep::Done
    }
}

/// What a reply makes of a run.
pub open spec fn reimport_next(job: Reimport, reply: ReimportReply) -> Reimport {
    match (job.step, reply) {
        (ReimportStep::ReadMarker, ReimportReply::Marker(there)) => Reimport {
            step: ReimportStep::ListConsignments,
            replay_pending: !there,
            ..job
        },
        (ReimportStep::ListConsignments, ReimportReply::Listed(Ok(txids))) => Reimport {
            step: if txids@.len() == 0 {
                ReimportStep::WriteMarker
            } else {
                ReimportStep::ListAssets
            },
            txids,
            ..job
        },
        (ReimportStep::ListAssets, ReimportReply::Listed(Ok(known))) => Reimport {
            step: ReimportStep::Load(0),
            known,
            ..job
        },
        (ReimportStep::Load(i), ReimportReply::Loaded(contract)) => Reimport {
            step: if contract is Some && !listed(job.known@, contract->0@) {
                ReimportStep::Import(i)
            } else {
                after_consignment(i, job.txids@.len(), job.imported_any, job.replay_pending)
            },
            ..job
        },
        (ReimportStep::Import(i), ReimportReply::Imported(done)) => Reimport {
            step: after_consignment(
                i,
                job.txids@.len(),
                job.imported_any || done,
                job.replay_pending,
            ),
            imported_any: job.imported_any || done,
            ..job
        },
        (ReimportStep::ListFascias, ReimportReply::Listed(Ok(fascias))) => Reimport {
            step: if fascias@.len() == 0 {
                ReimportStep::WriteMarker
            } else {
                ReimportStep::Replay(0)
            },
            fascias,
            ..job
        },
        (ReimportStep::Replay(i), _) => Reimport {
            step: if i + 1 < job.fascias@.len() {
                ReimportStep::Replay((i + 1) as usize)
            } else {
                ReimportStep::WriteMarker
            },
            ..job
        },
        _ => Reimport { step: ReimportStep::Done, ..job },
    }
}

impl Reimport {
    /// The places that a run points at are in its lists.
    pub open spec fn wf(self) -> bool {
        &&& self.txids@.len() <= usize::MAX
        &&& self.fascias@.len() <= usize::MAX
        &&& match self.step {
            ReimportStep::Load(i) | ReimportStep::Import(i) => i < self.txids@.len(),
            ReimportStep::ListAssets => self.txids@.len() > 0,
            ReimportStep::Replay(i) => i < self.fascias@.len(),
            _ => true,
        }
    }

    /// How much of a run is left.
    pub open spec fn left(self) -> (nat, nat) {
        match self.step {
            ReimportStep::ReadMarker => (7, 0),
            ReimportStep::ListConsignments => (6, 0),
            ReimportStep::ListAssets => (5, 0),
            ReimportStep::Load(i) => (4, (2 * (self.txids@.len() - i)) as nat),
            ReimportStep::Import(i) => (4, (2 * (self.txids@.len() - i) - 1) as nat),
            ReimportStep::ListFascias => (3, 0),
            ReimportStep::Replay(i) => (2, (self.fascias@.len() - i) as nat),
            ReimportStep::WriteMarker => (1, 0),
            ReimportStep::Done => (0, 0),
        }
    }

    /// Starts a run: nothing is listed or imported, and a replay counts as pending until the marker
    /// was read.
    pub fn reimport_funding_consignments() -> (r: Self)
        ensures
            r.wf(),
            r.step == ReimportStep::ReadMarker,
            r.replay_pending,
            !r.imported_any,
            r.txids@.len() == 0,
            r.known@.len() == 0,
            r.fascias@.len() == 0,
    {
        Reimport {
            step: ReimportStep::ReadMarker,
            replay_pending: true,
            txids: Vec::new(),
            known: Vec::new(),
            imported_any: false,
            fascias: Vec::new(),
        }
    }

    /// Takes the reply to the step that was done. What cannot be listed ends the run, what cannot be
    /// read, loaded, imported or consumed is passed over.
    pub fn advance(self, reply: ReimportReply) -> (r: Self)
        requires
            self.wf(),
            reimport_fits(self.step, reply),
        ensures
            r.wf(),
            r == reimport_next(self, reply),
    {
        let mut job = self;
        let txids: usize = job.txids.len();
        let fascias: usize = job.fascias.len();
        match (job.step, reply) {
            (ReimportStep::ReadMarker, ReimportReply::Marker(there)) => {
                job.replay_pending = !there;
                job.step = ReimportStep::ListConsignments;
            },
            (ReimportStep::ListConsignments, ReimportReply::Listed(Ok(txids))) => {
                job.step = if txids.len() == 0 {
                    ReimportStep::WriteMarker
                } else {
                    ReimportStep::ListAssets
                };
                job.txids = txids;
            },
            (ReimportStep::ListAssets, ReimportReply::Listed(Ok(known))) => {
                job.step = ReimportStep::Load(0);
                job.known = known;
            },
            (ReimportStep::Load(i), ReimportReply::Loaded(contract)) => {
                let unknown = match contract {
                    Some(contract) => !contains_id(&job.known, contract.as_str()),
                    None => false,
                };
                job.step = if unknown {
                    ReimportStep::Import(i)
                } else {
                    step_after(i, txids, job.imported_any, job.replay_pending)
                };
            },
            (ReimportStep::Import(i), ReimportReply::Imported(done)) => {
                job.imported_any = job.imported_any || done;
                job.step = step_after(i, txids, job.imported_any, job.replay_pending);
            },
            (ReimportStep::ListFascias, ReimportReply::Listed(Ok(fascias))) => {
                job.step = if fascias.len() == 0 {
                    ReimportStep::WriteMarker
                } else {
                    ReimportStep::Replay(0)
                };
                job.fascias = fascias;
            },
            (ReimportStep::Replay(i), _) => {
                job.step = if i + 1 < fascias {
                    ReimportStep::Replay(i + 1)
                } else {
                    ReimportStep::WriteMarker
                };
            },
            _ => {
                job.step = ReimportStep::Done;
            },
        }
        job
    }
}

fn step_after(i: usize, txids: usize, imported_any: bool, replay_pending: bool) -> (r: ReimportStep)
    requires
        i < txids,
    ensures
        r == after_consignment(i, txids as nat, imported_any, replay_pending),
{
    if i + 1 < txids {
        ReimportStep::Load(i + 1)
    } else if imported_any || replay_pending {
        ReimportStep::ListFascias
    } else {
        ReimportStep::Done
    }
}

/// Where the stored consignment of a transaction is put for the wallet to accept, under the node's
/// data directory.
pub fn consignment_file(txid: &str) -> (r: String)
    ensures
        r@ == "reimport_consignment_"@ + txid@,
{
    join2("reimport_consignment_", txid)
}

/// Whether the error of saving an asset only says that it is saved already.
pub open spec fn is_saved_already(error: Seq<char>) -> bool {
    holds_bytes(encode_utf8(error), encode_utf8("UNIQUE constraint failed"@))
}

/// Whether a result is what an import comes to.
pub open spec fn is_import_outcome(saved: Result<(), String>, r: Result<(), String>) -> bool {
    match saved {
        Err(e) => if is_saved_already(e@) {
            r is Ok
        } else {
            r == saved
        },
        Ok(_) => r is Ok,
    }
}

/// What an import comes to once the wallet has accepted the consignment: an asset that is saved
/// already counts as imported.
pub fn import_outcome(saved: Result<(), String>) -> (r: Result<(), String>)
    ensures
        is_import_outcome(saved, r),
{
    match saved {
        Ok(()) => Ok(()),
        Err(e) => if holds(e.as_str(), "UNIQUE constraint failed") {
            Ok(())
        } else {
            Err(e)
        },
    }
}

/// The marker of a finished replay is only written where nothing was stored, or once every stored
/// transition has been handed to the wallet; a list that cannot be read never leads to it.
pub proof fn law_marker_follows_the_replay(job: Reimport, reply: ReimportReply)
    requires
        job.wf(),
        reimport_fits(job.step, reply),
        reimport_next(job, reply).step == ReimportStep::WriteMarker,
    ensures
        match job.step {
            ReimportStep::ListConsignments | ReimportStep::ListFascias => reply
                matches ReimportReply::Listed(Ok(keys)) && keys@.len() == 0,
            ReimportStep::Replay(i) => i + 1 == job.fascias@.len(),
            _ => false,
        },
{
}

/// What the wallet knows already is not imported again.
pub proof fn law_known_assets_are_left_alone(job: Reimport, reply: ReimportReply)
    requires
        job.wf(),
        reimport_fits(job.step, reply),
        reimport_next(job, reply).step is Import,
    ensures
        job.step is Load,
        reply matches ReimportReply::Loaded(Some(contract)) && !listed(
            job.known@,
            contract@,
        ),
{
}

/// Every stored transaction and transition gets its turn, in the order of the lists, and every run
/// comes to an end.
pub proof fn law_reimport_proceeds_in_order(job: Reimport, reply: ReimportReply)
    requires
        job.wf(),
        reimport_fits(job.step, reply),
    ensures
        ({
            let next = reimport_next(job, reply);
            &&& next.left().0 < job.left().0 || next.left().0 == job.left().0 && next.left().1
                < job.left().1
            &&& next.step matches ReimportStep::Load(j) ==> (j == 0 && job.step
                == ReimportStep::ListAssets) || (j > 0 && (job.step == ReimportStep::Load(
                (j - 1) as usize,
            ) || job.step == ReimportStep::Import((j - 1) as usize)))
            &&& next.step matches ReimportStep::Replay(j) ==> (j == 0 && job.step
                == ReimportStep::ListFascias) || (j > 0 && job.step == ReimportStep::Replay(
                (j - 1) as usize,
            ))
        }),
{
}

/// Every consignment that the wallet does not know the asset of is imported, and only a consignment that
/// could not be read is passed over.
pub proof fn law_unknown_assets_are_imported(job: Reimport, contract: String)
    requires
        job.wf(),
        job.step is Load,
    ensures
        (forall|k: int| 0 <= k < job.known@.len() ==> (#[trigger] job.known@[k])@ != contract@)
            ==> reimport_next(job, ReimportReply::Loaded(Some(contract))).step
            == ReimportStep::Import(job.step->Load_0),
        (exists|k: int| 0 <= k < job.known@.len() && (#[trigger] job.known@[k])@ == contract@)
            ==> !(reimport_next(job, ReimportReply::Loaded(Some(contract))).step is Import),
        !(reimport_next(job, ReimportReply::Loaded(None)).step is Import),
{
    if listed(job.known@, contract@) {
        let v = crate::text::views(job.known@);
        assert(v.contains(contract@));
        let k = choose|k: int| 0 <= k < v.len() && v[k] == contract@;
        assert(job.known@[k]@ == contract@);
    }
    if exists|k: int| 0 <= k < job.known@.len() && (#[trigger] job.known@[k])@ == contract@ {
        let k = choose|k: int| 0 <= k < job.known@.len() && (#[trigger] job.known@[k])@ == contract@;
        assert(crate::text::views(job.known@)[k] == contract@);
    }
}

/// After the consignment at a place comes the next one; after the last, the stored transitions are
/// replayed exactly where something was imported in this run or no replay has finished yet.
pub proof fn law_replays_follow_imports(job: Reimport, reply: ReimportReply)
    requires
        job.wf(),
        reimport_fits(job.step, reply),
        job.step is Load || job.step is Import,
        !(reimport_next(job, reply).step is Import),
    ensures
        ({
            let next = reimport_next(job, reply);
            let i = if job.step is Load {
                job.step->Load_0
            } else {
                job.step->Import_0
            };
            &&& i + 1 < job.txids@.len() ==> next.step == ReimportStep::Load((i + 1) as usize)
            &&& i + 1 == job.txids@.len() ==> (next.step == ReimportStep::ListFascias
                <==> next.imported_any || job.replay_pending)
            &&& i + 1 == job.txids@.len() ==> (next.step == ReimportStep::Done
                <==> !next.imported_any && !job.replay_pending)
            &&& next.imported_any <==> job.imported_any || reply == ReimportReply::Imported(true)
        }),
{
}

/// What was listed is what a run goes through, a replay is pending exactly where no marker was found, and
/// what cannot be listed ends the run.
pub proof fn law_runs_go_through_what_was_listed(job: Reimport, reply: ReimportReply)
    requires
        job.wf(),
        reimport_fits(job.step, reply),
    ensures
        ({
            let next = reimport_next(job, reply);
            &&& reply matches ReimportReply::Marker(there) ==> next.replay_pending == !there
                && next.step == ReimportStep::ListConsignments
            &&& !(reply is Marker) ==> next.replay_pending == job.replay_pending
            &&& (reply matches ReimportReply::Listed(Err(_))) ==> next.step == ReimportStep::Done
            &&& reply matches ReimportReply::Listed(Ok(list)) ==> {
                &&& job.step is ListConsignments ==> next.txids == list && next.step == (if list@.len()
                    > 0 {
                    ReimportStep::ListAssets
                } else {
                    ReimportStep::WriteMarker
                })
                &&& job.step is ListAssets ==> next.known == list && next.step
                    == ReimportStep::Load(0)
                &&& job.step is ListFascias ==> next.fascias == list && next.step == (if list@.len()
                    > 0 {
                    ReimportStep::Replay(0)
                } else {
                    ReimportStep::WriteMarker
                })
            }
            &&& !(job.step is ListConsignments) ==> next.txids == job.txids
            &&& !(job.step is ListAssets) ==> next.known == job.known
            &&& !(job.step is ListFascias) ==> next.fascias == job.fascias
            &&& job.step matches ReimportStep::Replay(i) ==> next.step == (if i + 1
                < job.fascias@.len() {
                ReimportStep::Replay((i + 1) as usize)
            } else {
                ReimportStep::WriteMarker
            })
        }),
{
}

/// An import only fails where the asset could not be saved, for another reason than that it is there, and
/// then with that reason.
pub proof fn law_saved_assets_count_as_imported(saved: Result<(), String>, r: Result<(), String>)
    requires
        is_import_outcome(saved, r),
    ensures
        saved is Ok ==> r is Ok,
        saved is Err && is_saved_already(saved->Err_0@) ==> r is Ok,
        r is Err ==> r == saved && !is_saved_already(saved->Err_0@),
        saved is Err && !is_saved_already(saved->Err_0@) ==> r is Err,
{
}

} // verus!
