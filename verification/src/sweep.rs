//! Sweeping the outputs of closed channels back to the wallet.

use std::collections::HashMap;

use vstd::pervasive::unreached;
use vstd::prelude::*;
use vstd::string::*;

use crate::psbt::{
    extract_tx, parse_psbt, psbt_extracted, psbt_summary, ExtractedView,
};
use crate::spending::{after_write, SpendingTxes};
use crate::text::{copy, decimal, join2, join3, join4, join5, number, same, text};

verus! {

/// How long a receive lasts that a sweep pays to.
pub const RGB_TRANSFER_CHAN_EXPIRATION_SECS: u64 = 86400;

/// How close to its expiry a cached receive is not used any more.
pub const RGB_RECEIVE_REUSE_MARGIN_SECS: u64 = 3600;

/// The same where addresses are reused: a new receive would get the recipient ID of the cached one,
/// and become ambiguous.
pub const RGB_RECEIVE_REUSE_MARGIN_ADDR_REUSE_SECS: u64 = 300;

/// How close to its expiry a cached receive is not used any more.
pub open spec fn reuse_margin(reuse_addresses: bool) -> u64 {
    if reuse_addresses {
        RGB_RECEIVE_REUSE_MARGIN_ADDR_REUSE_SECS
    } else {
        RGB_RECEIVE_REUSE_MARGIN_SECS
    }
}

/// Whether a cached receive lasts long enough to be used again.
pub fn sweep_receive_is_reusable(now: u64, expiration: u64, reuse_addresses: bool) -> (r: bool)
    requires
        now + reuse_margin(reuse_addresses) <= u64::MAX,
    ensures
        r == (now + reuse_margin(reuse_addresses) < expiration),
{
    let margin: u64 = if reuse_addresses {
        RGB_RECEIVE_REUSE_MARGIN_ADDR_REUSE_SECS
    } else {
        RGB_RECEIVE_REUSE_MARGIN_SECS
    };
    now + margin < expiration
}

/// A receive that may be used again may be used again where addresses are reused, and no receive may
/// be once it has expired.
pub proof fn law_reuse_margins(now: u64, expiration: u64)
    ensures
        now + reuse_margin(false) < expiration ==> now + reuse_margin(true) < expiration,
        forall|reuse: bool| now + #[trigger] reuse_margin(reuse) < expiration ==> now < expiration,
{
}

/// Why an output's amount cannot be told.
pub open spec fn absent_output(txid: Seq<char>, vout: u32) -> Seq<char> {
    "spendable output "@ + txid + ":"@ + decimal(vout as nat)
        + " absent from a non-empty transfer info map"@
}

/// The RGB amount that a spendable output carries.
///
/// An empty map belongs to a transaction without allocations. A map that lacks the output is an
/// error, so that the sweep is retried rather than paying a colored output out as plain BTC.
pub fn rgb_amount_for_spendable_output(
    output_map: &HashMap<u32, u64>,
    vout: u32,
    txid: &str,
) -> (r: Result<u64, String>)
    ensures
        output_map@.dom().contains(vout) ==> r == Ok::<u64, String>(output_map@[vout]),
        output_map@.len() == 0 ==> r == Ok::<u64, String>(0),
        output_map@.len() != 0 && !output_map@.dom().contains(vout) ==> (r matches Err(e) && e@
            == absent_output(txid@, vout)),
{
    broadcast use vstd::std_specs::hash::group_hash_axioms;

    match output_map.get(&vout) {
        Some(amt) => {
            assert(output_map@.len() != 0) by {
                if output_map@.len() == 0 {
                    assert(output_map@.dom() =~= Set::empty());
                }
            }
            Ok(*amt)
        },
        None => {
            if output_map.len() == 0 {
                Ok(0)
            } else {
                Err(
                    join5(
                        "spendable output ",
                        txid,
                        ":",
                        number(vout as u64).as_str(),
                        " absent from a non-empty transfer info map",
                    ),
                )
            }
        },
    }
}

// ---------------------------------------------------------------------------------------------
// What is kept between sweeps
// ---------------------------------------------------------------------------------------------

/// A receive that a sweep may pay to again.
#[derive(Debug)]
pub struct SweepRecipient {
    /// The hash of the outputs that are swept.
    pub descriptors: u64,
    pub contract_id: String,
    pub recipient_id: String,
    pub expiration: u64,
}

/// The receives of unfinished sweeps.
#[derive(Debug)]
pub struct SweepRecipients {
    pub entries: Vec<SweepRecipient>,
}

/// Whether an entry is that of the given outputs and asset.
pub open spec fn is_for(e: SweepRecipient, descriptors: u64, contract_id: Seq<char>) -> bool {
    e.descriptors == descriptors && e.contract_id@ == contract_id
}

/// The entry of the given outputs and asset.
pub open spec fn recipient_of(
    entries: Seq<SweepRecipient>,
    descriptors: u64,
    contract_id: Seq<char>,
) -> Option<SweepRecipient>
    decreases entries.len(),
{
    if entries.len() == 0 {
        None
    } else if is_for(entries.last(), descriptors, contract_id) {
        Some(entries.last())
    } else {
        recipient_of(entries.drop_last(), descriptors, contract_id)
    }
}

/// The entries without those of the given outputs and asset.
pub open spec fn without(
    entries: Seq<SweepRecipient>,
    descriptors: u64,
    contract_id: Seq<char>,
) -> Seq<SweepRecipient> {
    entries.filter(|e: SweepRecipient| !is_for(e, descriptors, contract_id))
}

/// What looking for a receive gives, and the entries that it leaves.
pub open spec fn looked_up(
    entries: Seq<SweepRecipient>,
    descriptors: u64,
    contract_id: Seq<char>,
    now: u64,
    reuse_addresses: bool,
) -> (Option<String>, Seq<SweepRecipient>) {
    match recipient_of(entries, descriptors, contract_id) {
        Some(e) => if now + reuse_margin(reuse_addresses) < e.expiration {
            (Some(e.recipient_id), entries)
        } else {
            (None, without(entries, descriptors, contract_id))
        },
        None => (None, entries),
    }
}

/// The entries after a receive was kept.
pub open spec fn remembered(
    entries: Seq<SweepRecipient>,
    descriptors: u64,
    contract_id: String,
    recipient_id: String,
    expiration: u64,
) -> Seq<SweepRecipient> {
    without(entries, descriptors, contract_id@).push(
        SweepRecipient { descriptors, contract_id, recipient_id, expiration },
    )
}

/// The entries after a sweep was done.
pub open spec fn completed(entries: Seq<SweepRecipient>, descriptors: u64) -> Seq<SweepRecipient> {
    entries.filter(|e: SweepRecipient| e.descriptors != descriptors)
}

impl SweepRecipients {
    pub fn new() -> (r: Self)
        ensures
            r.entries@.len() == 0,
    {
        SweepRecipients { entries: Vec::new() }
    }

    fn find(&self, descriptors: u64, contract_id: &str) -> (r: Option<usize>)
        ensures
            match r {
                Some(i) => i < self.entries@.len() && recipient_of(
                    self.entries@,
                    descriptors,
                    contract_id@,
                ) == Some(self.entries@[i as int]),
                None => recipient_of(self.entries@, descriptors, contract_id@) is None,
            },
    {
        let mut i: usize = self.entries.len();
        assert(self.entries@.take(i as int) =~= self.entries@);
        while i > 0
            invariant
                i <= self.entries@.len(),
                recipient_of(self.entries@, descriptors, contract_id@) == recipient_of(
                    self.entries@.take(i as int),
                    descriptors,
                    contract_id@,
                ),
            decreases i,
        {
            assert(self.entries@.take(i as int).last() == self.entries@[i - 1]);
            assert(self.entries@.take(i as int).drop_last() =~= self.entries@.take(i - 1));
            if self.entries[i - 1].descriptors == descriptors && same(
                self.entries[i - 1].contract_id.as_str(),
                contract_id,
            ) {
                return Some(i - 1);
            }
            i = i - 1;
        }
        None
    }

    fn forget(&mut self, descriptors: u64, contract_id: &str)
        ensures
            final(self).entries@ == without(old(self).entries@, descriptors, contract_id@),
    {
        reveal(Seq::filter);
        let ghost all = self.entries@;
        let ghost keeps = |e: SweepRecipient| !is_for(e, descriptors, contract_id@);
        let mut kept: Vec<SweepRecipient> = Vec::new();
        let mut rest: Vec<SweepRecipient> = Vec::new();
        std::mem::swap(&mut rest, &mut self.entries);
        let ghost mut seen = Seq::<SweepRecipient>::empty();
        while rest.len() > 0
            invariant
                keeps == (|e: SweepRecipient| !is_for(e, descriptors, contract_id@)),
                seen + rest@ =~= all,
                kept@ == seen.filter(keeps),
            decreases rest@.len(),
        {
            reveal(Seq::filter);
            let ghost before = rest@;
            let e = rest.remove(0);
            assert(seen + before =~= seen.push(e) + rest@);
            let ghost longer = seen.push(e);
            assert(longer.drop_last() =~= seen);
            if !(e.descriptors == descriptors && same(e.contract_id.as_str(), contract_id)) {
                kept.push(e);
            }
            proof {
                seen = longer;
            }
        }
        assert(seen =~= all);
        self.entries = kept;
    }

    /// The receive to pay to, if one is kept that lasts long enough; one that does not is dropped.
    pub fn reusable(
        &mut self,
        descriptors: u64,
        contract_id: &str,
        now: u64,
        reuse_addresses: bool,
    ) -> (r: Option<String>)
        requires
            now + reuse_margin(reuse_addresses) <= u64::MAX,
        ensures
            (r, final(self).entries@) == looked_up(
                old(self).entries@,
                descriptors,
                contract_id@,
                now,
                reuse_addresses,
            ),
    {
        match self.find(descriptors, contract_id) {
            Some(i) => {
                if sweep_receive_is_reusable(now, self.entries[i].expiration, reuse_addresses) {
                    Some(copy(&self.entries[i].recipient_id))
                } else {
                    self.forget(descriptors, contract_id);
                    None
                }
            },
            None => None,
        }
    }

    /// Keeps a new receive.
    pub fn remember(
        &mut self,
        descriptors: u64,
        contract_id: String,
        recipient_id: String,
        expiration: u64,
    )
        ensures
            final(self).entries@ == remembered(
                old(self).entries@,
                descriptors,
                contract_id,
                recipient_id,
                expiration,
            ),
    {
        self.forget(descriptors, contract_id.as_str());
        self.entries.push(SweepRecipient { descriptors, contract_id, recipient_id, expiration });
    }

    /// Drops the receives of a sweep that is done.
    pub fn complete(&mut self, descriptors: u64)
        ensures
            final(self).entries@ == completed(old(self).entries@, descriptors),
    {
        reveal(Seq::filter);
        let ghost all = self.entries@;
        let ghost keeps = |e: SweepRecipient| e.descriptors != descriptors;
        let mut kept: Vec<SweepRecipient> = Vec::new();
        let mut rest: Vec<SweepRecipient> = Vec::new();
        std::mem::swap(&mut rest, &mut self.entries);
        let ghost mut seen = Seq::<SweepRecipient>::empty();
        while rest.len() > 0
            invariant
                keeps == (|e: SweepRecipient| e.descriptors != descriptors),
                seen + rest@ =~= all,
                kept@ == seen.filter(keeps),
            decreases rest@.len(),
        {
            reveal(Seq::filter);
            let ghost before = rest@;
            let e = rest.remove(0);
            assert(seen + before =~= seen.push(e) + rest@);
            let ghost longer = seen.push(e);
            assert(longer.drop_last() =~= seen);
            if e.descriptors != descriptors {
                kept.push(e);
            }
            proof {
                seen = longer;
            }
        }
        assert(seen =~= all);
        self.entries = kept;
    }
}

// ---------------------------------------------------------------------------------------------
// One sweep
// ---------------------------------------------------------------------------------------------

/// An output that is swept.
#[derive(Debug, PartialEq, Eq)]
pub struct SweepOutpoint {
    pub txid: String,
    pub index: u16,
}

/// An asset that the swept outputs carry, and the output that it goes to.
#[derive(Debug, PartialEq, Eq)]
pub struct SweepAsset {
    pub contract_id: String,
    pub vout: u32,
    pub amount: u64,
    pub recipient_id: String,
}

/// The signed transaction, and the assets whose consignments are handed to the wallet.
#[derive(Debug)]
pub struct SignedSweep {
    pub txid: String,
    pub tx: Vec<u8>,
    pub contract_ids: Vec<String>,
}

/// Where a sweep stands: the effect that comes next, or how it ended.
#[derive(Debug)]
pub enum SweepStage {
    /// Reads the transfer of the output's transaction.
    ReadInfo,
    ReadHeight { contract_id: String, amount: u64 },
    UpdateWitnesses { contract_id: String, amount: u64, height: u32 },
    /// Looks for a kept receive.
    FindRecipient { contract_id: String, amount: u64 },
    /// Asks the wallet for a new receive, for any assignment, without endpoints or confirmations.
    Receive { contract_id: String, amount: u64, expiration: u64 },
    /// Adds an output of the dust limit to the script of the recipient.
    AddOutput { contract_id: String, amount: u64, recipient_id: String },
    /// Spends the outputs as plain BTC.
    SpendVanilla,
    /// Builds the unsigned transaction.
    CreatePsbt,
    /// Colors it: each asset's amount goes to its output.
    Color(String),
    Sign { psbt: String, contract_ids: Vec<String> },
    SaveConsignment { sweep: SignedSweep, k: usize },
    ProvideConsignment { sweep: SignedSweep, k: usize },
    RemoveConsignment { sweep: SignedSweep, k: usize },
    /// Writes the transaction to the store, before it is handed out.
    Persist(SignedSweep),
    Finished(Result<Vec<u8>, String>),
}

/// What the caller got back.
#[derive(Debug)]
pub enum SweepReply {
    Done,
    Failed(String),
    WorkerFailed(String),
    /// There is no transfer.
    NoInfo,
    Undecodable(String),
    Info { contract_id: String, output_map: HashMap<u32, u64> },
    Height(Option<u32>),
    /// The transaction ID cannot be handed to the wallet.
    BadWitness(String),
    /// The witnesses that could not be updated, if any.
    Witnesses(Option<String>),
    Recipient { kept: Option<String>, now: u64 },
    Received(String),
    /// Whether the recipient has a script; an output to it was added if so.
    Script(bool),
    /// The plain transaction, if it could be made.
    Tx(Option<Vec<u8>>),
    /// The unsigned transaction, if it could be made.
    Psbt(Option<String>),
    ConvertFailed(String),
    Colored { psbt: String, contract_ids: Vec<String> },
    Signed(String),
}

/// A sweep in progress.
#[derive(Debug)]
pub struct Sweep {
    pub outpoints: Vec<SweepOutpoint>,
    pub pos: usize,
    pub assets: Vec<SweepAsset>,
    pub stage: SweepStage,
}

/// The place of an asset among those found so far.
pub open spec fn asset_place(assets: Seq<SweepAsset>, contract_id: Seq<char>) -> Option<int>
    decreases assets.len(),
{
    if assets.len() == 0 {
        None
    } else if assets.last().contract_id@ == contract_id {
        Some(assets.len() - 1)
    } else {
        asset_place(assets.drop_last(), contract_id)
    }
}

/// The amount of an asset found so far.
pub open spec fn asset_total(assets: Seq<SweepAsset>, contract_id: Seq<char>) -> int {
    match asset_place(assets, contract_id) {
        Some(i) => assets[i].amount as int,
        None => 0,
    }
}

/// Each asset has one entry, and goes to the output of its own place.
pub open spec fn assets_wf(assets: Seq<SweepAsset>) -> bool {
    &&& forall|i: int| 0 <= i < assets.len() ==> (#[trigger] assets[i]).vout == i
    &&& forall|i: int, j: int|
        0 <= i < j < assets.len() ==> (#[trigger] assets[i]).contract_id@ != (
        #[trigger] assets[j]).contract_id@
}

impl Sweep {
    pub open spec fn wf(self) -> bool {
        &&& self.outpoints@.len() <= u32::MAX
        &&& self.assets@.len() <= self.pos <= self.outpoints@.len()
        &&& assets_wf(self.assets@)
        &&& match self.stage {
            SweepStage::ReadInfo
            | SweepStage::ReadHeight { .. }
            | SweepStage::UpdateWitnesses { .. } => self.pos < self.outpoints@.len(),
            SweepStage::FindRecipient { contract_id, .. } => self.pos < self.outpoints@.len()
                && asset_place(self.assets@, contract_id@) is None,
            SweepStage::Receive { contract_id, .. } => self.pos < self.outpoints@.len()
                && asset_place(self.assets@, contract_id@) is None,
            SweepStage::AddOutput { contract_id, .. } => self.pos < self.outpoints@.len()
                && asset_place(self.assets@, contract_id@) is None,
            SweepStage::SaveConsignment { sweep, k } => k < sweep.contract_ids@.len(),
            SweepStage::ProvideConsignment { sweep, k } => k < sweep.contract_ids@.len(),
            SweepStage::RemoveConsignment { sweep, k } => k < sweep.contract_ids@.len(),
            _ => true,
        }
    }

    pub open spec fn txid(self) -> Seq<char> {
        self.outpoints@[self.pos as int].txid@
    }
}

/// Whether a reply answers the effect of a stage. Amounts of one asset add up, and clocks leave room
/// for an expiration.
pub open spec fn sweep_fits(job: Sweep, reply: SweepReply) -> bool {
    match job.stage {
        SweepStage::ReadInfo => reply is NoInfo || reply is Undecodable || reply is Info,
        SweepStage::ReadHeight { .. } => reply is Height || reply is Failed,
        SweepStage::UpdateWitnesses { contract_id, amount, .. } => (reply is Witnesses
            || reply is BadWitness || reply is Failed) && asset_total(job.assets@, contract_id@)
            + amount <= u64::MAX,
        SweepStage::FindRecipient { .. } => reply matches SweepReply::Recipient { now, .. } && now
            + RGB_TRANSFER_CHAN_EXPIRATION_SECS <= u64::MAX,
        SweepStage::Receive { .. } => reply is Received || reply is Failed,
        SweepStage::AddOutput { .. } => reply is Script || reply is Failed,
        SweepStage::SpendVanilla => reply is Tx,
        SweepStage::CreatePsbt => reply is Psbt,
        SweepStage::Color(_) => reply is Colored || reply is ConvertFailed || reply is Failed,
        SweepStage::Sign { .. } => reply is Signed || reply is Failed,
        SweepStage::SaveConsignment { .. } => reply is Done || reply is Failed,
        SweepStage::ProvideConsignment { .. } => reply is Done || reply is Failed
            || reply is WorkerFailed,
        SweepStage::RemoveConsignment { .. } => reply is Done || reply is Failed,
        SweepStage::Persist(_) => reply is Done || reply is Failed,
        SweepStage::Finished(_) => false,
    }
}

pub open spec fn goes(job: Sweep, next: Sweep, stage: SweepStage) -> bool {
    next == (Sweep { stage, ..job })
}

pub open spec fn fails(next: Sweep, details: Seq<char>) -> bool {
    next.stage matches SweepStage::Finished(Err(e)) && e@ == details
}

/// Where a sweep begins: the refusal or the stored transaction ends it at once, else the first output
/// is looked at.
pub open spec fn sweep_starts(
    admitted: Result<(), String>,
    txes: Map<u64, Seq<u8>>,
    descriptors: u64,
    outpoints: Vec<SweepOutpoint>,
    r: Sweep,
) -> bool {
    &&& r.outpoints == outpoints
    &&& r.pos == 0
    &&& r.assets@.len() == 0
    &&& match admitted {
        Err(e) => fails(r, e@),
        Ok(_) => if txes.dom().contains(descriptors) {
            r.stage matches SweepStage::Finished(Ok(tx)) && tx@ == txes[descriptors]
        } else if outpoints@.len() == 0 {
            r.stage is SpendVanilla
        } else {
            r.stage is ReadInfo
        },
    }
}

/// The next output is looked at; after the last one the transaction is made, plain where no output
/// carried an asset.
pub open spec fn moves_on(job: Sweep, next: Sweep) -> bool {
    &&& next.outpoints == job.outpoints
    &&& next.pos == job.pos + 1
    &&& if next.pos < next.outpoints@.len() {
        next.stage is ReadInfo
    } else if next.assets@.len() == 0 {
        next.stage is SpendVanilla
    } else {
        next.stage is CreatePsbt
    }
}

/// The assets after more of one was found.
pub open spec fn more_of(assets: Seq<SweepAsset>, i: int, amount: u64) -> Seq<SweepAsset> {
    assets.update(
        i,
        SweepAsset { amount: (assets[i].amount + amount) as u64, ..assets[i] },
    )
}

/// The consignment of an asset: its file's name.
pub open spec fn consignment_name(sweep: SignedSweep, k: int) -> Seq<char> {
    "consignment_"@ + sweep.txid@ + "_"@ + sweep.contract_ids@[k]@
}

/// The stage that hands the k-th consignment to the wallet, or the one after the last.
pub open spec fn from_consignment(sweep: SignedSweep, k: int) -> SweepStage {
    if k < sweep.contract_ids@.len() {
        SweepStage::SaveConsignment { sweep, k: k as usize }
    } else {
        SweepStage::Persist(sweep)
    }
}

/// What follows from the transfer of an output's transaction.
pub open spec fn after_info(job: Sweep, reply: SweepReply, next: Sweep) -> bool {
    match reply {
        SweepReply::Undecodable(e) => fails(
            next,
            "cannot decode transfer info for "@ + job.txid() + ": "@ + e@,
        ),
        SweepReply::Info { contract_id, output_map } => {
            let vout = job.outpoints@[job.pos as int].index as u32;
            if output_map@.len() != 0 && !output_map@.dom().contains(vout) {
                fails(next, absent_output(job.txid(), vout))
            } else if output_map@.len() == 0 || output_map@[vout] == 0 {
                moves_on(job, next) && next.assets == job.assets
            } else {
                goes(
                    job,
                    next,
                    SweepStage::ReadHeight { contract_id, amount: output_map@[vout] },
                )
            }
        },
        _ => moves_on(job, next) && next.assets == job.assets,
    }
}

/// What follows from the update of the witnesses.
pub open spec fn after_witnesses(
    job: Sweep,
    contract_id: String,
    amount: u64,
    reply: SweepReply,
    next: Sweep,
) -> bool {
    match reply {
        SweepReply::BadWitness(e) => fails(
            next,
            "invalid sweep witness transaction ID: "@ + e@,
        ),
        SweepReply::Witnesses(Some(e)) => fails(
            next,
            "failed to update witnesses for "@ + job.txid() + ": "@ + e@,
        ),
        SweepReply::Witnesses(None) => match asset_place(job.assets@, contract_id@) {
            Some(i) => moves_on(job, next) && next.assets@ == more_of(job.assets@, i, amount),
            None => goes(job, next, SweepStage::FindRecipient { contract_id, amount }),
        },
        SweepReply::Failed(e) => fails(
            next,
            "error while updating witnesses for "@ + job.txid() + ": "@ + e@,
        ),
        _ => false,
    }
}

/// What follows from the signed transaction.
pub open spec fn after_signing(
    job: Sweep,
    contract_ids: Vec<String>,
    extracted: Result<ExtractedView, Seq<char>>,
    next: Sweep,
) -> bool {
    match extracted {
        Ok(t) => {
            &&& next.outpoints == job.outpoints && next.pos == job.pos && next.assets == job.assets
            &&& exists|sweep: SignedSweep|
                sweep.txid@ == t.txid && sweep.tx@ == t.tx && sweep.contract_ids == contract_ids
                    && next.stage == #[trigger] from_consignment(sweep, 0)
        },
        Err(e) => fails(next, "failed to extract signed sweep transaction: "@ + e),
    }
}

/// What follows from a reply.
pub open spec fn sweep_next(job: Sweep, reply: SweepReply, next: Sweep) -> bool {
    match job.stage {
        SweepStage::ReadInfo => after_info(job, reply, next),
        SweepStage::ReadHeight { contract_id, amount } => match reply {
            SweepReply::Height(Some(height)) => goes(
                job,
                next,
                SweepStage::UpdateWitnesses { contract_id, amount, height },
            ),
            SweepReply::Height(None) => fails(
                next,
                "transaction "@ + job.txid() + " is not confirmed yet"@,
            ),
            SweepReply::Failed(e) => fails(
                next,
                "cannot get height of "@ + job.txid() + ": "@ + e@,
            ),
            _ => false,
        },
        SweepStage::UpdateWitnesses { contract_id, amount, .. } => after_witnesses(
            job,
            contract_id,
            amount,
            reply,
            next,
        ),
        SweepStage::FindRecipient { contract_id, amount } => match reply {
            SweepReply::Recipient { kept: Some(recipient_id), .. } => goes(
                job,
                next,
                SweepStage::AddOutput { contract_id, amount, recipient_id },
            ),
            SweepReply::Recipient { kept: None, now } => goes(
                job,
                next,
                SweepStage::Receive {
                    contract_id,
                    amount,
                    expiration: (now + RGB_TRANSFER_CHAN_EXPIRATION_SECS) as u64,
                },
            ),
            _ => false,
        },
        SweepStage::Receive { contract_id, amount, .. } => match reply {
            SweepReply::Received(recipient_id) => goes(
                job,
                next,
                SweepStage::AddOutput { contract_id, amount, recipient_id },
            ),
            SweepReply::Failed(e) => fails(next, "cannot get a witness receive script: "@ + e@),
            _ => false,
        },
        SweepStage::AddOutput { contract_id, amount, recipient_id } => match reply {
            SweepReply::Script(true) => moves_on(job, next) && next.assets@ == job.assets@.push(
                SweepAsset {
                    contract_id,
                    vout: job.assets@.len() as u32,
                    amount,
                    recipient_id,
                },
            ),
            SweepReply::Script(false) => fails(next, "sweep recipient id has no script"@),
            SweepReply::Failed(e) => fails(next, "invalid sweep recipient id: "@ + e@),
            _ => false,
        },
        SweepStage::SpendVanilla => match reply {
            SweepReply::Tx(Some(tx)) => goes(
                job,
                next,
                SweepStage::Finished(Ok::<Vec<u8>, String>(tx)),
            ),
            _ => fails(next, "cannot spend vanilla spendable outputs"@),
        },
        SweepStage::CreatePsbt => match reply {
            SweepReply::Psbt(Some(psbt)) => goes(job, next, SweepStage::Color(psbt)),
            _ => fails(next, "cannot create the spendable outputs PSBT"@),
        },
        SweepStage::Color(_) => match reply {
            SweepReply::Colored { psbt, contract_ids } => match psbt_summary(psbt@) {
                Ok(_) => goes(job, next, SweepStage::Sign { psbt, contract_ids }),
                Err(e) => fails(next, "failed to convert colored sweep PSBT for signing: "@ + e),
            },
            SweepReply::ConvertFailed(e) => fails(
                next,
                "failed to convert sweep PSBT for RGB coloring: "@ + e@,
            ),
            SweepReply::Failed(e) => fails(next, "cannot color the sweep PSBT: "@ + e@),
            _ => false,
        },
        SweepStage::Sign { contract_ids, .. } => match reply {
            SweepReply::Signed(signed) => after_signing(
                job,
                contract_ids,
                psbt_extracted(signed@),
                next,
            ),
            SweepReply::Failed(e) => fails(next, "cannot sign the sweep PSBT: "@ + e@),
            _ => false,
        },
        SweepStage::SaveConsignment { sweep, k } => match reply {
            SweepReply::Failed(e) => fails(next, "cannot save consignment: "@ + e@),
            _ => goes(job, next, SweepStage::ProvideConsignment { sweep, k }),
        },
        SweepStage::ProvideConsignment { sweep, k } => match reply {
            SweepReply::WorkerFailed(e) => fails(next, "consignment task failed: "@ + e@),
            SweepReply::Failed(e) => fails(next, "cannot provide consignment: "@ + e@),
            _ => goes(job, next, SweepStage::RemoveConsignment { sweep, k }),
        },
        // a file that cannot be removed is left behind
        SweepStage::RemoveConsignment { sweep, k } => goes(
            job,
            next,
            from_consignment(sweep, k + 1),
        ),
        SweepStage::Persist(sweep) => match reply {
            SweepReply::Failed(e) => fails(next, "cannot persist output spender txes: "@ + e@),
            _ => goes(job, next, SweepStage::Finished(Ok::<Vec<u8>, String>(sweep.tx))),
        },
        SweepStage::Finished(_) => false,
    }
}

proof fn lemma_asset_place(assets: Seq<SweepAsset>, contract_id: Seq<char>)
    ensures
        match asset_place(assets, contract_id) {
            Some(i) => 0 <= i < assets.len() && assets[i].contract_id@ == contract_id,
            None => forall|i: int|
                0 <= i < assets.len() ==> (#[trigger] assets[i]).contract_id@ != contract_id,
        },
    decreases assets.len(),
{
    if assets.len() > 0 && assets.last().contract_id@ != contract_id {
        lemma_asset_place(assets.drop_last(), contract_id);
        assert forall|i: int|
            0 <= i < assets.len() && asset_place(assets, contract_id) is None implies (
        #[trigger] assets[i]).contract_id@ != contract_id by {
            if i < assets.len() - 1 {
                assert(assets.drop_last()[i] == assets[i]);
            }
        }
    }
}

impl Sweep {
    /// Sweeps outputs: the assets that they carry go to receives of the wallet, the rest to the
    /// change script. Nothing is done while the wallet is not admitted to change; outputs that were
    /// swept before have their transaction handed out again.
    pub fn try_spend_spendable_outputs(
        admitted: Result<(), String>,
        txes: &SpendingTxes,
        descriptors: u64,
        outpoints: Vec<SweepOutpoint>,
    ) -> (r: Self)
        requires
            outpoints@.len() <= u32::MAX,
        ensures
            r.wf(),
            sweep_starts(admitted, txes@, descriptors, outpoints, r),
    {
        let stage = match admitted {
            Err(e) => SweepStage::Finished(Err(e)),
            Ok(()) => match txes.get(descriptors) {
                Some(tx) => SweepStage::Finished(Ok(tx)),
                None => if outpoints.len() == 0 {
                    SweepStage::SpendVanilla
                } else {
                    SweepStage::ReadInfo
                },
            },
        };
        Sweep { outpoints, pos: 0, assets: Vec::new(), stage }
    }

    fn at(self, stage: SweepStage) -> (r: Self)
        ensures
            goes(self, r, stage),
    {
        Sweep { outpoints: self.outpoints, pos: self.pos, assets: self.assets, stage }
    }

    fn fail(self, details: String) -> (r: Self)
        ensures
            fails(r, details@),
            r.outpoints == self.outpoints,
            r.pos == self.pos,
            r.assets == self.assets,
    {
        self.at(SweepStage::Finished(Err(details)))
    }

    fn on(self) -> (r: Self)
        requires
            self.pos < self.outpoints@.len(),
        ensures
            moves_on(self, r),
            r.assets == self.assets,
    {
        let count: usize = self.outpoints.len();
        let pos: usize = self.pos + 1;
        let stage = if pos < count {
            SweepStage::ReadInfo
        } else if self.assets.len() == 0 {
            SweepStage::SpendVanilla
        } else {
            SweepStage::CreatePsbt
        };
        Sweep { outpoints: self.outpoints, pos, assets: self.assets, stage }
    }

    fn place_of(&self, contract_id: &str) -> (r: Option<usize>)
        ensures
            r is Some <==> asset_place(self.assets@, contract_id@) is Some,
            r matches Some(i) ==> asset_place(self.assets@, contract_id@) == Some(i as int)
                && i < self.assets@.len(),
    {
        let mut i: usize = self.assets.len();
        assert(self.assets@.take(i as int) =~= self.assets@);
        while i > 0
            invariant
                i <= self.assets@.len(),
                asset_place(self.assets@, contract_id@) == asset_place(
                    self.assets@.take(i as int),
                    contract_id@,
                ),
            decreases i,
        {
            assert(self.assets@.take(i as int).last() == self.assets@[i - 1]);
            assert(self.assets@.take(i as int).drop_last() =~= self.assets@.take(i - 1));
            if same(self.assets[i - 1].contract_id.as_str(), contract_id) {
                return Some(i - 1);
            }
            i = i - 1;
        }
        None
    }

    fn on_info(self, reply: SweepReply) -> (next: Self)
        requires
            self.wf(),
            self.stage is ReadInfo,
            sweep_fits(self, reply),
        ensures
            next.wf(),
            after_info(self, reply, next),
    {
        match reply {
            SweepReply::Undecodable(e) => {
                let details = join4(
                    "cannot decode transfer info for ",
                    self.outpoints[self.pos].txid.as_str(),
                    ": ",
                    e.as_str(),
                );
                self.fail(details)
            },
            SweepReply::Info { contract_id, output_map } => {
                let vout: u32 = self.outpoints[self.pos].index as u32;
                let amount = rgb_amount_for_spendable_output(
                    &output_map,
                    vout,
                    self.outpoints[self.pos].txid.as_str(),
                );
                match amount {
                    Err(e) => {
                        proof {
                            assert(output_map@.len() != 0 && !output_map@.dom().contains(vout));
                        }
                        self.fail(e)
                    },
                    Ok(amount) => {
                        if amount == 0 {
                            self.on()
                        } else {
                            self.at(SweepStage::ReadHeight { contract_id, amount })
                        }
                    },
                }
            },
            _ => self.on(),
        }
    }

    fn on_witnesses(self, contract_id: String, amount: u64, reply: SweepReply) -> (next: Self)
        requires
            self.wf(),
            self.pos < self.outpoints@.len(),
            reply is Witnesses || reply is BadWitness || reply is Failed,
            asset_total(self.assets@, contract_id@) + amount <= u64::MAX,
        ensures
            next.wf(),
            after_witnesses(self, contract_id, amount, reply, next),
    {
        match reply {
            SweepReply::BadWitness(e) => self.fail(
                join2("invalid sweep witness transaction ID: ", e.as_str()),
            ),
            SweepReply::Witnesses(Some(e)) => {
                let details = join4(
                    "failed to update witnesses for ",
                    self.outpoints[self.pos].txid.as_str(),
                    ": ",
                    e.as_str(),
                );
                self.fail(details)
            },
            SweepReply::Witnesses(None) => match self.place_of(contract_id.as_str()) {
                Some(i) => {
                    let mut job = self;
                    let found = SweepAsset {
                        contract_id: copy(&job.assets[i].contract_id),
                        vout: job.assets[i].vout,
                        amount: job.assets[i].amount + amount,
                        recipient_id: copy(&job.assets[i].recipient_id),
                    };
                    job.assets.set(i, found);
                    assert(job.assets@ == more_of(self.assets@, i as int, amount));
                    job.on()
                },
                None => self.at(SweepStage::FindRecipient { contract_id, amount }),
            },
            SweepReply::Failed(e) => {
                let details = join4(
                    "error while updating witnesses for ",
                    self.outpoints[self.pos].txid.as_str(),
                    ": ",
                    e.as_str(),
                );
                self.fail(details)
            },
            _ => unreached(),
        }
    }

    fn add_output(self, contract_id: String, amount: u64, recipient_id: String) -> (next: Self)
        requires
            self.wf(),
            self.pos < self.outpoints@.len(),
            asset_place(self.assets@, contract_id@) is None,
        ensures
            next.wf(),
            moves_on(self, next),
            next.assets@ == self.assets@.push(
                SweepAsset {
                    contract_id,
                    vout: self.assets@.len() as u32,
                    amount,
                    recipient_id,
                },
            ),
    {
        proof {
            lemma_asset_place(self.assets@, contract_id@);
        }
        let mut job = self;
        let vout: u32 = job.assets.len() as u32;
        job.assets.push(SweepAsset { contract_id, vout, amount, recipient_id });
        job.on()
    }

    fn consignments(self, sweep: SignedSweep, k: usize) -> (next: Self)
        requires
            self.wf(),
            k <= sweep.contract_ids@.len(),
        ensures
            next.wf(),
            goes(self, next, from_consignment(sweep, k as int)),
    {
        if k < sweep.contract_ids.len() {
            self.at(SweepStage::SaveConsignment { sweep, k })
        } else {
            self.at(SweepStage::Persist(sweep))
        }
    }

    fn on_height(self, contract_id: String, amount: u64, reply: SweepReply) -> (next: Self)
        requires
            self.wf(),
            self.stage == (SweepStage::ReadHeight { contract_id, amount }),
            sweep_fits(self, reply),
        ensures
            next.wf(),
            sweep_next(self, reply, next),
    {
        match reply {
            SweepReply::Height(Some(height)) => self.at(
                SweepStage::UpdateWitnesses { contract_id, amount, height },
            ),
            SweepReply::Height(None) => {
                let details = join3(
                    "transaction ",
                    self.outpoints[self.pos].txid.as_str(),
                    " is not confirmed yet",
                );
                self.fail(details)
            },
            SweepReply::Failed(e) => {
                let details = join4(
                    "cannot get height of ",
                    self.outpoints[self.pos].txid.as_str(),
                    ": ",
                    e.as_str(),
                );
                self.fail(details)
            },
            _ => unreached(),
        }
    }

    fn on_signed(self, contract_ids: Vec<String>, signed: String) -> (next: Self)
        requires
            self.wf(),
        ensures
            next.wf(),
            after_signing(self, contract_ids, psbt_extracted(signed@), next),
    {
        match extract_tx(signed.as_str()) {
            Ok(t) => {
                let sweep = SignedSweep { txid: t.txid, tx: t.tx, contract_ids };
                let next = self.consignments(sweep, 0);
                assert(next.stage == from_consignment(sweep, 0));
                next
            },
            Err(e) => self.fail(join2("failed to extract signed sweep transaction: ", e.as_str())),
        }
    }

    /// Decides what follows from a reply.
    #[verifier::rlimit(40)]
    pub fn advance(self, reply: SweepReply) -> (next: Self)
        requires
            self.wf(),
            sweep_fits(self, reply),
        ensures
            next.wf(),
            sweep_next(self, reply, next),
    {
        let Sweep { outpoints, pos, assets, stage } = self;
        match stage {
            SweepStage::ReadInfo => Sweep { outpoints, pos, assets, stage: SweepStage::ReadInfo }.on_info(reply),
            SweepStage::ReadHeight { contract_id, amount } => {
                let kept = copy(&contract_id);
                Sweep { outpoints, pos, assets, stage: SweepStage::ReadHeight { contract_id, amount } }.on_height(
                    kept,
                    amount,
                    reply,
                )
            },
            SweepStage::UpdateWitnesses { contract_id, amount, height } => {
                let kept = copy(&contract_id);
                Sweep {
                    outpoints,
                    pos,
                    assets,
                    stage: SweepStage::UpdateWitnesses { contract_id, amount, height },
                }.on_witnesses(kept, amount, reply)
            },
            SweepStage::FindRecipient { contract_id, amount } => {
                let job = Sweep { outpoints, pos, assets, stage: SweepStage::ReadInfo };
                match reply {
                    SweepReply::Recipient { kept: Some(recipient_id), .. } => job.at(
                        SweepStage::AddOutput { contract_id, amount, recipient_id },
                    ),
                    SweepReply::Recipient { kept: None, now } => job.at(
                        SweepStage::Receive {
                            contract_id,
                            amount,
                            expiration: now + RGB_TRANSFER_CHAN_EXPIRATION_SECS,
                        },
                    ),
                    _ => unreached(),
                }
            },
            SweepStage::Receive { contract_id, amount, .. } => {
                let job = Sweep { outpoints, pos, assets, stage: SweepStage::ReadInfo };
                match reply {
                    SweepReply::Received(recipient_id) => job.at(
                        SweepStage::AddOutput { contract_id, amount, recipient_id },
                    ),
                    SweepReply::Failed(e) => job.fail(
                        join2("cannot get a witness receive script: ", e.as_str()),
                    ),
                    _ => unreached(),
                }
            },
            SweepStage::AddOutput { contract_id, amount, recipient_id } => {
                let job = Sweep { outpoints, pos, assets, stage: SweepStage::ReadInfo };
                match reply {
                    SweepReply::Script(true) => job.add_output(contract_id, amount, recipient_id),
                    SweepReply::Script(false) => job.fail(text("sweep recipient id has no script")),
                    SweepReply::Failed(e) => job.fail(
                        join2("invalid sweep recipient id: ", e.as_str()),
                    ),
                    _ => unreached(),
                }
            },
            stage => Sweep { outpoints, pos, assets, stage }.finish(reply),
        }
    }

    fn finish(self, reply: SweepReply) -> (next: Self)
        requires
            self.wf(),
            sweep_fits(self, reply),
            match self.stage {
                SweepStage::SpendVanilla
                | SweepStage::CreatePsbt
                | SweepStage::Color(_)
                | SweepStage::Sign { .. }
                | SweepStage::SaveConsignment { .. }
                | SweepStage::ProvideConsignment { .. }
                | SweepStage::RemoveConsignment { .. }
                | SweepStage::Persist(_) => true,
                _ => false,
            },
        ensures
            next.wf(),
            sweep_next(self, reply, next),
    {
        let Sweep { outpoints, pos, assets, stage } = self;
        let job = Sweep { outpoints, pos, assets, stage: SweepStage::SpendVanilla };
        match stage {
            SweepStage::SpendVanilla => match reply {
                SweepReply::Tx(Some(tx)) => job.at(SweepStage::Finished(Ok(tx))),
                _ => job.fail(text("cannot spend vanilla spendable outputs")),
            },
            SweepStage::CreatePsbt => match reply {
                SweepReply::Psbt(Some(psbt)) => job.at(SweepStage::Color(psbt)),
                _ => job.fail(text("cannot create the spendable outputs PSBT")),
            },
            SweepStage::Color(_) => match reply {
                SweepReply::Colored { psbt, contract_ids } => match parse_psbt(psbt.as_str()) {
                    Ok(_) => job.at(SweepStage::Sign { psbt, contract_ids }),
                    Err(e) => job.fail(
                        join2("failed to convert colored sweep PSBT for signing: ", e.as_str()),
                    ),
                },
                SweepReply::ConvertFailed(e) => job.fail(
                    join2("failed to convert sweep PSBT for RGB coloring: ", e.as_str()),
                ),
                SweepReply::Failed(e) => job.fail(
                    join2("cannot color the sweep PSBT: ", e.as_str()),
                ),
                _ => unreached(),
            },
            SweepStage::Sign { contract_ids, .. } => match reply {
                SweepReply::Signed(signed) => job.on_signed(contract_ids, signed),
                SweepReply::Failed(e) => job.fail(
                    join2("cannot sign the sweep PSBT: ", e.as_str()),
                ),
                _ => unreached(),
            },
            SweepStage::SaveConsignment { sweep, k } => match reply {
                SweepReply::Failed(e) => job.fail(join2("cannot save consignment: ", e.as_str())),
                _ => job.at(SweepStage::ProvideConsignment { sweep, k }),
            },
            SweepStage::ProvideConsignment { sweep, k } => match reply {
                SweepReply::WorkerFailed(e) => job.fail(
                    join2("consignment task failed: ", e.as_str()),
                ),
                SweepReply::Failed(e) => job.fail(
                    join2("cannot provide consignment: ", e.as_str()),
                ),
                _ => job.at(SweepStage::RemoveConsignment { sweep, k }),
            },
            SweepStage::RemoveConsignment { sweep, k } => {
                let count: usize = sweep.contract_ids.len();
                assert(k < count);
                job.consignments(sweep, k + 1)
            },
            SweepStage::Persist(sweep) => match reply {
                SweepReply::Failed(e) => job.fail(
                    join2("cannot persist output spender txes: ", e.as_str()),
                ),
                _ => job.at(SweepStage::Finished(Ok(sweep.tx))),
            },
            _ => unreached(),
        }
    }
}

// ---------------------------------------------------------------------------------------------
// Effects
// ---------------------------------------------------------------------------------------------

/// What sweeps are made with.
#[derive(Clone, Copy, Debug, PartialEq, Eq, Structural)]
pub struct SweepTerms {
    /// The fee rate that plain outputs are spent at.
    pub feerate_sat_per_1000_weight: u32,
    /// The configured fee rate, which colored outputs are spent at.
    pub fee_rate_sat_vb: u64,
    pub dust_limit_msat: u64,
}

/// The effect of a stage, with everything that it is carried out with.
#[derive(Debug)]
pub enum SweepEffect {
    /// Reads the transfer of a transaction.
    ReadInfo { txid: String },
    ReadHeight { txid: String },
    /// Updates the witness of a transaction from a height on.
    UpdateWitnesses { txid: String, height: u32 },
    /// Looks for a kept receive.
    FindRecipient { contract_id: String },
    /// Asks the wallet for a new receive, for any assignment, without endpoints or confirmations, and
    /// keeps it.
    Receive { contract_id: String, expiration: u64 },
    /// Adds an output to the script of a recipient.
    AddOutput { recipient_id: String, value_sat: u64 },
    SpendVanilla { feerate_sat_per_1000_weight: u32 },
    CreatePsbt { feerate_sat_per_1000_weight: u32 },
    /// Colors a transaction: each asset's amount goes to its output.
    Color { psbt: String, assets: Vec<SweepAsset> },
    Sign { psbt: String },
    /// Saves the consignment of an asset.
    SaveConsignment { file: String, contract_id: String },
    /// Hands a consignment to the wallet out of band.
    ProvideConsignment { file: String },
    RemoveConsignment { file: String },
    /// Writes the table with the transaction in it.
    Persist { tx: Vec<u8> },
}

/// Whether an effect is that of the stage that a sweep stands at.
pub open spec fn is_effect(job: Sweep, terms: SweepTerms, r: SweepEffect) -> bool {
    match job.stage {
        SweepStage::ReadInfo => r matches SweepEffect::ReadInfo { txid } && txid@ == job.txid(),
        SweepStage::ReadHeight { .. } => r matches SweepEffect::ReadHeight { txid } && txid@
            == job.txid(),
        SweepStage::UpdateWitnesses { height: h, .. } => r matches SweepEffect::UpdateWitnesses {
            txid,
            height,
        } && txid@ == job.txid() && height == h,
        SweepStage::FindRecipient { contract_id, .. } => r == (SweepEffect::FindRecipient {
            contract_id,
        }),
        SweepStage::Receive { contract_id, expiration, .. } => r == (SweepEffect::Receive {
            contract_id,
            expiration,
        }),
        SweepStage::AddOutput { recipient_id: id, .. } => r matches SweepEffect::AddOutput {
            recipient_id,
            value_sat,
        } && recipient_id == id && value_sat == terms.dust_limit_msat / 1000,
        SweepStage::SpendVanilla => r == (SweepEffect::SpendVanilla {
            feerate_sat_per_1000_weight: terms.feerate_sat_per_1000_weight,
        }),
        SweepStage::CreatePsbt => r matches SweepEffect::CreatePsbt { feerate_sat_per_1000_weight }
            && feerate_sat_per_1000_weight == (terms.fee_rate_sat_vb % 0x1_0000_0000) * 250,
        SweepStage::Color(unsigned) => r matches SweepEffect::Color { psbt, assets } && psbt
            == unsigned && assets@ == job.assets@,
        SweepStage::Sign { psbt, .. } => r == (SweepEffect::Sign { psbt }),
        SweepStage::SaveConsignment { sweep, k } => r matches SweepEffect::SaveConsignment {
            file,
            contract_id,
        } && file@ == consignment_name(sweep, k as int) && contract_id
            == sweep.contract_ids@[k as int],
        SweepStage::ProvideConsignment { sweep, k } => r matches SweepEffect::ProvideConsignment {
            file,
        } && file@ == consignment_name(sweep, k as int),
        SweepStage::RemoveConsignment { sweep, k } => r matches SweepEffect::RemoveConsignment {
            file,
        } && file@ == consignment_name(sweep, k as int),
        SweepStage::Persist(sweep) => r matches SweepEffect::Persist { tx } && tx@ == sweep.tx@,
        SweepStage::Finished(_) => false,
    }
}

fn copy_assets(assets: &Vec<SweepAsset>) -> (r: Vec<SweepAsset>)
    ensures
        r@ == assets@,
{
    let mut out: Vec<SweepAsset> = Vec::new();
    let mut i: usize = 0;
    while i < assets.len()
        invariant
            i <= assets@.len(),
            out@ == assets@.take(i as int),
        decreases assets@.len() - i,
    {
        out.push(
            SweepAsset {
                contract_id: copy(&assets[i].contract_id),
                vout: assets[i].vout,
                amount: assets[i].amount,
                recipient_id: copy(&assets[i].recipient_id),
            },
        );
        i = i + 1;
        assert(assets@.take(i as int) =~= assets@.take(i - 1).push(assets@[i - 1]));
    }
    assert(assets@.take(i as int) =~= assets@);
    out
}

impl Sweep {
    /// The effect that comes next.
    pub fn effect(&self, terms: &SweepTerms) -> (r: SweepEffect)
        requires
            self.wf(),
            !(self.stage is Finished),
            self.stage is CreatePsbt ==> (terms.fee_rate_sat_vb % 0x1_0000_0000) * 250 <= u32::MAX,
        ensures
            is_effect(*self, *terms, r),
    {
        match &self.stage {
            SweepStage::ReadInfo => SweepEffect::ReadInfo {
                txid: copy(&self.outpoints[self.pos].txid),
            },
            SweepStage::ReadHeight { .. } => SweepEffect::ReadHeight {
                txid: copy(&self.outpoints[self.pos].txid),
            },
            SweepStage::UpdateWitnesses { height, .. } => SweepEffect::UpdateWitnesses {
                txid: copy(&self.outpoints[self.pos].txid),
                height: *height,
            },
            SweepStage::FindRecipient { contract_id, .. } => SweepEffect::FindRecipient {
                contract_id: copy(contract_id),
            },
            SweepStage::Receive { contract_id, expiration, .. } => SweepEffect::Receive {
                contract_id: copy(contract_id),
                expiration: *expiration,
            },
            SweepStage::AddOutput { recipient_id, .. } => SweepEffect::AddOutput {
                recipient_id: copy(recipient_id),
                value_sat: asset_output_value(terms.dust_limit_msat),
            },
            SweepStage::SpendVanilla => SweepEffect::SpendVanilla {
                feerate_sat_per_1000_weight: terms.feerate_sat_per_1000_weight,
            },
            SweepStage::CreatePsbt => SweepEffect::CreatePsbt {
                feerate_sat_per_1000_weight: colored_feerate(terms.fee_rate_sat_vb),
            },
            SweepStage::Color(psbt) => SweepEffect::Color {
                psbt: copy(psbt),
                assets: copy_assets(&self.assets),
            },
            SweepStage::Sign { psbt, .. } => SweepEffect::Sign { psbt: copy(psbt) },
            SweepStage::SaveConsignment { sweep, k } => SweepEffect::SaveConsignment {
                file: sweep.consignment_file(*k),
                contract_id: copy(&sweep.contract_ids[*k]),
            },
            SweepStage::ProvideConsignment { sweep, k } => SweepEffect::ProvideConsignment {
                file: sweep.consignment_file(*k),
            },
            SweepStage::RemoveConsignment { sweep, k } => SweepEffect::RemoveConsignment {
                file: sweep.consignment_file(*k),
            },
            SweepStage::Persist(sweep) => SweepEffect::Persist {
                tx: vstd::slice::slice_to_vec(sweep.tx.as_slice()),
            },
            SweepStage::Finished(_) => unreached(),
        }
    }
}

impl SignedSweep {
    /// The name of the file that the k-th consignment is handed over in.
    pub fn consignment_file(&self, k: usize) -> (r: String)
        requires
            k < self.contract_ids@.len(),
        ensures
            r@ == consignment_name(*self, k as int),
    {
        join4("consignment_", self.txid.as_str(), "_", self.contract_ids[k].as_str())
    }
}

/// The fee rate of a colored sweep in satoshis per thousand weight units, from the configured one in
/// satoshis per virtual byte, of which the lower 32 bits count.
pub fn colored_feerate(fee_rate_sat_vb: u64) -> (r: u32)
    requires
        (fee_rate_sat_vb % 0x1_0000_0000) * 250 <= u32::MAX,
    ensures
        r == (fee_rate_sat_vb % 0x1_0000_0000) * 250,
{
    (fee_rate_sat_vb % 0x1_0000_0000) as u32 * 250
}

/// What an output for an asset is worth, in satoshis.
pub fn asset_output_value(dust_limit_msat: u64) -> (r: u64)
    ensures
        r == dust_limit_msat / 1000,
{
    dust_limit_msat / 1000
}

// ---------------------------------------------------------------------------------------------
// Laws
// ---------------------------------------------------------------------------------------------

/// A colored transaction is handed out only after it was written to the store; nothing else than a
/// plain transaction or a stored one ends a sweep well.
pub proof fn law_colored_sweeps_are_persisted_first(job: Sweep, reply: SweepReply, next: Sweep)
    requires
        sweep_fits(job, reply),
        sweep_next(job, reply, next),
        next.stage matches SweepStage::Finished(Ok(_)),
    ensures
        job.stage is SpendVanilla || (job.stage is Persist && reply is Done),
{
}

/// What a sweep persisted is handed out again, unchanged, when the same outputs are swept; a sweep
/// whose transaction could not be written leaves no entry and starts anew. The transactions of other
/// outputs stay as they were.
pub proof fn law_persisted_sweeps_are_handed_out_again(
    job: Sweep,
    reply: SweepReply,
    next: Sweep,
    txes: Map<u64, Seq<u8>>,
    descriptors: u64,
    written: Result<(), String>,
    outpoints: Vec<SweepOutpoint>,
    again: Sweep,
    other: u64,
)
    requires
        sweep_fits(job, reply),
        sweep_next(job, reply, next),
        job.stage is Persist,
        written is Ok <==> reply is Done,
        sweep_starts(
            Ok(()),
            after_write(txes, descriptors, job.stage->Persist_0.tx@, written),
            descriptors,
            outpoints,
            again,
        ),
    ensures
        next.stage matches SweepStage::Finished(Ok(tx)) ==> (again.stage matches SweepStage::Finished(
            Ok(stored),
        ) && stored@ == tx@),
        next.stage matches SweepStage::Finished(Err(_)) ==> !txes.dom().contains(descriptors) ==> (
        again.stage is ReadInfo || again.stage is SpendVanilla),
        other != descriptors ==> {
            let after = after_write(txes, descriptors, job.stage->Persist_0.tx@, written);
            &&& after.dom().contains(other) == txes.dom().contains(other)
            &&& after[other] == txes[other]
        },
{
}

/// What is found of an asset is added to that asset, and no other asset changes.
pub proof fn law_sweeps_conserve_amounts(
    job: Sweep,
    reply: SweepReply,
    next: Sweep,
    contract_id: Seq<char>,
)
    requires
        job.wf(),
        sweep_fits(job, reply),
        sweep_next(job, reply, next),
        !(next.stage matches SweepStage::Finished(Err(_))),
    ensures
        asset_total(next.assets@, contract_id) == asset_total(job.assets@, contract_id) + (
        match job.stage {
            SweepStage::UpdateWitnesses { contract_id: c, amount, .. } => if c@ == contract_id
                && asset_place(job.assets@, contract_id) is Some {
                amount as int
            } else {
                0
            },
            SweepStage::AddOutput { contract_id: c, amount, .. } => if c@ == contract_id {
                amount as int
            } else {
                0
            },
            _ => 0,
        }),
{
    match job.stage {
        SweepStage::UpdateWitnesses { contract_id: c, amount, .. } => {
            lemma_asset_place(job.assets@, c@);
            match asset_place(job.assets@, c@) {
                Some(i) => lemma_place_kept(
                    job.assets@,
                    more_of(job.assets@, i, amount),
                    contract_id,
                ),
                None => {},
            }
            lemma_asset_place(job.assets@, contract_id);
        },
        SweepStage::AddOutput { contract_id: c, amount, recipient_id } => {
            lemma_asset_place(job.assets@, c@);
            let added = SweepAsset {
                contract_id: c,
                vout: job.assets@.len() as u32,
                amount,
                recipient_id,
            };
            assert(job.assets@.push(added).drop_last() =~= job.assets@);
            lemma_asset_place(job.assets@, contract_id);
        },
        _ => {},
    }
}

proof fn lemma_place_kept(a: Seq<SweepAsset>, b: Seq<SweepAsset>, contract_id: Seq<char>)
    requires
        a.len() == b.len(),
        forall|i: int|
            0 <= i < a.len() ==> (#[trigger] a[i]).contract_id@ == (#[trigger] b[i]).contract_id@,
    ensures
        asset_place(a, contract_id) == asset_place(b, contract_id),
    decreases a.len(),
{
    if a.len() > 0 {
        assert(a[a.len() - 1].contract_id@ == b[a.len() - 1].contract_id@);
        assert forall|i: int| 0 <= i < a.len() - 1 implies (
        #[trigger] a.drop_last()[i]).contract_id@ == (#[trigger] b.drop_last()[i]).contract_id@ by {
            assert(a[i].contract_id@ == b[i].contract_id@);
        }
        lemma_place_kept(a.drop_last(), b.drop_last(), contract_id);
    }
}

/// A run of a sweep: states, each of which follows from the one before by the reply to its effect.
pub open spec fn is_sweep_run(states: Seq<Sweep>, replies: Seq<SweepReply>) -> bool {
    &&& states.len() == replies.len() + 1
    &&& forall|i: int| 0 <= i < states.len() ==> (#[trigger] states[i]).wf()
    &&& forall|i: int|
        #![trigger replies[i]]
        0 <= i < replies.len() ==> sweep_fits(states[i], replies[i]) && sweep_next(
            states[i],
            replies[i],
            states[i + 1],
        )
}

/// Whether a step of a run saved the k-th consignment of a signed sweep.
pub open spec fn saves(
    states: Seq<Sweep>,
    replies: Seq<SweepReply>,
    i: int,
    sweep: SignedSweep,
    k: int,
) -> bool {
    states[i].stage == (SweepStage::SaveConsignment { sweep, k: k as usize }) && replies[i] is Done
}

/// Whether a step of a run handed the k-th consignment of a signed sweep to the wallet.
pub open spec fn provides(
    states: Seq<Sweep>,
    replies: Seq<SweepReply>,
    i: int,
    sweep: SignedSweep,
    k: int,
) -> bool {
    states[i].stage == (SweepStage::ProvideConsignment { sweep, k: k as usize })
        && replies[i] is Done
}

/// Whether a step of a run colored the transaction for the given assets.
pub open spec fn colors(
    states: Seq<Sweep>,
    replies: Seq<SweepReply>,
    i: int,
    contract_ids: Vec<String>,
) -> bool {
    states[i].stage is Color && (replies[i] matches SweepReply::Colored { contract_ids: c, .. } && c
        == contract_ids)
}

/// Whether a step of a run got the transaction signed.
pub open spec fn signs(
    states: Seq<Sweep>,
    replies: Seq<SweepReply>,
    i: int,
    sweep: SignedSweep,
) -> bool {
    states[i].stage is Sign && (replies[i] matches SweepReply::Signed(s) && (psbt_extracted(
        s@,
    ) matches Ok(t) && t.tx == sweep.tx@ && t.txid == sweep.txid@))
}

spec fn saved_before(
    states: Seq<Sweep>,
    replies: Seq<SweepReply>,
    n: int,
    sweep: SignedSweep,
    k: int,
) -> bool {
    exists|i: int| 0 <= i < n && #[trigger] saves(states, replies, i, sweep, k)
}

spec fn provided_before(
    states: Seq<Sweep>,
    replies: Seq<SweepReply>,
    n: int,
    sweep: SignedSweep,
    k: int,
) -> bool {
    exists|i: int| 0 <= i < n && #[trigger] provides(states, replies, i, sweep, k)
}

spec fn handed_over(
    states: Seq<Sweep>,
    replies: Seq<SweepReply>,
    n: int,
    sweep: SignedSweep,
    saved: int,
    provided: int,
) -> bool {
    &&& exists|i: int| 0 <= i < n && #[trigger] colors(states, replies, i, sweep.contract_ids)
    &&& exists|i: int| 0 <= i < n && #[trigger] signs(states, replies, i, sweep)
    &&& forall|k: int|
        0 <= k < saved ==> #[trigger] saved_before(states, replies, n, sweep, k)
    &&& forall|k: int|
        0 <= k < provided ==> #[trigger] provided_before(states, replies, n, sweep, k)
    &&& forall|i: int|
        0 <= i < n && (#[trigger] states[i]).stage is SaveConsignment
            ==> states[i].stage->SaveConsignment_sweep == sweep && states[i].stage->SaveConsignment_k
            < saved
    &&& forall|i: int|
        0 <= i < n && (#[trigger] states[i]).stage is ProvideConsignment
            ==> states[i].stage->ProvideConsignment_sweep == sweep
            && states[i].stage->ProvideConsignment_k < provided
}

spec fn sweep_progress(states: Seq<Sweep>, replies: Seq<SweepReply>, n: int) -> bool {
    match states[n].stage {
        SweepStage::SaveConsignment { sweep, k } => handed_over(
            states,
            replies,
            n,
            sweep,
            k as int,
            k as int,
        ),
        SweepStage::ProvideConsignment { sweep, k } => handed_over(
            states,
            replies,
            n,
            sweep,
            k + 1,
            k as int,
        ),
        SweepStage::RemoveConsignment { sweep, k } => handed_over(
            states,
            replies,
            n,
            sweep,
            k + 1,
            k + 1,
        ),
        SweepStage::Persist(sweep) => handed_over(
            states,
            replies,
            n,
            sweep,
            sweep.contract_ids@.len() as int,
            sweep.contract_ids@.len() as int,
        ),
        SweepStage::Finished(_) => true,
        _ => {
            &&& forall|i: int|
                0 <= i < n ==> !((#[trigger] states[i]).stage is SaveConsignment)
                    && !(states[i].stage is ProvideConsignment)
            &&& states[n].stage matches SweepStage::Sign { contract_ids, .. } ==> exists|i: int|
                0 <= i < n && #[trigger] colors(states, replies, i, contract_ids)
        },
    }
}

#[verifier::spinoff_prover]
#[verifier::rlimit(60)]
proof fn lemma_sweep_progress(states: Seq<Sweep>, replies: Seq<SweepReply>, n: int)
    requires
        is_sweep_run(states, replies),
        states[0].stage is ReadInfo || states[0].stage is SpendVanilla || states[0].stage is Finished,
        0 <= n < states.len(),
    ensures
        sweep_progress(states, replies, n),
    decreases n,
{
    if n > 0 {
        let m = n - 1;
        lemma_sweep_progress(states, replies, m);
        let reply = replies[m];
        assert(sweep_next(states[m], reply, states[m + 1]));
        assert(states[m].wf());
        match states[m].stage {
            SweepStage::Color(_) => {
                if states[n].stage is Sign {
                    assert(colors(states, replies, m, states[n].stage->Sign_contract_ids));
                }
            },
            SweepStage::Sign { contract_ids, .. } => {
                match states[n].stage {
                    SweepStage::SaveConsignment { sweep, k } => {
                        assert(signs(states, replies, m, sweep));
                        let i = choose|i: int|
                            0 <= i < m && #[trigger] colors(states, replies, i, contract_ids);
                        assert(colors(states, replies, i, sweep.contract_ids));
                        assert(k == 0);
                    },
                    SweepStage::Persist(sweep) => {
                        assert(signs(states, replies, m, sweep));
                        let i = choose|i: int|
                            0 <= i < m && #[trigger] colors(states, replies, i, contract_ids);
                        assert(colors(states, replies, i, sweep.contract_ids));
                        assert(sweep.contract_ids@.len() == 0);
                    },
                    _ => {},
                }
            },
            SweepStage::SaveConsignment { sweep, k } => {
                if states[n].stage is ProvideConsignment {
                    assert(saves(states, replies, m, sweep, k as int));
                    lemma_handed_over(states, replies, m, sweep, k as int, k as int, k + 1, k as int);
                }
            },
            SweepStage::ProvideConsignment { sweep, k } => {
                if states[n].stage is RemoveConsignment {
                    assert(provides(states, replies, m, sweep, k as int));
                    lemma_handed_over(states, replies, m, sweep, k + 1, k as int, k + 1, k + 1);
                }
            },
            SweepStage::RemoveConsignment { sweep, k } => {
                assert(sweep.contract_ids.len() == sweep.contract_ids@.len());
                lemma_handed_over(states, replies, m, sweep, k + 1, k + 1, k + 1, k + 1);
            },
            _ => {},
        }
    }
}

proof fn lemma_handed_over(
    states: Seq<Sweep>,
    replies: Seq<SweepReply>,
    m: int,
    sweep: SignedSweep,
    saved: int,
    provided: int,
    saved_next: int,
    provided_next: int,
)
    requires
        handed_over(states, replies, m, sweep, saved, provided),
        saved <= saved_next <= saved + 1,
        provided <= provided_next <= provided + 1,
        0 <= saved && (saved_next == saved + 1 ==> saved <= usize::MAX),
        0 <= provided && (provided_next == provided + 1 ==> provided <= usize::MAX),
        m >= 0,
        saved_next == saved + 1 ==> saves(states, replies, m, sweep, saved),
        provided_next == provided + 1 ==> provides(states, replies, m, sweep, provided),
        states[m].stage is SaveConsignment ==> saved_next == saved + 1,
        states[m].stage is ProvideConsignment ==> provided_next == provided + 1,
    ensures
        handed_over(states, replies, m + 1, sweep, saved_next, provided_next),
{
    let n = m + 1;
    let c = choose|i: int| 0 <= i < m && #[trigger] colors(states, replies, i, sweep.contract_ids);
    assert(0 <= c < n && colors(states, replies, c, sweep.contract_ids));
    let s = choose|i: int| 0 <= i < m && #[trigger] signs(states, replies, i, sweep);
    assert(0 <= s < n && signs(states, replies, s, sweep));
    assert forall|k: int| 0 <= k < saved_next implies #[trigger] saved_before(
        states,
        replies,
        n,
        sweep,
        k,
    ) by {
        if k < saved {
            assert(saved_before(states, replies, m, sweep, k));
            let i = choose|i: int| 0 <= i < m && #[trigger] saves(states, replies, i, sweep, k);
            assert(saves(states, replies, i, sweep, k));
        } else {
            assert(saves(states, replies, m, sweep, k));
        }
    }
    assert forall|k: int| 0 <= k < provided_next implies #[trigger] provided_before(
        states,
        replies,
        n,
        sweep,
        k,
    ) by {
        if k < provided {
            assert(provided_before(states, replies, m, sweep, k));
            let i = choose|i: int| 0 <= i < m && #[trigger] provides(states, replies, i, sweep, k);
            assert(provides(states, replies, i, sweep, k));
        } else {
            assert(provides(states, replies, m, sweep, k));
        }
    }
}

/// By the time a colored transaction is written to the store, the consignment of every asset that it
/// was colored for was saved and handed to the wallet, each once and without a failure, and the
/// transaction is the one that was signed.
pub proof fn law_every_consignment_is_handed_over_once(
    states: Seq<Sweep>,
    replies: Seq<SweepReply>,
    n: int,
    sweep: SignedSweep,
    k: usize,
)
    requires
        is_sweep_run(states, replies),
        states[0].stage is ReadInfo || states[0].stage is SpendVanilla || states[0].stage is Finished,
        0 <= n < states.len(),
        states[n].stage == SweepStage::Persist(sweep),
        k < sweep.contract_ids@.len(),
    ensures
        exists|i: int| 0 <= i < n && #[trigger] colors(states, replies, i, sweep.contract_ids),
        exists|i: int| 0 <= i < n && #[trigger] signs(states, replies, i, sweep),
        exists|i: int, j: int|
            0 <= i < j < n && #[trigger] saves(states, replies, i, sweep, k as int) && #[trigger] provides(
                states,
                replies,
                j,
                sweep,
                k as int,
            ),
        forall|i: int, j: int|
            0 <= i < j < n && states[i].stage is SaveConsignment && states[j].stage is SaveConsignment
                ==> (#[trigger] states[i]).stage->SaveConsignment_k < (
            #[trigger] states[j]).stage->SaveConsignment_k,
        forall|i: int, j: int|
            0 <= i < j < n && states[i].stage is ProvideConsignment
                && states[j].stage is ProvideConsignment ==> (
            #[trigger] states[i]).stage->ProvideConsignment_k < (
            #[trigger] states[j]).stage->ProvideConsignment_k,
{
    lemma_sweep_progress(states, replies, n);
    assert(provided_before(states, replies, n, sweep, k as int));
    let j = choose|j: int| 0 <= j < n && #[trigger] provides(states, replies, j, sweep, k as int);
    lemma_sweep_progress(states, replies, j);
    assert(saved_before(states, replies, j, sweep, k as int));
    let i = choose|i: int| 0 <= i < j && #[trigger] saves(states, replies, i, sweep, k as int);
    assert(0 <= i < j < n && saves(states, replies, i, sweep, k as int) && provides(
        states,
        replies,
        j,
        sweep,
        k as int,
    ));
    assert forall|i: int, j: int|
        0 <= i < j < n && states[i].stage is SaveConsignment && states[j].stage is SaveConsignment implies (
    #[trigger] states[i]).stage->SaveConsignment_k < (
    #[trigger] states[j]).stage->SaveConsignment_k by {
        lemma_sweep_progress(states, replies, j);
    }
    assert forall|i: int, j: int|
        0 <= i < j < n && states[i].stage is ProvideConsignment && states[j].stage is ProvideConsignment implies (
    #[trigger] states[i]).stage->ProvideConsignment_k < (
    #[trigger] states[j]).stage->ProvideConsignment_k by {
        lemma_sweep_progress(states, replies, j);
    }
}

/// A sweep that ends well, but for one of plain outputs or one that was stored before, ends right after
/// its transaction was written to the store, with that very transaction.
pub proof fn law_colored_sweeps_end_with_what_was_written(
    states: Seq<Sweep>,
    replies: Seq<SweepReply>,
    tx: Vec<u8>,
)
    requires
        is_sweep_run(states, replies),
        states.len() > 1,
        states.last().stage == SweepStage::Finished(Ok::<Vec<u8>, String>(tx)),
        states[0].assets@.len() == 0,
        states.last().assets@.len() > 0,
    ensures
        states[states.len() - 2].stage matches SweepStage::Persist(sweep) && sweep.tx == tx,
        replies.last() is Done,
{
    let m = replies.len() - 1;
    assert(sweep_next(states[m], replies[m], states[m + 1]));
    if m > 0 && states[m].stage is SpendVanilla {
        lemma_vanilla_has_no_assets(states, replies, m);
    }
}

spec fn holds_nothing(job: Sweep) -> bool {
    job.stage is SpendVanilla ==> job.assets@.len() == 0
}

proof fn lemma_vanilla_has_no_assets(states: Seq<Sweep>, replies: Seq<SweepReply>, n: int)
    requires
        is_sweep_run(states, replies),
        0 < n < states.len(),
    ensures
        holds_nothing(states[n]),
{
    let m = n - 1;
    let reply = replies[m];
    assert(sweep_next(states[m], reply, states[m + 1]));
}

/// How much of an asset the entries hold together.
pub open spec fn held_of(assets: Seq<SweepAsset>, contract_id: Seq<char>) -> int
    decreases assets.len(),
{
    if assets.len() == 0 {
        0
    } else {
        held_of(assets.drop_last(), contract_id) + if assets.last().contract_id@ == contract_id {
            assets.last().amount as int
        } else {
            0
        }
    }
}

/// How much of an asset the outputs carry that were looked at in the first steps of a run.
pub open spec fn found_of(
    states: Seq<Sweep>,
    replies: Seq<SweepReply>,
    n: int,
    contract_id: Seq<char>,
) -> int
    decreases n,
{
    if n <= 0 {
        0
    } else {
        found_of(states, replies, n - 1, contract_id) + match (states[n - 1].stage, replies[n - 1]) {
            (SweepStage::ReadInfo, SweepReply::Info { contract_id: c, output_map }) => {
                let vout = states[n - 1].outpoints@[states[n - 1].pos as int].index as u32;
                if c@ == contract_id && output_map@.dom().contains(vout) {
                    output_map@[vout] as int
                } else {
                    0
                }
            },
            _ => 0,
        }
    }
}

/// How much of an asset is on its way to an entry.
pub open spec fn carried_of(stage: SweepStage, contract_id: Seq<char>) -> int {
    match stage {
        SweepStage::ReadHeight { contract_id: c, amount } => if c@ == contract_id {
            amount as int
        } else {
            0
        },
        SweepStage::UpdateWitnesses { contract_id: c, amount, .. } => if c@ == contract_id {
            amount as int
        } else {
            0
        },
        SweepStage::FindRecipient { contract_id: c, amount } => if c@ == contract_id {
            amount as int
        } else {
            0
        },
        SweepStage::Receive { contract_id: c, amount, .. } => if c@ == contract_id {
            amount as int
        } else {
            0
        },
        SweepStage::AddOutput { contract_id: c, amount, .. } => if c@ == contract_id {
            amount as int
        } else {
            0
        },
        _ => 0,
    }
}

proof fn lemma_held_changes(
    assets: Seq<SweepAsset>,
    i: int,
    new: SweepAsset,
    contract_id: Seq<char>,
)
    requires
        0 <= i < assets.len(),
        new.contract_id@ == assets[i].contract_id@,
    ensures
        held_of(assets.update(i, new), contract_id) == held_of(assets, contract_id) + if new.contract_id@
            == contract_id {
            new.amount - assets[i].amount
        } else {
            0
        },
    decreases assets.len(),
{
    if i == assets.len() - 1 {
        assert(assets.update(i, new).drop_last() =~= assets.drop_last());
    } else {
        assert(assets.update(i, new).drop_last() =~= assets.drop_last().update(i, new));
        lemma_held_changes(assets.drop_last(), i, new, contract_id);
    }
}

proof fn lemma_held_is_total(assets: Seq<SweepAsset>, contract_id: Seq<char>)
    requires
        assets_wf(assets),
    ensures
        held_of(assets, contract_id) == asset_total(assets, contract_id),
    decreases assets.len(),
{
    if assets.len() > 0 {
        let rest = assets.drop_last();
        assert forall|i: int, j: int| 0 <= i < j < rest.len() implies (
        #[trigger] rest[i]).contract_id@ != (#[trigger] rest[j]).contract_id@ by {
            assert(assets[i].contract_id@ != assets[j].contract_id@);
        }
        assert forall|i: int| 0 <= i < rest.len() implies (#[trigger] rest[i]).vout == i by {
            assert(assets[i].vout == i);
        }
        lemma_held_is_total(rest, contract_id);
        lemma_asset_place(rest, contract_id);
        if assets.last().contract_id@ == contract_id && asset_place(rest, contract_id) is Some {
            let i = asset_place(rest, contract_id)->0;
            assert(assets[i].contract_id@ != assets[assets.len() - 1].contract_id@);
        }
    }
}

#[verifier::spinoff_prover]
#[verifier::rlimit(60)]
proof fn lemma_sweep_balance(
    states: Seq<Sweep>,
    replies: Seq<SweepReply>,
    n: int,
    contract_id: Seq<char>,
)
    requires
        is_sweep_run(states, replies),
        states[0].assets@.len() == 0,
        states[0].stage is ReadInfo || states[0].stage is SpendVanilla || states[0].stage is Finished,
        0 <= n < states.len(),
    ensures
        !(states[n].stage matches SweepStage::Finished(Err(_))) ==> held_of(
            states[n].assets@,
            contract_id,
        ) + carried_of(states[n].stage, contract_id) == found_of(states, replies, n, contract_id),
    decreases n,
{
    if n > 0 {
        let m = n - 1;
        lemma_sweep_balance(states, replies, m, contract_id);
        let reply = replies[m];
        let job = states[m];
        assert(sweep_fits(job, reply) && sweep_next(job, reply, states[m + 1]));
        assert(job.wf());
        match job.stage {
            SweepStage::ReadInfo => {
                match reply {
                    SweepReply::Info { output_map, .. } => {
                        if output_map@.len() == 0 {
                            broadcast use vstd::std_specs::hash::group_hash_axioms;

                            assert(output_map@.dom() =~= Set::empty());
                        }
                    },
                    _ => {},
                }
            },
            SweepStage::UpdateWitnesses { contract_id: c, amount, .. } => {
                lemma_asset_place(job.assets@, c@);
                match asset_place(job.assets@, c@) {
                    Some(i) => {
                        lemma_held_changes(
                            job.assets@,
                            i,
                            more_of(job.assets@, i, amount)[i],
                            contract_id,
                        );
                    },
                    None => {},
                }
            },
            SweepStage::AddOutput { contract_id: c, amount, recipient_id } => {
                let added = SweepAsset {
                    contract_id: c,
                    vout: job.assets@.len() as u32,
                    amount,
                    recipient_id,
                };
                assert(job.assets@.push(added).drop_last() =~= job.assets@);
            },
            _ => {},
        }
    }
}

/// A sweep loses no asset and makes none up: once the last output was looked at, what the transaction
/// is colored with is, of every asset, exactly what the outputs carry; and outputs are only spent as
/// plain BTC where none of them carries anything.
pub proof fn law_sweeps_color_what_the_outputs_carry(
    states: Seq<Sweep>,
    replies: Seq<SweepReply>,
    n: int,
    contract_id: Seq<char>,
)
    requires
        is_sweep_run(states, replies),
        states[0].assets@.len() == 0,
        states[0].stage is ReadInfo,
        0 <= n < states.len(),
    ensures
        states[n].stage is CreatePsbt || states[n].stage is Color || states[n].stage is Sign
            || states[n].stage is Persist ==> held_of(states[n].assets@, contract_id) == found_of(
            states,
            replies,
            n,
            contract_id,
        ),
        states[n].stage is SpendVanilla ==> found_of(states, replies, n, contract_id) == 0,
{
    lemma_sweep_balance(states, replies, n, contract_id);
    if n > 0 && states[n].stage is SpendVanilla {
        lemma_vanilla_has_no_assets(states, replies, n);
    }
}

spec fn read_before(states: Seq<Sweep>, n: int, p: int) -> bool {
    exists|i: int| 0 <= i < n && (#[trigger] states[i]).stage is ReadInfo && states[i].pos == p
}

spec fn all_read(states: Seq<Sweep>, n: int, upto: int) -> bool {
    &&& forall|p: int|
        0 <= p < upto ==> #[trigger] read_before(states, n, p)
    &&& forall|i: int|
        0 <= i < n && (#[trigger] states[i]).stage is ReadInfo ==> states[i].pos < upto
}

spec fn is_reading(stage: SweepStage) -> bool {
    stage is ReadHeight || stage is UpdateWitnesses || stage is FindRecipient || stage is Receive
        || stage is AddOutput
}

proof fn lemma_sweep_reads(states: Seq<Sweep>, replies: Seq<SweepReply>, n: int)
    requires
        is_sweep_run(states, replies),
        states[0].pos == 0,
        states[0].stage is ReadInfo,
        0 <= n < states.len(),
    ensures
        !(states[n].stage matches SweepStage::Finished(Err(_))) ==> states[n].outpoints
            == states[0].outpoints && if is_reading(states[n].stage) {
            all_read(states, n, states[n].pos + 1)
        } else {
            all_read(states, n, states[n].pos as int)
        },
        !(states[n].stage is ReadInfo) && !is_reading(states[n].stage) && !(
        states[n].stage matches SweepStage::Finished(Err(_))) ==> states[n].pos
            == states[0].outpoints@.len(),
    decreases n,
{
    if n > 0 {
        let m = n - 1;
        lemma_sweep_reads(states, replies, m);
        let reply = replies[m];
        assert(sweep_next(states[m], reply, states[m + 1]));
        assert(states[m].wf() && states[n].wf());
        if !(states[n].stage matches SweepStage::Finished(Err(_))) {
            let upto = if is_reading(states[n].stage) {
                states[n].pos + 1
            } else {
                states[n].pos as int
            };
            assert forall|p: int| 0 <= p < upto implies #[trigger] read_before(states, n, p) by {
                if states[m].stage is ReadInfo && p == states[m].pos {
                    assert(states[m].stage is ReadInfo);
                } else {
                    assert(read_before(states, m, p));
                    let i = choose|i: int|
                        0 <= i < m && (#[trigger] states[i]).stage is ReadInfo && states[i].pos == p;
                    assert(states[i].stage is ReadInfo);
                }
            }
        }
    }
}

/// A sweep looks at every output, in order and once each, before it makes a transaction of them.
pub proof fn law_sweeps_look_at_every_output_once(
    states: Seq<Sweep>,
    replies: Seq<SweepReply>,
    n: int,
    p: int,
)
    requires
        is_sweep_run(states, replies),
        states[0].pos == 0,
        states[0].stage is ReadInfo,
        0 <= n < states.len(),
        states[n].stage is CreatePsbt || states[n].stage is SpendVanilla
            || states[n].stage is Persist,
        0 <= p < states[0].outpoints@.len(),
    ensures
        exists|i: int| 0 <= i < n && (#[trigger] states[i]).stage is ReadInfo && states[i].pos == p,
        forall|i: int, j: int|
            0 <= i < j < n && states[i].stage is ReadInfo && states[j].stage is ReadInfo ==> (
            #[trigger] states[i]).pos < (#[trigger] states[j]).pos,
{
    lemma_sweep_reads(states, replies, n);
    assert(read_before(states, n, p));
    assert forall|i: int, j: int|
        0 <= i < j < n && states[i].stage is ReadInfo && states[j].stage is ReadInfo implies (
    #[trigger] states[i]).pos < (#[trigger] states[j]).pos by {
        lemma_sweep_reads(states, replies, j);
    }
}

/// A transfer whose outputs do not name the swept one, or that cannot be read, fails the sweep: nothing
/// is spent whose assets are unknown. So does an unconfirmed transaction.
pub proof fn law_outputs_of_unknown_content_are_not_swept(
    job: Sweep,
    reply: SweepReply,
    next: Sweep,
)
    requires
        job.wf(),
        sweep_fits(job, reply),
        sweep_next(job, reply, next),
        reply is Undecodable || reply is Failed || reply is WorkerFailed || reply is BadWitness
            || reply is ConvertFailed || reply == SweepReply::Height(None) || (
        reply matches SweepReply::Witnesses(Some(_))) || reply == SweepReply::Script(false)
            || reply == SweepReply::Tx(None) || reply == SweepReply::Psbt(None) || (
        reply matches SweepReply::Info { output_map, .. } && output_map@.len() != 0
            && !output_map@.dom().contains(job.outpoints@[job.pos as int].index as u32)),
        !(job.stage is RemoveConsignment),
    ensures
        next.stage matches SweepStage::Finished(Err(_)),
{
}

/// An output for an asset is worth the dust limit in whole satoshis, and a colored transaction is made
/// at the configured fee rate: a thousand weight units are 250 virtual bytes.
pub proof fn law_sweep_effects_use_the_configured_terms(
    job: Sweep,
    terms: SweepTerms,
    effect: SweepEffect,
)
    requires
        is_effect(job, terms, effect),
        terms.fee_rate_sat_vb <= u32::MAX,
    ensures
        effect matches SweepEffect::AddOutput { value_sat, .. } ==> value_sat * 1000
            <= terms.dust_limit_msat < value_sat * 1000 + 1000,
        effect matches SweepEffect::CreatePsbt { feerate_sat_per_1000_weight } ==> 4
            * feerate_sat_per_1000_weight == 1000 * terms.fee_rate_sat_vb,
        effect matches SweepEffect::SpendVanilla { feerate_sat_per_1000_weight } ==> feerate_sat_per_1000_weight
            == terms.feerate_sat_per_1000_weight,
        effect matches SweepEffect::Color { assets, .. } ==> assets@ == job.assets@,
{
}

/// The file that a consignment is saved to is the one that is handed to the wallet and then removed; it
/// is named by the transaction and the asset.
pub proof fn law_consignments_go_through_one_file(
    job: Sweep,
    sweep: SignedSweep,
    k: usize,
    terms: SweepTerms,
    saved: SweepEffect,
    provided: SweepEffect,
    removed: SweepEffect,
)
    requires
        is_effect(
            Sweep { stage: SweepStage::SaveConsignment { sweep, k }, ..job },
            terms,
            saved,
        ),
        is_effect(
            Sweep { stage: SweepStage::ProvideConsignment { sweep, k }, ..job },
            terms,
            provided,
        ),
        is_effect(
            Sweep { stage: SweepStage::RemoveConsignment { sweep, k }, ..job },
            terms,
            removed,
        ),
    ensures
        saved matches SweepEffect::SaveConsignment { file, contract_id } && file@ == "consignment_"@
            + sweep.txid@ + "_"@ + contract_id@ && contract_id == sweep.contract_ids@[k as int],
        provided matches SweepEffect::ProvideConsignment { file } && file@
            == saved->SaveConsignment_file@,
        removed matches SweepEffect::RemoveConsignment { file } && file@
            == saved->SaveConsignment_file@,
{
}

proof fn lemma_recipient_of(
    entries: Seq<SweepRecipient>,
    descriptors: u64,
    contract_id: Seq<char>,
    keeps: spec_fn(SweepRecipient) -> bool,
)
    ensures
        (forall|e: SweepRecipient| is_for(e, descriptors, contract_id) ==> #[trigger] keeps(e))
            ==> recipient_of(entries.filter(keeps), descriptors, contract_id) == recipient_of(
            entries,
            descriptors,
            contract_id,
        ),
        (forall|e: SweepRecipient| is_for(e, descriptors, contract_id) ==> !(#[trigger] keeps(e)))
            ==> recipient_of(entries.filter(keeps), descriptors, contract_id) is None,
    decreases entries.len(),
{
    reveal(Seq::filter);
    if entries.len() > 0 {
        lemma_recipient_of(entries.drop_last(), descriptors, contract_id, keeps);
        let rest = entries.drop_last().filter(keeps);
        assert(rest.push(entries.last()).drop_last() =~= rest);
        let _ = keeps(entries.last());
    }
}

/// A kept receive is found again for the same outputs and asset while it lasts, with the margin to
/// spare, and is dropped by the first look after that; the one kept last counts. The receives of other
/// outputs and assets are not affected.
pub proof fn law_kept_receives_are_found_again(
    entries: Seq<SweepRecipient>,
    descriptors: u64,
    contract_id: String,
    recipient_id: String,
    expiration: u64,
    now: u64,
    reuse_addresses: bool,
    other_descriptors: u64,
    other_contract_id: Seq<char>,
)
    ensures
        ({
            let kept = remembered(entries, descriptors, contract_id, recipient_id, expiration);
            let found = looked_up(kept, descriptors, contract_id@, now, reuse_addresses);
            let margin: int = if reuse_addresses {
                300
            } else {
                3600
            };
            &&& now + margin < expiration ==> found.0 == Some(recipient_id) && found.1 == kept
            &&& now + margin >= expiration ==> found.0 is None && looked_up(
                found.1,
                descriptors,
                contract_id@,
                0,
                reuse_addresses,
            ).0 is None
            &&& other_descriptors != descriptors || other_contract_id != contract_id@ ==> looked_up(
                kept,
                other_descriptors,
                other_contract_id,
                now,
                reuse_addresses,
            ).0 == looked_up(entries, other_descriptors, other_contract_id, now, reuse_addresses).0
        }),
{
    let keeps = |e: SweepRecipient| !is_for(e, descriptors, contract_id@);
    let new = SweepRecipient { descriptors, contract_id, recipient_id, expiration };
    let kept = entries.filter(keeps).push(new);
    assert(kept.drop_last() =~= entries.filter(keeps));
    lemma_recipient_of(entries, other_descriptors, other_contract_id, keeps);
    lemma_recipient_of(kept, descriptors, contract_id@, keeps);
}

/// Once a sweep is done none of its receives is found any more; those of other sweeps are.
pub proof fn law_finished_sweeps_forget_their_receives(
    entries: Seq<SweepRecipient>,
    descriptors: u64,
    other: u64,
    contract_id: Seq<char>,
    now: u64,
    reuse_addresses: bool,
)
    ensures
        looked_up(completed(entries, descriptors), descriptors, contract_id, now, reuse_addresses).0 is None,
        other != descriptors ==> looked_up(
            completed(entries, descriptors),
            other,
            contract_id,
            now,
            reuse_addresses,
        ).0 == looked_up(entries, other, contract_id, now, reuse_addresses).0,
{
    let keeps = |e: SweepRecipient| e.descriptors != descriptors;
    lemma_recipient_of(entries, descriptors, contract_id, keeps);
    lemma_recipient_of(entries, other, contract_id, keeps);
}

/// An output that carries an asset is asked after, with the asset and the amount that its transfer says;
/// one that carries none is passed by, and nothing is added for it.
pub proof fn law_carried_amounts_are_looked_into(
    job: Sweep,
    contract_id: String,
    output_map: Map<u32, u64>,
    reply: SweepReply,
    next: Sweep,
)
    requires
        job.wf(),
        sweep_fits(job, reply),
        sweep_next(job, reply, next),
        reply matches SweepReply::Info { contract_id: c, output_map: m } && c == contract_id && m@
            == output_map,
    ensures
        ({
            let vout = job.outpoints@[job.pos as int].index as u32;
            let carries = output_map.len() != 0 && output_map.dom().contains(vout)
                && output_map[vout] != 0;
            &&& carries ==> next == (Sweep {
                stage: SweepStage::ReadHeight { contract_id, amount: output_map[vout] },
                ..job
            })
            &&& output_map.len() == 0 || (output_map.dom().contains(vout) && output_map[vout] == 0)
                ==> next.pos == job.pos + 1 && next.assets == job.assets && next.outpoints
                == job.outpoints
        }),
{
}

/// A sweep begins with the outputs that it was given, all of them to be looked at, and with no asset; what
/// was refused or handed out before ends at once, and nothing else does.
pub proof fn law_sweeps_begin_with_every_output(
    admitted: Result<(), String>,
    txes: Map<u64, Seq<u8>>,
    descriptors: u64,
    outpoints: Vec<SweepOutpoint>,
    r: Sweep,
)
    requires
        sweep_starts(admitted, txes, descriptors, outpoints, r),
    ensures
        r.outpoints == outpoints && r.pos == 0 && r.assets@.len() == 0,
        r.stage is Finished <==> admitted is Err || txes.dom().contains(descriptors),
        admitted is Err ==> r.stage->Finished_0 is Err,
        admitted is Ok && txes.dom().contains(descriptors) ==> r.stage->Finished_0 is Ok
            && r.stage->Finished_0->Ok_0@ == txes[descriptors],
        !(r.stage is Finished) ==> (r.stage is ReadInfo <==> outpoints@.len() > 0),
{
}

} // verus!
