//! Funding a virtual channel: its transaction is made and signed, but never broadcast.

use vstd::pervasive::unreached;
use vstd::prelude::*;
use vstd::string::*;

use crate::crypto::{final_channel_id, funding_channel_id, txid_bytes};
use crate::error::RgbLibError;
use crate::funding_handover::{first_place, law_first_place_is_the_first, place_of_script, CloseReason};
use crate::open_failure::{handle_funding_prepare_err, is_transient, PrepareFailure};
use crate::psbt::{extract_error, extract_tx, psbt_extracted, ExtractedTx, ExtractedView};
use crate::sender_funding::RgbInfo;
use crate::text::{fixed_hex, hex, join2, text};

verus! {

/// The outpoint that funds a virtual channel, with the channel ID that follows from it.
#[derive(Debug, PartialEq, Eq)]
pub struct VirtualOutpoint {
    pub txid: String,
    pub index: u16,
    pub channel_id: String,
}

/// Where the funding of a virtual channel stands: the effect that comes next, or how it ended.
#[derive(Debug, PartialEq, Eq)]
pub enum VirtualStep {
    /// Begins the transfer, consumes its fascia and writes its consignments.
    PrepareTransfer,
    /// Reads the pending metadata of the temporary channel, to record the transfer in it.
    ReadPendingInfo { psbt: String, batch_transfer_idx: Option<i32> },
    WritePendingInfo { psbt: String, info: RgbInfo },
    Sign(String),
    /// Looks whether a session is funded by the outpoint already.
    CheckDuplicate,
    /// Registers the transaction as a tentative witness.
    UpsertWitness,
    ReadConsignment,
    QueueConsignment,
    ListMedia,
    ReadMedia { k: usize, count: usize },
    QueueMedia { k: usize, count: usize },
    ProcessEvents,
    /// Removes the consignment file; a failure is ignored.
    RemoveFile(AfterRemoval),
    /// Registers the funding with the channel manager.
    Register,
    /// Makes the channel's metadata final, marks the channel, and turns the draft into a session.
    Complete,
    /// Drops the marker and the draft of the temporary channel.
    Discard,
    /// Closes the channel; a failure is only logged.
    Close(CloseReason),
    /// The event was handled.
    Done,
    /// The event is to be replayed.
    Replay,
}

/// What comes once the consignment file is gone.
#[derive(Debug, PartialEq, Eq)]
pub enum AfterRemoval {
    Register,
    Close(CloseReason),
    Replay,
}

/// The funding of a virtual channel.
#[derive(Debug)]
pub struct VirtualFunding {
    /// The script of the funding output.
    pub script: Vec<u8>,
    /// The synthetic outpoint, until a colored transaction takes its place.
    pub outpoint: VirtualOutpoint,
    pub peer_knows_asset: bool,
    pub step: VirtualStep,
}

/// What the caller got back.
#[derive(Debug)]
pub enum VirtualReply {
    Done,
    Failed(String),
    WalletFailed(RgbLibError),
    Prepared { psbt: String, batch_transfer_idx: Option<i32> },
    Info(Option<RgbInfo>),
    Signed(String),
    /// Whether a session is funded by the outpoint already.
    Duplicate(bool),
    Media(usize),
}

/// Whether a reply answers the effect of a step.
pub open spec fn virtual_fits(step: VirtualStep, reply: VirtualReply) -> bool {
    match step {
        VirtualStep::PrepareTransfer => reply is Prepared || reply is Failed,
        VirtualStep::ReadPendingInfo { .. } => reply is Info,
        VirtualStep::Sign(_) => reply is Signed || reply is Failed,
        VirtualStep::CheckDuplicate => reply is Duplicate,
        VirtualStep::UpsertWitness
        | VirtualStep::ReadConsignment
        | VirtualStep::QueueConsignment
        | VirtualStep::ReadMedia { .. }
        | VirtualStep::QueueMedia { .. }
        | VirtualStep::RemoveFile(_)
        | VirtualStep::Register
        | VirtualStep::Close(_) => reply is Done || reply is Failed,
        VirtualStep::ListMedia => reply is Media || reply is WalletFailed,
        VirtualStep::WritePendingInfo { .. }
        | VirtualStep::ProcessEvents
        | VirtualStep::Complete
        | VirtualStep::Discard => reply is Done,
        VirtualStep::Done | VirtualStep::Replay => false,
    }
}

impl VirtualFunding {
    pub open spec fn wf(self) -> bool {
        match self.step {
            VirtualStep::ReadMedia { k, count } => k < count,
            VirtualStep::QueueMedia { k, count } => k < count,
            _ => true,
        }
    }

    pub open spec fn to(self, step: VirtualStep) -> Self {
        VirtualFunding { step, ..self }
    }
}

/// The channel is closed once the consignment file is gone.
pub open spec fn drops_file(job: VirtualFunding, next: VirtualFunding, reason: Seq<char>) -> bool {
    &&& next == job.to(next.step)
    &&& next.step matches VirtualStep::RemoveFile(AfterRemoval::Close(CloseReason::Text(t))) && t@
        == reason
}

/// What follows from the signed transaction of a colored channel.
pub open spec fn after_virtual_signing(
    job: VirtualFunding,
    extracted: Result<ExtractedView, Seq<char>>,
    next: VirtualFunding,
) -> bool {
    if extract_error(extracted) is Some {
        next == job.to(VirtualStep::Replay)
    } else {
        let t = extracted->Ok_0;
        let place = first_place(t.scripts, job.script@);
        if place >= t.scripts.len() {
            next == job.to(VirtualStep::Replay)
        } else {
            let index = (place % 0x1_0000) as u16;
            &&& next.script == job.script
            &&& next.peer_knows_asset == job.peer_knows_asset
            &&& next.step is CheckDuplicate
            &&& next.outpoint.txid@ == t.txid
            &&& next.outpoint.index == index
            &&& next.outpoint.channel_id@ == hex(funding_channel_id(txid_bytes(t.txid), index))
        }
    }
}

/// The next media file, or what comes after the last.
pub open spec fn virtual_media(k: int, count: usize) -> VirtualStep {
    if k < count {
        VirtualStep::ReadMedia { k: k as usize, count }
    } else {
        VirtualStep::ProcessEvents
    }
}

/// What follows from a reply.
pub open spec fn virtual_next(
    job: VirtualFunding,
    reply: VirtualReply,
    next: VirtualFunding,
) -> bool {
    match job.step {
        VirtualStep::PrepareTransfer => next == job.to(
            match reply {
                VirtualReply::Prepared { psbt, batch_transfer_idx } => VirtualStep::ReadPendingInfo {
                    psbt,
                    batch_transfer_idx,
                },
                _ => VirtualStep::Replay,
            },
        ),
        VirtualStep::ReadPendingInfo { psbt, batch_transfer_idx } => next == job.to(
            match reply {
                VirtualReply::Info(Some(info)) => VirtualStep::WritePendingInfo {
                    psbt,
                    info: RgbInfo { batch_transfer_idx, ..info },
                },
                _ => VirtualStep::Sign(psbt),
            },
        ),
        VirtualStep::WritePendingInfo { psbt, .. } => next == job.to(VirtualStep::Sign(psbt)),
        VirtualStep::Sign(_) => match reply {
            VirtualReply::Signed(s) => after_virtual_signing(job, psbt_extracted(s@), next),
            _ => next == job.to(VirtualStep::Replay),
        },
        VirtualStep::CheckDuplicate => next == job.to(
            if reply == VirtualReply::Duplicate(true) {
                VirtualStep::Discard
            } else {
                VirtualStep::UpsertWitness
            },
        ),
        VirtualStep::UpsertWitness => next == job.to(
            if reply is Done {
                VirtualStep::ReadConsignment
            } else {
                VirtualStep::Replay
            },
        ),
        VirtualStep::ReadConsignment => match reply {
            VirtualReply::Failed(e) => next == job.to(next.step) && (
            next.step matches VirtualStep::Close(CloseReason::Text(t)) && t@
                == "cannot read funding consignment: "@ + e@),
            _ => next == job.to(VirtualStep::QueueConsignment),
        },
        VirtualStep::QueueConsignment => match reply {
            VirtualReply::Failed(_) => drops_file(
                job,
                next,
                "consignment is too large to send over p2p"@,
            ),
            _ => next == job.to(
                if job.peer_knows_asset {
                    VirtualStep::ProcessEvents
                } else {
                    VirtualStep::ListMedia
                },
            ),
        },
        VirtualStep::ListMedia => next == job.to(
            match reply {
                VirtualReply::Media(count) => virtual_media(0, count),
                _ => {
                    let e = reply->WalletFailed_0;
                    if is_transient(e) {
                        VirtualStep::RemoveFile(AfterRemoval::Replay)
                    } else {
                        VirtualStep::RemoveFile(AfterRemoval::Close(CloseReason::Error(e)))
                    }
                },
            },
        ),
        VirtualStep::ReadMedia { k, count } => match reply {
            VirtualReply::Failed(e) => drops_file(
                job,
                next,
                "cannot read asset media file: "@ + e@,
            ),
            _ => next == job.to(VirtualStep::QueueMedia { k, count }),
        },
        VirtualStep::QueueMedia { k, count } => match reply {
            VirtualReply::Failed(_) => drops_file(
                job,
                next,
                "asset media is too large to send over p2p"@,
            ),
            _ => next == job.to(virtual_media(k + 1, count)),
        },
        VirtualStep::ProcessEvents => next == job.to(
            VirtualStep::RemoveFile(AfterRemoval::Register),
        ),
        VirtualStep::RemoveFile(after) => next == job.to(
            match after {
                AfterRemoval::Register => VirtualStep::Register,
                AfterRemoval::Close(reason) => VirtualStep::Close(reason),
                AfterRemoval::Replay => VirtualStep::Replay,
            },
        ),
        VirtualStep::Register => next == job.to(
            if reply is Done {
                VirtualStep::Complete
            } else {
                VirtualStep::Discard
            },
        ),
        VirtualStep::Complete | VirtualStep::Discard | VirtualStep::Close(_) => next == job.to(
            VirtualStep::Done,
        ),
        VirtualStep::Done | VirtualStep::Replay => false,
    }
}

/// Where the funding of a virtual channel starts.
pub open spec fn virtual_starts(
    script: Vec<u8>,
    outpoint: VirtualOutpoint,
    duplicate: bool,
    is_colored: bool,
    peer_knows_asset: bool,
    r: VirtualFunding,
) -> bool {
    &&& r == (VirtualFunding {
                script,
                outpoint,
                peer_knows_asset,
                step: if duplicate {
                    VirtualStep::Discard
                } else if is_colored {
                    VirtualStep::PrepareTransfer
                } else {
                    VirtualStep::Register
                },
            })
}

impl VirtualFunding {
    /// Starts to fund a virtual channel under its synthetic outpoint, which no session may have yet.
    pub fn new(
        script: Vec<u8>,
        outpoint: VirtualOutpoint,
        duplicate: bool,
        is_colored: bool,
        peer_knows_asset: bool,
    ) -> (r: Self)
        ensures
            r.wf(),
            virtual_starts(script, outpoint, duplicate, is_colored, peer_knows_asset, r),
    {
        let step = if duplicate {
            VirtualStep::Discard
        } else if is_colored {
            VirtualStep::PrepareTransfer
        } else {
            VirtualStep::Register
        };
        VirtualFunding { script, outpoint, peer_knows_asset, step }
    }

    fn at(self, step: VirtualStep) -> (r: Self)
        ensures
            r == self.to(step),
    {
        VirtualFunding {
            script: self.script,
            outpoint: self.outpoint,
            peer_knows_asset: self.peer_knows_asset,
            step,
        }
    }

    fn drop_file(self, reason: String) -> (r: Self)
        ensures
            r.wf(),
            drops_file(self, r, reason@),
    {
        self.at(VirtualStep::RemoveFile(AfterRemoval::Close(CloseReason::Text(reason))))
    }

    fn on_extracted(self, t: ExtractedTx) -> (next: Self)
        requires
            t.missing_value is None,
            fixed_hex(t.txid@, 32),
        ensures
            next.wf(),
            after_virtual_signing(self, Ok::<ExtractedView, Seq<char>>(t@), next),
    {
        let place: usize = place_of_script(&t.scripts, &self.script);
        if place >= t.scripts.len() {
            return self.at(VirtualStep::Replay);
        }
        let index: u16 = (place % 0x1_0000) as u16;
        let channel_id = match final_channel_id(t.txid.as_str(), index) {
            Ok(id) => id,
            Err(_) => unreached(),
        };
        VirtualFunding {
            script: self.script,
            outpoint: VirtualOutpoint { txid: t.txid, index, channel_id },
            peer_knows_asset: self.peer_knows_asset,
            step: VirtualStep::CheckDuplicate,
        }
    }

    /// Decides what follows from a reply.
    pub fn advance(self, reply: VirtualReply) -> (next: Self)
        requires
            self.wf(),
            virtual_fits(self.step, reply),
        ensures
            next.wf(),
            virtual_next(self, reply, next),
    {
        let VirtualFunding { script, outpoint, peer_knows_asset, step } = self;
        let job = VirtualFunding { script, outpoint, peer_knows_asset, step: VirtualStep::Register };
        match step {
            VirtualStep::PrepareTransfer => match reply {
                VirtualReply::Prepared { psbt, batch_transfer_idx } => job.at(
                    VirtualStep::ReadPendingInfo { psbt, batch_transfer_idx },
                ),
                _ => job.at(VirtualStep::Replay),
            },
            VirtualStep::ReadPendingInfo { psbt, batch_transfer_idx } => match reply {
                VirtualReply::Info(Some(info)) => {
                    let mut info = info;
                    info.batch_transfer_idx = batch_transfer_idx;
                    job.at(VirtualStep::WritePendingInfo { psbt, info })
                },
                _ => job.at(VirtualStep::Sign(psbt)),
            },
            VirtualStep::WritePendingInfo { psbt, .. } => job.at(VirtualStep::Sign(psbt)),
            VirtualStep::Sign(_) => match reply {
                VirtualReply::Signed(s) => match extract_tx(s.as_str()) {
                    Ok(t) => if t.missing_value.is_none() {
                        job.on_extracted(t)
                    } else {
                        job.at(VirtualStep::Replay)
                    },
                    Err(_) => job.at(VirtualStep::Replay),
                },
                _ => job.at(VirtualStep::Replay),
            },
            VirtualStep::CheckDuplicate => match reply {
                VirtualReply::Duplicate(true) => job.at(VirtualStep::Discard),
                _ => job.at(VirtualStep::UpsertWitness),
            },
            VirtualStep::UpsertWitness => match reply {
                VirtualReply::Done => job.at(VirtualStep::ReadConsignment),
                _ => job.at(VirtualStep::Replay),
            },
            VirtualStep::ReadConsignment => match reply {
                VirtualReply::Failed(e) => job.at(
                    VirtualStep::Close(
                        CloseReason::Text(
                            join2("cannot read funding consignment: ", e.as_str()),
                        ),
                    ),
                ),
                _ => job.at(VirtualStep::QueueConsignment),
            },
            VirtualStep::QueueConsignment => match reply {
                VirtualReply::Failed(_) => job.drop_file(
                    text("consignment is too large to send over p2p"),
                ),
                _ => if job.peer_knows_asset {
                    job.at(VirtualStep::ProcessEvents)
                } else {
                    job.at(VirtualStep::ListMedia)
                },
            },
            VirtualStep::ListMedia => match reply {
                VirtualReply::Media(count) => job.at(next_media(0, count)),
                VirtualReply::WalletFailed(e) => match handle_funding_prepare_err(e) {
                    PrepareFailure::Replay => job.at(
                        VirtualStep::RemoveFile(AfterRemoval::Replay),
                    ),
                    PrepareFailure::Close(e) => job.at(
                        VirtualStep::RemoveFile(AfterRemoval::Close(CloseReason::Error(e))),
                    ),
                },
                _ => unreached(),
            },
            VirtualStep::ReadMedia { k, count } => match reply {
                VirtualReply::Failed(e) => job.drop_file(
                    join2("cannot read asset media file: ", e.as_str()),
                ),
                _ => job.at(VirtualStep::QueueMedia { k, count }),
            },
            VirtualStep::QueueMedia { k, count } => match reply {
                VirtualReply::Failed(_) => job.drop_file(
                    text("asset media is too large to send over p2p"),
                ),
                _ => job.at(next_media(k + 1, count)),
            },
            VirtualStep::ProcessEvents => job.at(VirtualStep::RemoveFile(AfterRemoval::Register)),
            VirtualStep::RemoveFile(after) => match after {
                AfterRemoval::Register => job.at(VirtualStep::Register),
                AfterRemoval::Close(reason) => job.at(VirtualStep::Close(reason)),
                AfterRemoval::Replay => job.at(VirtualStep::Replay),
            },
            VirtualStep::Register => match reply {
                VirtualReply::Done => job.at(VirtualStep::Complete),
                _ => job.at(VirtualStep::Discard),
            },
            VirtualStep::Complete | VirtualStep::Discard | VirtualStep::Close(_) => job.at(
                VirtualStep::Done,
            ),
            VirtualStep::Done | VirtualStep::Replay => unreached(),
        }
    }
}

fn next_media(k: usize, count: usize) -> (r: VirtualStep)
    ensures
        r == virtual_media(k as int, count),
{
    if k < count {
        VirtualStep::ReadMedia { k, count }
    } else {
        VirtualStep::ProcessEvents
    }
}

/// A virtual channel becomes a session only after the channel manager took its funding, and a colored
/// one is registered only under an outpoint that no session has.
pub proof fn law_sessions_follow_registration(
    job: VirtualFunding,
    reply: VirtualReply,
    next: VirtualFunding,
)
    requires
        job.wf(),
        virtual_fits(job.step, reply),
        virtual_next(job, reply, next),
    ensures
        next.step is Complete ==> job.step is Register && reply is Done && next.outpoint
            == job.outpoint,
        next.step is UpsertWitness ==> job.step is CheckDuplicate && reply
            == VirtualReply::Duplicate(false) && next.outpoint == job.outpoint,
{
}

/// The funding of a virtual channel starts where the channel needs it to: an outpoint that a session has
/// already is given up, a colored one has its transfer prepared, a plain one is registered at once.
pub proof fn law_virtual_fundings_start_by_their_color(
    script: Vec<u8>,
    outpoint: VirtualOutpoint,
    duplicate: bool,
    is_colored: bool,
    peer_knows_asset: bool,
    r: VirtualFunding,
)
    requires
        virtual_starts(script, outpoint, duplicate, is_colored, peer_knows_asset, r),
    ensures
        duplicate ==> r.step is Discard,
        !duplicate && is_colored ==> r.step is PrepareTransfer,
        !duplicate && !is_colored ==> r.step is Register,
        r.outpoint == outpoint && r.script == script && r.peer_knows_asset == peer_knows_asset,
{
}

/// The funding of a colored virtual channel skips nothing: its transfer is recorded in the pending
/// metadata before it is signed, its witness registered before the consignment is sent, its consignment
/// and every media file that the peer lacks are queued before it is registered.
pub proof fn law_virtual_fundings_skip_nothing(
    job: VirtualFunding,
    reply: VirtualReply,
    next: VirtualFunding,
)
    requires
        job.wf(),
        virtual_fits(job.step, reply),
        virtual_next(job, reply, next),
    ensures
        match next.step {
            VirtualStep::PrepareTransfer => false,
            VirtualStep::ReadPendingInfo { psbt, batch_transfer_idx } => job.step is PrepareTransfer
                && reply == (VirtualReply::Prepared { psbt, batch_transfer_idx }),
            VirtualStep::WritePendingInfo { psbt, info } => job.step is ReadPendingInfo
                && job.step->ReadPendingInfo_psbt == psbt && info.batch_transfer_idx
                == job.step->ReadPendingInfo_batch_transfer_idx && (
            reply matches VirtualReply::Info(Some(old)) && old.local_rgb_amount
                == info.local_rgb_amount && old.remote_rgb_amount == info.remote_rgb_amount
                && old.contract_id == info.contract_id),
            VirtualStep::Sign(psbt) => (job.step is WritePendingInfo && job.step->WritePendingInfo_psbt
                == psbt) || (job.step is ReadPendingInfo && job.step->ReadPendingInfo_psbt == psbt
                && reply == VirtualReply::Info(None)),
            VirtualStep::CheckDuplicate => job.step is Sign && reply is Signed,
            VirtualStep::UpsertWitness => job.step is CheckDuplicate && reply
                == VirtualReply::Duplicate(false),
            VirtualStep::ReadConsignment => job.step is UpsertWitness && reply is Done,
            VirtualStep::QueueConsignment => job.step is ReadConsignment && reply is Done,
            VirtualStep::ListMedia => job.step is QueueConsignment && reply is Done
                && !job.peer_knows_asset,
            VirtualStep::ReadMedia { k, count } => (k == 0 && job.step is ListMedia && reply
                == VirtualReply::Media(count)) || (k > 0 && job.step == (VirtualStep::QueueMedia {
                k: (k - 1) as usize,
                count,
            }) && reply is Done),
            VirtualStep::QueueMedia { k, count } => job.step == (VirtualStep::ReadMedia { k, count })
                && reply is Done,
            VirtualStep::ProcessEvents => (job.step is QueueConsignment && reply is Done
                && job.peer_knows_asset) || (job.step is ListMedia && reply == VirtualReply::Media(0)) || (
            job.step matches VirtualStep::QueueMedia { k, count } && k + 1 == count && reply is Done),
            VirtualStep::RemoveFile(AfterRemoval::Register) => job.step is ProcessEvents,
            VirtualStep::Register => job.step == VirtualStep::RemoveFile(AfterRemoval::Register),
            VirtualStep::Complete => job.step is Register && reply is Done,
            VirtualStep::Discard => (job.step is CheckDuplicate && reply == VirtualReply::Duplicate(
                true,
            )) || (job.step is Register && reply is Failed),
            VirtualStep::Done => job.step is Complete || job.step is Discard || job.step is Close,
            _ => true,
        },
{
}

/// A failure never leads to a registered channel: it has the event replayed, or the channel closed, or
/// what was begun dropped; and a good reply never does that.
pub proof fn law_failed_virtual_steps_stop_the_funding(
    job: VirtualFunding,
    reply: VirtualReply,
    next: VirtualFunding,
)
    requires
        job.wf(),
        virtual_fits(job.step, reply),
        virtual_next(job, reply, next),
    ensures
        (reply is Failed || reply is WalletFailed) && !(job.step is RemoveFile) && !(
        job.step is Close) ==> next.step is Replay || next.step is Close || next.step is Discard
            || next.step == VirtualStep::RemoveFile(AfterRemoval::Replay) || (
        next.step matches VirtualStep::RemoveFile(AfterRemoval::Close(_))),
        reply is Done && (job.step is UpsertWitness || job.step is ReadConsignment
            || job.step is QueueConsignment || job.step is ReadMedia || job.step is QueueMedia
            || job.step is ProcessEvents || job.step is Register) ==> !(next.step is Replay) && !(
        next.step is Close) && !(next.step is Discard),
        job.step is ListMedia && (reply matches VirtualReply::WalletFailed(e)) ==> (next.step
            == VirtualStep::RemoveFile(AfterRemoval::Replay) <==> (reply->WalletFailed_0 is Indexer
            || reply->WalletFailed_0 is InvalidIndexer || reply->WalletFailed_0 is Network)),
        job.step matches VirtualStep::RemoveFile(AfterRemoval::Close(reason)) ==> next.step
            == VirtualStep::Close(reason),
        job.step == VirtualStep::RemoveFile(AfterRemoval::Replay) ==> next.step is Replay,
        next.script == job.script && next.peer_knows_asset == job.peer_knows_asset,
        !(job.step is Sign) ==> next.outpoint == job.outpoint,
{
}

/// A colored virtual channel is funded by the output of its own transaction that pays to its script, the
/// first one, and its channel ID follows from that output.
pub proof fn law_virtual_outpoints_pay_to_the_channel(
    job: VirtualFunding,
    signed: String,
    next: VirtualFunding,
)
    requires
        job.wf(),
        job.step is Sign,
        virtual_next(job, VirtualReply::Signed(signed), next),
        psbt_extracted(signed@) is Ok ==> psbt_extracted(signed@)->Ok_0.scripts.len() <= 0x1_0000,
    ensures
        next.step is CheckDuplicate || next.step is Replay,
        next.step is CheckDuplicate ==> {
            let t = psbt_extracted(signed@)->Ok_0;
            let i = next.outpoint.index as int;
            &&& psbt_extracted(signed@) is Ok
            &&& next.outpoint.txid@ == t.txid
            &&& 0 <= i < t.scripts.len() && t.scripts[i] == job.script@
            &&& forall|k: int| 0 <= k < i ==> #[trigger] t.scripts[k] != job.script@
            &&& next.outpoint.channel_id@ == hex(
                funding_channel_id(txid_bytes(t.txid), next.outpoint.index),
            )
        },
{
    if psbt_extracted(signed@) is Ok {
        law_first_place_is_the_first(psbt_extracted(signed@)->Ok_0.scripts, job.script@);
    }
}

} // verus!
