//! Signing a prepared funding and handing it to the channel manager.
//!
//! Everything that a restart needs is on disk before the channel manager gets to see the
//! transaction. Whatever fails before undoes what the preparation staged.

use vstd::pervasive::unreached;
use vstd::prelude::*;
use vstd::string::*;

use crate::crypto::{final_channel_id, funding_channel_id, txid_bytes};
use crate::error::{internal, is_internal, rgb_sender_funding_error, RgbLibError};
use crate::kv_store::StoreError;
use crate::open_failure::{handle_funding_prepare_err, is_transient, PrepareFailure};
use crate::psbt::{
    canonical_psbt, extract_error, extract_tx, psbt_canonical, psbt_extracted, ExtractedTx,
    ExtractedView,
};
use crate::sender_funding::{RgbInfo, RgbSenderFundingRecord, RgbSenderFundingStage};
use crate::text::{copy, fixed_hex, hex, join2, same, text};

verus! {

/// What is done once the staged funding is undone.
#[derive(Debug, PartialEq, Eq)]
pub enum AfterAbort {
    /// The event is replayed.
    Replay,
    /// The error is acted upon, unless undoing failed too.
    Report(RgbLibError),
    /// Nothing: the channel is gone.
    Ignore,
}

/// Why a channel is closed.
#[derive(Debug, PartialEq, Eq)]
pub enum CloseReason {
    Error(RgbLibError),
    Text(String),
}

/// A funding that is fully signed.
#[derive(Debug, PartialEq, Eq)]
pub struct SignedFunding {
    pub txid: String,
    pub tx: Vec<u8>,
    /// The signed transaction as it is stored.
    pub psbt: String,
    pub final_channel_id: String,
}

/// Where a handover stands: the effect that comes next, or how it ended.
#[derive(Debug, PartialEq, Eq)]
pub enum HandoverStep {
    /// Reads the pending metadata of the temporary channel, to record the transfer in it.
    ReadPendingInfo,
    WritePendingInfo(RgbInfo),
    Sign,
    /// Undoes what the preparation staged.
    Abort(AfterAbort),
    /// Journals that the funding is ready to be handed over.
    WriteHandoffReady,
    /// Writes the pending-funding marker of the final channel.
    WriteMarker,
    /// Stores the signed transaction.
    WritePsbt,
    /// Registers the transaction as a tentative witness.
    UpsertWitness,
    /// Reads the consignment that the wallet wrote.
    ReadConsignment,
    /// Stores the consignment; a failure is only logged.
    StoreConsignment,
    /// Queues the consignment for the peer.
    QueueConsignment,
    /// Reads whether the peer knows the asset.
    ReadPeerKnowledge,
    ListMedia,
    ReadMedia { k: usize, count: usize },
    QueueMedia { k: usize, count: usize },
    /// Lets the peer handler send what is queued.
    ProcessEvents,
    /// Hands the transaction to the channel manager: a colored one to be broadcast by the node, a
    /// plain one by the channel manager.
    HandOver,
    /// Journals the handover; a failure is only logged.
    WriteHandedOver,
    /// Closes the channel; a failure is only logged.
    Close(CloseReason),
    /// The event was handled.
    Done,
    /// The event is to be replayed.
    Replay,
}

/// A handover in progress.
#[derive(Debug)]
pub struct Handover {
    pub temporary_channel_id: String,
    /// The script of the funding output.
    pub script: Vec<u8>,
    pub unsigned_psbt: String,
    /// The journal record of a colored funding.
    pub record: Option<RgbSenderFundingRecord>,
    pub signed: Option<SignedFunding>,
    pub step: HandoverStep,
}

/// What the caller got back.
#[derive(Debug)]
pub enum HandoverReply {
    Done,
    Failed(String),
    StoreFailed(StoreError),
    WalletFailed(RgbLibError),
    WorkerFailed(String),
    Info(Option<RgbInfo>),
    Signed(String),
    /// How undoing the staged funding ended.
    Aborted(Result<(), RgbLibError>),
    /// The transaction ID cannot be handed to the wallet.
    BadWitness(String),
    /// How many media files the asset has.
    Media(usize),
}

impl Handover {
    /// Whether the channel is colored.
    pub open spec fn colored(self) -> bool {
        self.record is Some
    }

    /// The values that the step works on are there.
    pub open spec fn wf(self) -> bool {
        match self.step {
            HandoverStep::ReadPendingInfo
            | HandoverStep::WritePendingInfo(_) => self.record is Some,
            HandoverStep::Sign
            | HandoverStep::Abort(_)
            | HandoverStep::Close(_)
            | HandoverStep::Done
            | HandoverStep::Replay => true,
            HandoverStep::WriteMarker
            | HandoverStep::WritePsbt
            | HandoverStep::HandOver => self.signed is Some,
            HandoverStep::ReadMedia { k, count } => self.signed is Some && self.record is Some && k
                < count,
            HandoverStep::QueueMedia { k, count } => self.signed is Some && self.record is Some && k
                < count,
            _ => self.signed is Some && self.record is Some,
        }
    }

    pub open spec fn to(self, step: HandoverStep) -> Self {
        Handover { step, ..self }
    }
}

/// Whether a reply answers the effect of a step.
pub open spec fn handover_fits(step: HandoverStep, reply: HandoverReply) -> bool {
    match step {
        HandoverStep::ReadPendingInfo => reply is Info,
        HandoverStep::WritePendingInfo(_) | HandoverStep::ProcessEvents => reply is Done,
        HandoverStep::Sign => reply is Signed || reply is Failed,
        HandoverStep::Abort(_) => reply is Aborted,
        HandoverStep::WriteHandoffReady
        | HandoverStep::WriteMarker
        | HandoverStep::WritePsbt
        | HandoverStep::StoreConsignment
        | HandoverStep::WriteHandedOver => reply is Done || reply is StoreFailed,
        HandoverStep::UpsertWitness => reply is Done || reply is WalletFailed || reply is WorkerFailed
            || reply is BadWitness,
        HandoverStep::ReadConsignment
        | HandoverStep::QueueConsignment
        | HandoverStep::ReadMedia { .. }
        | HandoverStep::QueueMedia { .. }
        | HandoverStep::HandOver
        | HandoverStep::Close(_) => reply is Done || reply is Failed,
        HandoverStep::ReadPeerKnowledge => reply matches HandoverReply::Info(Some(_)),
        HandoverStep::ListMedia => reply is Media || reply is WalletFailed,
        HandoverStep::Done | HandoverStep::Replay => false,
    }
}

// ---------------------------------------------------------------------------------------------
// Model
// ---------------------------------------------------------------------------------------------

/// What an error leads to.
pub open spec fn acts_on(e: RgbLibError) -> HandoverStep {
    if is_transient(e) {
        HandoverStep::Replay
    } else {
        HandoverStep::Close(CloseReason::Error(e))
    }
}

pub open spec fn closes(job: Handover, next: Handover, reason: Seq<char>) -> bool {
    &&& next == job.to(next.step)
    &&& next.step matches HandoverStep::Close(CloseReason::Text(t)) && t@ == reason
}

pub open spec fn aborts(job: Handover, next: Handover, details: Seq<char>) -> bool {
    &&& next == job.to(next.step)
    &&& next.step matches HandoverStep::Abort(AfterAbort::Report(e)) && is_internal(e, details)
}

/// The place of a script among output scripts, where it can be an output index.
pub open spec fn output_index(scripts: Seq<Seq<u8>>, script: Seq<u8>) -> Option<u16> {
    let i = first_place(scripts, script);
    if i < scripts.len() && i <= u16::MAX {
        Some(i as u16)
    } else {
        None
    }
}

/// The first place of a script, or the number of scripts where it is not among them.
pub open spec fn first_place(scripts: Seq<Seq<u8>>, script: Seq<u8>) -> int
    decreases scripts.len(),
{
    if scripts.len() == 0 || scripts[0] == script {
        0
    } else {
        1 + first_place(scripts.drop_first(), script)
    }
}

/// What follows from the signed transaction.
pub open spec fn after_signing(
    job: Handover,
    extracted: Result<ExtractedView, Seq<char>>,
    canonical: Result<Seq<char>, Seq<char>>,
    next: Handover,
) -> bool {
    if extract_error(extracted) is Some || canonical is Err {
        next == job.to(HandoverStep::Abort(AfterAbort::Replay))
    } else {
        let t = extracted->Ok_0;
        match output_index(t.scripts, job.script@) {
            None => aborts(
                job,
                next,
                "signed funding transaction does not contain a valid expected output"@,
            ),
            Some(index) => if job.record is Some && job.record->0.funding_txid@ != t.txid {
                aborts(
                    job,
                    next,
                    "signed RGB funding transaction ID changed after preparation"@,
                )
            } else {
                signed_on(job, t, index, canonical->Ok_0, next)
            },
        }
    }
}

/// The signed funding is kept, and journalled or marked.
pub open spec fn signed_on(
    job: Handover,
    t: ExtractedView,
    index: u16,
    psbt: Seq<char>,
    next: Handover,
) -> bool {
    &&& next.temporary_channel_id == job.temporary_channel_id
    &&& next.script == job.script
    &&& next.unsigned_psbt == job.unsigned_psbt
    &&& next.signed matches Some(s) && s.txid@ == t.txid && s.tx@ == t.tx && s.psbt@ == psbt
        && s.final_channel_id@ == hex(funding_channel_id(txid_bytes(t.txid), index))
    &&& match job.record {
        None => next.record is None && next.step is WriteMarker,
        Some(r) => {
            let ready = RgbSenderFundingRecord {
                final_channel_id: Some(next.signed->0.final_channel_id),
                stage: RgbSenderFundingStage::HandoffReady,
                ..r
            };
            &&& next.record == Some(ready)
            &&& if ready.valid() {
                next.step is WriteHandoffReady
            } else {
                next.step matches HandoverStep::Abort(AfterAbort::Report(e)) && is_internal(
                    e,
                    ready.rejection(),
                )
            }
        },
    }
}

/// The next media file, or what comes after the last.
pub open spec fn from_media(k: int, count: usize) -> HandoverStep {
    if k < count {
        HandoverStep::ReadMedia { k: k as usize, count }
    } else {
        HandoverStep::ProcessEvents
    }
}

/// What follows from a reply before the funding is signed.
pub open spec fn before_signing(job: Handover, reply: HandoverReply, next: Handover) -> bool {
    match job.step {
        HandoverStep::ReadPendingInfo => next == match reply {
            HandoverReply::Info(Some(info)) => job.to(
                HandoverStep::WritePendingInfo(
                    RgbInfo { batch_transfer_idx: Some(job.record->0.batch_transfer_idx), ..info },
                ),
            ),
            _ => job.to(HandoverStep::Sign),
        },
        HandoverStep::WritePendingInfo(_) => next == job.to(HandoverStep::Sign),
        HandoverStep::Sign => match reply {
            HandoverReply::Signed(s) => after_signing(
                job,
                psbt_extracted(s@),
                psbt_canonical(s@),
                next,
            ),
            _ => next == job.to(HandoverStep::Abort(AfterAbort::Replay)),
        },
        HandoverStep::Abort(after) => next == job.to(
            match (after, reply->Aborted_0) {
                (AfterAbort::Replay, Ok(_)) => HandoverStep::Replay,
                (AfterAbort::Replay, Err(e)) => acts_on(e),
                (AfterAbort::Report(error), Ok(_)) => acts_on(error),
                (AfterAbort::Report(_), Err(e)) => acts_on(e),
                (AfterAbort::Ignore, _) => HandoverStep::Done,
            },
        ),
        _ => false,
    }
}

/// What follows from a reply while the signed funding is made durable.
pub open spec fn while_storing(job: Handover, reply: HandoverReply, next: Handover) -> bool {
    match job.step {
        HandoverStep::WriteHandoffReady => match reply {
            HandoverReply::StoreFailed(e) => aborts(
                job,
                next,
                "cannot persist sender funding journal"@ + ": "@ + e.text@,
            ),
            _ => next == job.to(HandoverStep::WriteMarker),
        },
        HandoverStep::WriteMarker => match reply {
            HandoverReply::StoreFailed(e) => aborts(
                job,
                next,
                "cannot persist prepared channel funding transaction"@ + ": "@ + e.text@,
            ),
            _ => next == job.to(HandoverStep::WritePsbt),
        },
        HandoverStep::WritePsbt => match reply {
            HandoverReply::StoreFailed(e) => aborts(
                job,
                next,
                "cannot persist prepared channel funding transaction"@ + ": "@ + e.text@,
            ),
            _ => next == job.to(
                if job.colored() {
                    HandoverStep::UpsertWitness
                } else {
                    HandoverStep::HandOver
                },
            ),
        },
        HandoverStep::UpsertWitness => match reply {
            HandoverReply::WalletFailed(e) => next == job.to(
                HandoverStep::Abort(AfterAbort::Report(e)),
            ),
            HandoverReply::WorkerFailed(e) => aborts(
                job,
                next,
                "RGB witness worker failed"@ + ": "@ + e@,
            ),
            HandoverReply::BadWitness(e) => aborts(
                job,
                next,
                "cannot parse RGB funding witness transaction ID"@ + ": "@ + e@,
            ),
            _ => next == job.to(HandoverStep::ReadConsignment),
        },
        _ => false,
    }
}

/// What follows from a reply while the peer is sent what it needs.
pub open spec fn while_sending(job: Handover, reply: HandoverReply, next: Handover) -> bool {
    match job.step {
        HandoverStep::ReadConsignment => match reply {
            HandoverReply::Failed(e) => closes(
                job,
                next,
                "cannot read funding consignment: "@ + e@,
            ),
            _ => next == job.to(HandoverStep::StoreConsignment),
        },
        HandoverStep::StoreConsignment => next == job.to(HandoverStep::QueueConsignment),
        HandoverStep::QueueConsignment => match reply {
            HandoverReply::Failed(_) => closes(
                job,
                next,
                "consignment is too large to send over p2p"@,
            ),
            _ => next == job.to(HandoverStep::ReadPeerKnowledge),
        },
        HandoverStep::ReadPeerKnowledge => next == job.to(
            if reply->Info_0->0.counterparty_knows_asset {
                HandoverStep::ProcessEvents
            } else {
                HandoverStep::ListMedia
            },
        ),
        HandoverStep::ListMedia => next == job.to(
            match reply {
                HandoverReply::Media(count) => from_media(0, count),
                _ => acts_on(reply->WalletFailed_0),
            },
        ),
        HandoverStep::ReadMedia { k, count } => match reply {
            HandoverReply::Failed(e) => closes(job, next, "cannot read asset media file: "@ + e@),
            _ => next == job.to(HandoverStep::QueueMedia { k, count }),
        },
        HandoverStep::QueueMedia { k, count } => match reply {
            HandoverReply::Failed(_) => closes(
                job,
                next,
                "asset media is too large to send over p2p"@,
            ),
            _ => next == job.to(from_media(k + 1, count)),
        },
        HandoverStep::ProcessEvents => next == job.to(HandoverStep::HandOver),
        HandoverStep::HandOver => match reply {
            HandoverReply::Failed(_) => next == job.to(HandoverStep::Abort(AfterAbort::Ignore)),
            _ => match job.record {
                None => next == job.to(HandoverStep::Done),
                Some(r) => {
                    let handed = r.at(RgbSenderFundingStage::HandedToLdk);
                    next == (Handover {
                        record: Some(handed),
                        step: if handed.valid() {
                            HandoverStep::WriteHandedOver
                        } else {
                            HandoverStep::Done
                        },
                        ..job
                    })
                },
            },
        },
        HandoverStep::WriteHandedOver | HandoverStep::Close(_) => next == job.to(HandoverStep::Done),
        _ => false,
    }
}

/// What follows from a reply.
pub open spec fn handover_next(job: Handover, reply: HandoverReply, next: Handover) -> bool {
    match job.step {
        HandoverStep::ReadPendingInfo
        | HandoverStep::WritePendingInfo(_)
        | HandoverStep::Sign
        | HandoverStep::Abort(_) => before_signing(job, reply, next),
        HandoverStep::WriteHandoffReady
        | HandoverStep::WriteMarker
        | HandoverStep::WritePsbt
        | HandoverStep::UpsertWitness => while_storing(job, reply, next),
        _ => while_sending(job, reply, next),
    }
}

// ---------------------------------------------------------------------------------------------
// Execution
// ---------------------------------------------------------------------------------------------

fn same_bytes(a: &Vec<u8>, b: &Vec<u8>) -> (r: bool)
    ensures
        r == (a@ == b@),
{
    if a.len() != b.len() {
        return false;
    }
    let mut i: usize = 0;
    while i < a.len()
        invariant
            i <= a@.len(),
            a@.len() == b@.len(),
            forall|k: int| 0 <= k < i ==> a@[k] == b@[k],
        decreases a@.len() - i,
    {
        if a[i] != b[i] {
            return false;
        }
        i = i + 1;
    }
    assert(a@ =~= b@);
    true
}

/// The first place of a script, or the number of scripts where it is not among them.
pub fn place_of_script(scripts: &Vec<Vec<u8>>, script: &Vec<u8>) -> (r: usize)
    ensures
        r == first_place(scripts@.map_values(|s: Vec<u8>| s@), script@),
{
    let ghost all = scripts@.map_values(|s: Vec<u8>| s@);
    let mut i: usize = 0;
    assert(all.skip(0) =~= all);
    while i < scripts.len()
        invariant
            i <= scripts@.len(),
            all == scripts@.map_values(|s: Vec<u8>| s@),
            first_place(all, script@) == i + first_place(all.skip(i as int), script@),
        decreases scripts@.len() - i,
    {
        assert(all.skip(i as int)[0] == all[i as int]);
        assert(all.skip(i as int).drop_first() =~= all.skip(i + 1));
        if same_bytes(&scripts[i], script) {
            return i;
        }
        i = i + 1;
    }
    i
}

/// The place of a script among output scripts, where it can be an output index.
pub fn find_output(scripts: &Vec<Vec<u8>>, script: &Vec<u8>) -> (r: Option<u16>)
    ensures
        r == output_index(scripts@.map_values(|s: Vec<u8>| s@), script@),
{
    let i: usize = place_of_script(scripts, script);
    if i < scripts.len() && i <= 65535 {
        Some(i as u16)
    } else {
        None
    }
}

fn act_on(e: RgbLibError) -> (r: HandoverStep)
    ensures
        r == acts_on(e),
{
    match handle_funding_prepare_err(e) {
        PrepareFailure::Replay => HandoverStep::Replay,
        PrepareFailure::Close(e) => HandoverStep::Close(CloseReason::Error(e)),
    }
}

fn media_step(k: usize, count: usize) -> (r: HandoverStep)
    ensures
        r == from_media(k as int, count),
{
    if k < count {
        HandoverStep::ReadMedia { k, count }
    } else {
        HandoverStep::ProcessEvents
    }
}

/// Where a handover starts.
pub open spec fn handover_starts(
    temporary_channel_id: String,
    script: Vec<u8>,
    unsigned_psbt: String,
    record: Option<RgbSenderFundingRecord>,
    r: Handover,
) -> bool {
    &&& r == (Handover {
                temporary_channel_id,
                script,
                unsigned_psbt,
                record,
                signed: None,
                step: if record is Some {
                    HandoverStep::ReadPendingInfo
                } else {
                    HandoverStep::Sign
                },
            })
}

impl Handover {
    /// Starts to sign a funding and to hand it over.
    pub fn new(
        temporary_channel_id: String,
        script: Vec<u8>,
        unsigned_psbt: String,
        record: Option<RgbSenderFundingRecord>,
    ) -> (r: Self)
        ensures
            r.wf(),
            handover_starts(temporary_channel_id, script, unsigned_psbt, record, r),
    {
        let step = if record.is_some() {
            HandoverStep::ReadPendingInfo
        } else {
            HandoverStep::Sign
        };
        Handover { temporary_channel_id, script, unsigned_psbt, record, signed: None, step }
    }

    fn at(self, step: HandoverStep) -> (r: Self)
        ensures
            r == self.to(step),
    {
        Handover {
            temporary_channel_id: self.temporary_channel_id,
            script: self.script,
            unsigned_psbt: self.unsigned_psbt,
            record: self.record,
            signed: self.signed,
            step,
        }
    }

    fn close(self, reason: String) -> (r: Self)
        ensures
            closes(self, r, reason@),
            r.wf(),
    {
        self.at(HandoverStep::Close(CloseReason::Text(reason)))
    }

    fn abort(self, context: &str, e: &str) -> (r: Self)
        ensures
            aborts(self, r, context@ + ": "@ + e@),
            r.wf(),
    {
        self.at(
            HandoverStep::Abort(AfterAbort::Report(rgb_sender_funding_error(context, e))),
        )
    }

    fn on_extracted(self, t: ExtractedTx, psbt: String) -> (next: Self)
        requires
            t.missing_value is None,
            fixed_hex(t.txid@, 32),
        ensures
            next.wf(),
            after_signing(
                self,
                Ok::<ExtractedView, Seq<char>>(t@),
                Ok::<Seq<char>, Seq<char>>(psbt@),
                next,
            ),
    {
        let index: u16 = match find_output(&t.scripts, &self.script) {
            Some(index) => index,
            None => {
                return self.at(
                    HandoverStep::Abort(
                        AfterAbort::Report(
                            internal(
                                text(
                                    "signed funding transaction does not contain a valid expected output",
                                ),
                            ),
                        ),
                    ),
                );
            },
        };
        if let Some(record) = &self.record {
            if !same(record.funding_txid.as_str(), t.txid.as_str()) {
                return self.at(
                    HandoverStep::Abort(
                        AfterAbort::Report(
                            internal(
                                text("signed RGB funding transaction ID changed after preparation"),
                            ),
                        ),
                    ),
                );
            }
        }
        let id = match final_channel_id(t.txid.as_str(), index) {
            Ok(id) => id,
            Err(_) => unreached(),
        };
        let Handover { temporary_channel_id, script, unsigned_psbt, record, .. } = self;
        let (record, step) = match record {
            None => (None, HandoverStep::WriteMarker),
            Some(record) => {
                let mut ready = record;
                ready.final_channel_id = Some(copy(&id));
                ready.stage = RgbSenderFundingStage::HandoffReady;
                let step = match ready.validate() {
                    Ok(_) => HandoverStep::WriteHandoffReady,
                    Err(e) => HandoverStep::Abort(AfterAbort::Report(e)),
                };
                (Some(ready), step)
            },
        };
        let signed = SignedFunding { txid: t.txid, tx: t.tx, psbt, final_channel_id: id };
        Handover { temporary_channel_id, script, unsigned_psbt, record, signed: Some(signed), step }
    }

    fn sign_on(self, reply: HandoverReply) -> (next: Self)
        requires
            self.wf(),
            handover_fits(self.step, reply),
            self.step is ReadPendingInfo || self.step is WritePendingInfo || self.step is Sign
                || self.step is Abort,
        ensures
            next.wf(),
            before_signing(self, reply, next),
    {
        let Handover { temporary_channel_id, script, unsigned_psbt, record, signed, step } = self;
        let job = Handover {
            temporary_channel_id,
            script,
            unsigned_psbt,
            record,
            signed,
            step: HandoverStep::Sign,
        };
        match step {
            HandoverStep::ReadPendingInfo => match reply {
                HandoverReply::Info(Some(info)) => {
                    let mut info = info;
                    info.batch_transfer_idx = match &job.record {
                        Some(r) => Some(r.batch_transfer_idx),
                        None => unreached(),
                    };
                    job.at(HandoverStep::WritePendingInfo(info))
                },
                _ => job.at(HandoverStep::Sign),
            },
            HandoverStep::WritePendingInfo(_) => job.at(HandoverStep::Sign),
            HandoverStep::Sign => match reply {
                HandoverReply::Signed(s) => {
                    let extracted = extract_tx(s.as_str());
                    let canonical = canonical_psbt(s.as_str());
                    match (extracted, canonical) {
                        (Ok(t), Ok(psbt)) => if t.missing_value.is_none() {
                            job.on_extracted(t, psbt)
                        } else {
                            job.at(HandoverStep::Abort(AfterAbort::Replay))
                        },
                        _ => job.at(HandoverStep::Abort(AfterAbort::Replay)),
                    }
                },
                _ => job.at(HandoverStep::Abort(AfterAbort::Replay)),
            },
            HandoverStep::Abort(after) => match reply {
                HandoverReply::Aborted(outcome) => match (after, outcome) {
                    (AfterAbort::Replay, Ok(_)) => job.at(HandoverStep::Replay),
                    (AfterAbort::Replay, Err(e)) => job.at(act_on(e)),
                    (AfterAbort::Report(error), Ok(_)) => job.at(act_on(error)),
                    (AfterAbort::Report(_), Err(e)) => job.at(act_on(e)),
                    (AfterAbort::Ignore, _) => job.at(HandoverStep::Done),
                },
                _ => unreached(),
            },
            _ => unreached(),
        }
    }

    fn store_on(self, reply: HandoverReply) -> (next: Self)
        requires
            self.wf(),
            handover_fits(self.step, reply),
            self.step is WriteHandoffReady || self.step is WriteMarker || self.step is WritePsbt
                || self.step is UpsertWitness,
        ensures
            next.wf(),
            while_storing(self, reply, next),
    {
        match self.step {
            HandoverStep::WriteHandoffReady => match reply {
                HandoverReply::StoreFailed(e) => self.abort(
                    "cannot persist sender funding journal",
                    e.text.as_str(),
                ),
                _ => self.at(HandoverStep::WriteMarker),
            },
            HandoverStep::WriteMarker => match reply {
                HandoverReply::StoreFailed(e) => self.abort(
                    "cannot persist prepared channel funding transaction",
                    e.text.as_str(),
                ),
                _ => self.at(HandoverStep::WritePsbt),
            },
            HandoverStep::WritePsbt => match reply {
                HandoverReply::StoreFailed(e) => self.abort(
                    "cannot persist prepared channel funding transaction",
                    e.text.as_str(),
                ),
                _ => if self.record.is_some() {
                    self.at(HandoverStep::UpsertWitness)
                } else {
                    self.at(HandoverStep::HandOver)
                },
            },
            HandoverStep::UpsertWitness => match reply {
                HandoverReply::WalletFailed(e) => self.at(
                    HandoverStep::Abort(AfterAbort::Report(e)),
                ),
                HandoverReply::WorkerFailed(e) => self.abort(
                    "RGB witness worker failed",
                    e.as_str(),
                ),
                HandoverReply::BadWitness(e) => self.abort(
                    "cannot parse RGB funding witness transaction ID",
                    e.as_str(),
                ),
                _ => self.at(HandoverStep::ReadConsignment),
            },
            _ => unreached(),
        }
    }

    fn hand_over(self, reply: HandoverReply) -> (next: Self)
        requires
            self.wf(),
            self.step is HandOver,
            handover_fits(self.step, reply),
        ensures
            next.wf(),
            while_sending(self, reply, next),
    {
        match reply {
            HandoverReply::Failed(_) => self.at(HandoverStep::Abort(AfterAbort::Ignore)),
            _ => {
                let Handover { temporary_channel_id, script, unsigned_psbt, record, signed, .. } =
                    self;
                let (record, step) = match record {
                    None => (None, HandoverStep::Done),
                    Some(r) => {
                        let mut handed = r;
                        handed.stage = RgbSenderFundingStage::HandedToLdk;
                        let step = match handed.validate() {
                            Ok(_) => HandoverStep::WriteHandedOver,
                            Err(_) => HandoverStep::Done,
                        };
                        (Some(handed), step)
                    },
                };
                Handover { temporary_channel_id, script, unsigned_psbt, record, signed, step }
            },
        }
    }

    fn send_on(self, reply: HandoverReply) -> (next: Self)
        requires
            self.wf(),
            handover_fits(self.step, reply),
            !(self.step is ReadPendingInfo || self.step is WritePendingInfo || self.step is Sign
                || self.step is Abort || self.step is WriteHandoffReady || self.step is WriteMarker
                || self.step is WritePsbt || self.step is UpsertWitness),
        ensures
            next.wf(),
            while_sending(self, reply, next),
    {
        match self.step {
            HandoverStep::ReadConsignment => match reply {
                HandoverReply::Failed(e) => self.close(
                    join2("cannot read funding consignment: ", e.as_str()),
                ),
                _ => self.at(HandoverStep::StoreConsignment),
            },
            HandoverStep::StoreConsignment => self.at(HandoverStep::QueueConsignment),
            HandoverStep::QueueConsignment => match reply {
                HandoverReply::Failed(_) => self.close(
                    text("consignment is too large to send over p2p"),
                ),
                _ => self.at(HandoverStep::ReadPeerKnowledge),
            },
            HandoverStep::ReadPeerKnowledge => match reply {
                HandoverReply::Info(Some(info)) => if info.counterparty_knows_asset {
                    self.at(HandoverStep::ProcessEvents)
                } else {
                    self.at(HandoverStep::ListMedia)
                },
                _ => unreached(),
            },
            HandoverStep::ListMedia => match reply {
                HandoverReply::Media(count) => self.at(media_step(0, count)),
                HandoverReply::WalletFailed(e) => self.at(act_on(e)),
                _ => unreached(),
            },
            HandoverStep::ReadMedia { k, count } => match reply {
                HandoverReply::Failed(e) => self.close(
                    join2("cannot read asset media file: ", e.as_str()),
                ),
                _ => self.at(HandoverStep::QueueMedia { k, count }),
            },
            HandoverStep::QueueMedia { k, count } => match reply {
                HandoverReply::Failed(_) => self.close(
                    text("asset media is too large to send over p2p"),
                ),
                _ => self.at(media_step(k + 1, count)),
            },
            HandoverStep::ProcessEvents => self.at(HandoverStep::HandOver),
            HandoverStep::HandOver => self.hand_over(reply),
            HandoverStep::WriteHandedOver | HandoverStep::Close(_) => self.at(HandoverStep::Done),
            _ => unreached(),
        }
    }

    /// Decides what follows from a reply.
    pub fn advance(self, reply: HandoverReply) -> (next: Self)
        requires
            self.wf(),
            handover_fits(self.step, reply),
        ensures
            next.wf(),
            handover_next(self, reply, next),
    {
        match &self.step {
            HandoverStep::ReadPendingInfo
            | HandoverStep::WritePendingInfo(_)
            | HandoverStep::Sign
            | HandoverStep::Abort(_) => self.sign_on(reply),
            HandoverStep::WriteHandoffReady
            | HandoverStep::WriteMarker
            | HandoverStep::WritePsbt
            | HandoverStep::UpsertWitness => self.store_on(reply),
            _ => self.send_on(reply),
        }
    }
}

// ---------------------------------------------------------------------------------------------
// Laws
// ---------------------------------------------------------------------------------------------

/// The channel manager gets to see a colored funding only after the journal says that it is ready:
/// nothing changes the record between the two.
pub proof fn law_handover_follows_the_journal(job: Handover, reply: HandoverReply, next: Handover)
    requires
        job.wf(),
        handover_fits(job.step, reply),
        handover_next(job, reply, next),
        next.step is HandOver,
    ensures
        job.step is ProcessEvents || (job.step is WritePsbt && !job.colored()),
        next.record == job.record,
        next.signed == job.signed,
{
}

/// Once the journal says that a funding is ready its record stays at that stage until it was handed
/// over, or what was staged is undone.
pub proof fn law_ready_records_stay_ready(job: Handover, reply: HandoverReply, next: Handover)
    requires
        job.wf(),
        handover_fits(job.step, reply),
        handover_next(job, reply, next),
        job.record is Some,
        job.record->0.stage == RgbSenderFundingStage::HandoffReady,
        !(job.step is HandOver),
        !(job.step is Sign),
    ensures
        next.record == job.record,
{
}

/// An event is only replayed after what it staged was undone, or while its media could not be listed
/// for want of a network.
pub proof fn law_replays_leave_nothing_staged(job: Handover, reply: HandoverReply, next: Handover)
    requires
        job.wf(),
        handover_fits(job.step, reply),
        handover_next(job, reply, next),
        next.step is Replay,
    ensures
        job.step is Abort || job.step is ListMedia,
{
}

/// The place of a script is that of the first output with it, or behind the last output where there is
/// none.
pub proof fn law_first_place_is_the_first(scripts: Seq<Seq<u8>>, script: Seq<u8>)
    ensures
        0 <= first_place(scripts, script) <= scripts.len(),
        first_place(scripts, script) < scripts.len() ==> scripts[first_place(scripts, script)]
            == script,
        forall|k: int| 0 <= k < first_place(scripts, script) ==> #[trigger] scripts[k] != script,
    decreases scripts.len(),
{
    if scripts.len() > 0 && scripts[0] != script {
        let rest = scripts.drop_first();
        law_first_place_is_the_first(rest, script);
        assert forall|k: int| 0 <= k < first_place(scripts, script) implies #[trigger] scripts[k]
            != script by {
            if k > 0 {
                assert(rest[k - 1] == scripts[k]);
            }
        }
    }
}

/// A handover skips nothing: the transfer is recorded before the funding is signed; the signed funding is
/// journalled, marked and stored, the witness of a colored one registered, its consignment stored and
/// queued, and every media file that the peer lacks queued, before the channel manager sees it.
pub proof fn law_handovers_skip_nothing(job: Handover, reply: HandoverReply, next: Handover)
    requires
        job.wf(),
        handover_fits(job.step, reply),
        handover_next(job, reply, next),
    ensures
        match next.step {
            HandoverStep::ReadPendingInfo => false,
            HandoverStep::WritePendingInfo(info) => job.step is ReadPendingInfo
                && info.batch_transfer_idx == Some(job.record->0.batch_transfer_idx) && (
            reply matches HandoverReply::Info(Some(old)) && old.local_rgb_amount
                == info.local_rgb_amount && old.remote_rgb_amount == info.remote_rgb_amount
                && old.contract_id == info.contract_id),
            HandoverStep::Sign => job.step is WritePendingInfo || (job.step is ReadPendingInfo && reply
                == HandoverReply::Info(None)),
            HandoverStep::WriteHandoffReady => job.step is Sign && reply is Signed
                && job.record is Some && next.signed is Some,
            HandoverStep::WriteMarker => (job.step is WriteHandoffReady && reply is Done) || (
            job.step is Sign && reply is Signed && job.record is None && next.signed is Some),
            HandoverStep::WritePsbt => job.step is WriteMarker && reply is Done,
            HandoverStep::UpsertWitness => job.step is WritePsbt && reply is Done
                && job.record is Some,
            HandoverStep::ReadConsignment => job.step is UpsertWitness && reply is Done,
            HandoverStep::StoreConsignment => job.step is ReadConsignment && reply is Done,
            HandoverStep::QueueConsignment => job.step is StoreConsignment,
            HandoverStep::ReadPeerKnowledge => job.step is QueueConsignment && reply is Done,
            HandoverStep::ListMedia => job.step is ReadPeerKnowledge && (
            reply matches HandoverReply::Info(Some(info)) && !info.counterparty_knows_asset),
            HandoverStep::ReadMedia { k, count } => (k == 0 && job.step is ListMedia && reply
                == HandoverReply::Media(count)) || (k > 0 && job.step == (HandoverStep::QueueMedia {
                k: (k - 1) as usize,
                count,
            }) && reply is Done),
            HandoverStep::QueueMedia { k, count } => job.step == (HandoverStep::ReadMedia { k, count })
                && reply is Done,
            HandoverStep::ProcessEvents => (job.step is ReadPeerKnowledge && (
            reply matches HandoverReply::Info(Some(info)) && info.counterparty_knows_asset)) || (
            job.step is ListMedia && reply == HandoverReply::Media(0)) || (
            job.step matches HandoverStep::QueueMedia { k, count } && k + 1 == count && reply is Done),
            HandoverStep::HandOver => (job.step is ProcessEvents) || (job.step is WritePsbt
                && reply is Done && job.record is None),
            HandoverStep::WriteHandedOver => job.step is HandOver && reply is Done
                && next.record is Some && next.record->0.stage is HandedToLdk,
            _ => true,
        },
{
}

/// A failure before the peer was sent anything undoes what was staged before the error is acted upon;
/// after that it closes the channel. A transaction that the channel manager refused is undone too.
pub proof fn law_failed_handovers_are_undone_or_closed(
    job: Handover,
    reply: HandoverReply,
    next: Handover,
)
    requires
        job.wf(),
        handover_fits(job.step, reply),
        handover_next(job, reply, next),
    ensures
        (reply is Failed || reply is StoreFailed || reply is WalletFailed || reply is WorkerFailed
            || reply is BadWitness) && (job.step is Sign || job.step is WriteHandoffReady
            || job.step is WriteMarker || job.step is WritePsbt || job.step is UpsertWitness
            || job.step is HandOver) ==> next.step is Abort,
        reply is Failed && (job.step is ReadConsignment || job.step is QueueConsignment
            || job.step is ReadMedia || job.step is QueueMedia) ==> next.step is Close,
        job.step is UpsertWitness && (reply matches HandoverReply::WalletFailed(e)) ==> next.step
            == HandoverStep::Abort(AfterAbort::Report(reply->WalletFailed_0)),
        job.step is Sign && reply is Failed ==> next.step == HandoverStep::Abort(AfterAbort::Replay),
        job.step is HandOver && reply is Failed ==> next.step == HandoverStep::Abort(
            AfterAbort::Ignore,
        ),
        reply is Done && (job.step is WriteHandoffReady || job.step is WriteMarker
            || job.step is WritePsbt || job.step is UpsertWitness || job.step is ReadConsignment
            || job.step is QueueConsignment || job.step is ReadMedia || job.step is QueueMedia
            || job.step is ProcessEvents || job.step is HandOver) ==> !(next.step is Abort) && !(
        next.step is Close) && !(next.step is Replay),
{
}

/// Once what was staged is undone the error is acted upon: one of the network has the event replayed, any
/// other closes the channel with it; where undoing itself failed, that error counts.
pub proof fn law_undone_handovers_act_on_the_error(
    job: Handover,
    reply: HandoverReply,
    next: Handover,
    e: RgbLibError,
)
    requires
        job.wf(),
        handover_fits(job.step, reply),
        handover_next(job, reply, next),
        job.step is Abort,
    ensures
        ({
            let network = e is Indexer || e is InvalidIndexer || e is Network;
            &&& job.step == HandoverStep::Abort(AfterAbort::Replay) && (
            reply matches HandoverReply::Aborted(Ok(_))) ==> next.step is Replay
            &&& job.step == HandoverStep::Abort(AfterAbort::Report(e)) && (
            reply matches HandoverReply::Aborted(Ok(_))) ==> if network {
                next.step is Replay
            } else {
                next.step == HandoverStep::Close(CloseReason::Error(e))
            }
            &&& job.step != HandoverStep::Abort(AfterAbort::Ignore) && reply == HandoverReply::Aborted(
                Err::<(), RgbLibError>(e),
            ) ==> if network {
                next.step is Replay
            } else {
                next.step == HandoverStep::Close(CloseReason::Error(e))
            }
            &&& job.step == HandoverStep::Abort(AfterAbort::Ignore) ==> next.step is Done
        }),
{
}

/// A signed funding is only taken where it pays to the channel's script, and where a colored one is still
/// the transaction that was prepared; its record then names the channel that follows from that output,
/// and is otherwise unchanged.
pub proof fn law_signed_fundings_are_the_prepared_ones(
    job: Handover,
    signed: String,
    next: Handover,
)
    requires
        job.wf(),
        job.step is Sign,
        handover_next(job, HandoverReply::Signed(signed), next),
        next.step is WriteHandoffReady || next.step is WriteMarker,
    ensures
        psbt_extracted(signed@) is Ok,
        psbt_canonical(signed@) is Ok,
        next.signed is Some,
        ({
            let t = psbt_extracted(signed@)->Ok_0;
            let s = next.signed->0;
            &&& s.txid@ == t.txid && s.tx@ == t.tx && s.psbt@ == psbt_canonical(signed@)->Ok_0
            &&& exists|i: int|
                0 <= i < t.scripts.len() && i <= u16::MAX && #[trigger] t.scripts[i] == job.script@
                    && s.final_channel_id@ == hex(
                    funding_channel_id(txid_bytes(t.txid), i as u16),
                )
            &&& job.record matches Some(r) ==> r.funding_txid@ == t.txid && next.record is Some
                && next.record->0.stage is HandoffReady && next.record->0.final_channel_id == Some(
                s.final_channel_id,
            ) && next.record->0.funding_txid == r.funding_txid && next.record->0.batch_transfer_idx
                == r.batch_transfer_idx && next.record->0.temporary_channel_id
                == r.temporary_channel_id && next.record->0.rgb_info == r.rgb_info
            &&& job.record is None ==> next.record is None && next.step is WriteMarker
        }),
{
    let t = psbt_extracted(signed@)->Ok_0;
    law_first_place_is_the_first(t.scripts, job.script@);
    let i = first_place(t.scripts, job.script@);
    assert(t.scripts[i] == job.script@);
}

/// A colored funding starts by recording its transfer, a plain one by being signed.
pub proof fn law_handovers_start_by_their_color(
    temporary_channel_id: String,
    script: Vec<u8>,
    unsigned_psbt: String,
    record: Option<RgbSenderFundingRecord>,
    r: Handover,
)
    requires
        handover_starts(temporary_channel_id, script, unsigned_psbt, record, r),
    ensures
        record is Some ==> r.step is ReadPendingInfo,
        record is None ==> r.step is Sign,
        r.record == record && r.signed is None && r.script == script && r.unsigned_psbt
            == unsigned_psbt && r.temporary_channel_id == temporary_channel_id,
{
}

} // verus!
