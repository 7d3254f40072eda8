//! Partially signed transactions, as far as the node's logic reads them.

use std::str::FromStr;

use bitcoin::blockdata::locktime::absolute::LockTime;
use bitcoin::consensus::encode::serialize;
use bitcoin::psbt::{Error as PsbtError, ExtractTxError, Psbt};
use vstd::prelude::*;
use vstd::string::*;
use vstd::utf8::*;

use crate::text::fixed_hex;

verus! {

/// What the funding code reads of a transaction that is being signed.
#[derive(Debug)]
pub struct PsbtSummary {
    pub txid: String,
    pub lock_time: u32,
    pub sequences: Vec<u32>,
}

/// The plain values of a [`PsbtSummary`].
pub struct PsbtSummaryView {
    pub txid: Seq<char>,
    pub lock_time: u32,
    pub sequences: Seq<u32>,
}

impl View for PsbtSummary {
    type V = PsbtSummaryView;

    open spec fn view(&self) -> PsbtSummaryView {
        PsbtSummaryView {
            txid: self.txid@,
            lock_time: self.lock_time,
            sequences: self.sequences@,
        }
    }
}

/// What a text holds as a partially signed transaction, or what is wrong with it.
pub uninterp spec fn psbt_summary(s: Seq<char>) -> Result<PsbtSummaryView, Seq<char>>;

/// `bitcoin::psbt::Psbt::from_str`: the transaction ID, the lock time in its consensus encoding and
/// the input sequences of the unsigned transaction, or the error's text; each a function of the
/// text alone.
#[verifier::external_body]
pub(crate) fn parse_psbt(s: &str) -> (r: Result<PsbtSummary, String>)
    ensures
        match r {
            Ok(p) => psbt_summary(s@) == Ok::<PsbtSummaryView, Seq<char>>(p@),
            Err(e) => psbt_summary(s@) == Err::<PsbtSummaryView, Seq<char>>(e@),
        },
{
    let psbt = Psbt::from_str(s).map_err(|e| e.to_string())?;
    Ok(PsbtSummary {
        txid: psbt.unsigned_tx.compute_txid().to_string(),
        lock_time: psbt.unsigned_tx.lock_time.to_consensus_u32(),
        sequences: psbt.unsigned_tx.input.iter().map(|i| i.sequence.0).collect(),
    })
}

/// What a signer is told of the inputs of a transaction.
#[derive(Debug)]
pub struct PsbtInputs {
    /// The outputs that the unsigned transaction spends: transaction ID and index.
    pub prevouts: Vec<(String, u32)>,
    /// For each input, the value and the script of the output that it spends, where attached.
    pub witnesses: Vec<Option<(u64, Vec<u8>)>>,
    /// For each input, the derivation paths of its keys; the top bit of a step marks it as hardened.
    pub paths: Vec<Vec<Vec<u32>>>,
}

/// The plain values of [`PsbtInputs`].
pub struct PsbtInputsView {
    pub prevouts: Seq<(Seq<char>, u32)>,
    pub witnesses: Seq<Option<(u64, Seq<u8>)>>,
    pub paths: Seq<Seq<Seq<u32>>>,
}

/// The plain values of an attached output.
pub open spec fn witness_view(w: Option<(u64, Vec<u8>)>) -> Option<(u64, Seq<u8>)> {
    match w {
        Some(o) => Some((o.0, o.1@)),
        None => None,
    }
}

impl View for PsbtInputs {
    type V = PsbtInputsView;

    open spec fn view(&self) -> PsbtInputsView {
        PsbtInputsView {
            prevouts: self.prevouts@.map_values(|o: (String, u32)| (o.0@, o.1)),
            witnesses: self.witnesses@.map_values(|w: Option<(u64, Vec<u8>)>| witness_view(w)),
            paths: self.paths@.map_values(
                |p: Vec<Vec<u32>>| p@.map_values(|steps: Vec<u32>| steps@),
            ),
        }
    }
}

/// What a text holds of the inputs of a partially signed transaction, or what is wrong with it.
pub uninterp spec fn psbt_inputs(s: Seq<char>) -> Result<PsbtInputsView, Seq<char>>;

/// `bitcoin::psbt::Psbt::from_str`: the outputs that the unsigned transaction spends and, of each
/// input, the attached output and the BIP 32 derivation paths in the order of their keys; or the
/// error's text. Each is a function of the text alone. What is read of the inputs covers each of
/// them once.
#[verifier::external_body]
pub(crate) fn parse_psbt_inputs(s: &str) -> (r: Result<PsbtInputs, String>)
    ensures
        match r {
            Ok(p) => psbt_inputs(s@) == Ok::<PsbtInputsView, Seq<char>>(p@),
            Err(e) => psbt_inputs(s@) == Err::<PsbtInputsView, Seq<char>>(e@),
        },
        r matches Ok(p) ==> p.witnesses@.len() == p.paths@.len(),
{
    let psbt = Psbt::from_str(s).map_err(|e| e.to_string())?;
    let spent = psbt.unsigned_tx.input.iter().map(|i| i.previous_output);
    let inputs = psbt.inputs.iter();
    let keys = inputs.clone().map(|i| i.bip32_derivation.values());
    Ok(PsbtInputs {
        prevouts: spent.map(|o| (o.txid.to_string(), o.vout)).collect(),
        witnesses: inputs
            .map(|i| i.witness_utxo.as_ref().map(|o| (o.value.to_sat(), o.script_pubkey.to_bytes())))
            .collect(),
        paths: keys.map(|v| v.map(|k| k.1.to_u32_vec()).collect()).collect(),
    })
}

/// The text of a partially signed transaction with its lock time set, or what is wrong with it.
pub uninterp spec fn psbt_relocked(s: Seq<char>, lock_time: u32) -> Result<Seq<char>, Seq<char>>;

/// `bitcoin::psbt::Psbt`'s `to_string` after the lock time of the unsigned transaction is set to a
/// consensus-encoded value: a function of the text and the value.
#[verifier::external_body]
pub(crate) fn psbt_with_lock_time(s: &str, lock_time: u32) -> (r: Result<String, String>)
    ensures
        match r {
            Ok(p) => psbt_relocked(s@, lock_time) == Ok::<Seq<char>, Seq<char>>(p@),
            Err(e) => psbt_relocked(s@, lock_time) == Err::<Seq<char>, Seq<char>>(e@),
        },
{
    let mut psbt = Psbt::from_str(s).map_err(|e| e.to_string())?;
    psbt.unsigned_tx.lock_time = LockTime::from_consensus(lock_time);
    Ok(psbt.to_string())
}

/// The transaction that a partially signed one comes to.
#[derive(Debug, PartialEq, Eq)]
pub struct ExtractedTx {
    pub txid: String,
    /// The transaction, consensus encoded.
    pub tx: Vec<u8>,
    /// The scripts of its outputs.
    pub scripts: Vec<Vec<u8>>,
    /// Where an input lacks the value that it spends, so that the fee is not known: what is said of
    /// that.
    pub missing_value: Option<String>,
}

/// The plain values of an [`ExtractedTx`].
pub struct ExtractedView {
    pub txid: Seq<char>,
    pub tx: Seq<u8>,
    pub scripts: Seq<Seq<u8>>,
    pub missing_value: Option<Seq<char>>,
}

impl View for ExtractedTx {
    type V = ExtractedView;

    open spec fn view(&self) -> ExtractedView {
        ExtractedView {
            txid: self.txid@,
            tx: self.tx@,
            scripts: self.scripts@.map_values(|script: Vec<u8>| script@),
            missing_value: match self.missing_value {
                Some(e) => Some(e@),
                None => None,
            },
        }
    }
}

/// What comes of extracting the transaction from the text of a partially signed one.
pub uninterp spec fn psbt_extracted(s: Seq<char>) -> Result<ExtractedView, Seq<char>>;

/// `bitcoin::psbt::Psbt::extract_tx`: the transaction with its ID, 64 hexadecimal digits, and its
/// output scripts, also where its fee is not known, or the error's text; a function of the text.
/// `extract_tx` panics on a funding output that the attached previous transaction does not have; the
/// error of `Psbt::fee` is reported for that, and the error of `Psbt::from_str` for a text that does
/// not parse.
#[verifier::external_body]
pub(crate) fn extract_tx(s: &str) -> (r: Result<ExtractedTx, String>)
    ensures
        match r {
            Ok(t) => psbt_extracted(s@) == Ok::<ExtractedView, Seq<char>>(t@),
            Err(e) => psbt_extracted(s@) == Err::<ExtractedView, Seq<char>>(e@),
        },
        r matches Ok(t) ==> fixed_hex(t.txid@, 32),
{
    let psbt = Psbt::from_str(s).map_err(|e| e.to_string())?;
    if let Err(e @ PsbtError::PsbtUtxoOutOfbounds) = psbt.fee() {
        return Err(e.to_string());
    }
    let (tx, missing_value) = match psbt.extract_tx().map_err(|e| (e.to_string(), e)) {
        Ok(tx) => (tx, None),
        Err((error, ExtractTxError::MissingInputValue { tx })) => (tx, Some(error)),
        Err((error, _)) => return Err(error),
    };
    let scripts = tx.output.iter().map(|o| o.script_pubkey.to_bytes()).collect();
    Ok(ExtractedTx { txid: tx.compute_txid().to_string(), tx: serialize(&tx), scripts, missing_value })
}

/// The text that a partially signed transaction is written as.
pub uninterp spec fn psbt_canonical(s: Seq<char>) -> Result<Seq<char>, Seq<char>>;

/// `bitcoin::psbt::Psbt`'s `to_string`: how the transaction that a text holds is written, or the
/// error's text where it holds none; a function of the text.
#[verifier::external_body]
pub(crate) fn canonical_psbt(s: &str) -> (r: Result<String, String>)
    ensures
        match r {
            Ok(p) => psbt_canonical(s@) == Ok::<Seq<char>, Seq<char>>(p@),
            Err(e) => psbt_canonical(s@) == Err::<Seq<char>, Seq<char>>(e@),
        },
{
    Psbt::from_str(s).map(|psbt| psbt.to_string()).map_err(|e| e.to_string())
}

/// Why a transaction cannot be extracted as one whose fee is known, if it cannot.
pub open spec fn extract_error(extracted: Result<ExtractedView, Seq<char>>) -> Option<Seq<char>> {
    match extracted {
        Ok(t) => t.missing_value,
        Err(error) => Some(error),
    }
}

/// Whether the signed transaction can be extracted.
pub fn extract_signed_tx(s: &str) -> (r: Result<(), String>)
    ensures
        match r {
            Ok(_) => extract_error(psbt_extracted(s@)) is None,
            Err(e) => extract_error(psbt_extracted(s@)) == Some(e@),
        },
{
    match extract_tx(s) {
        Ok(t) => match t.missing_value {
            Some(error) => Err(error),
            None => Ok(()),
        },
        Err(error) => Err(error),
    }
}

/// What std says of bytes that are no UTF-8.
pub uninterp spec fn utf8_error(bytes: Seq<u8>) -> Seq<char>;

/// `String::from_utf8`: succeeds exactly on valid UTF-8, and decodes it; otherwise the error's text
/// is a function of the bytes.
#[verifier::external_body]
pub(crate) fn utf8_text(bytes: Vec<u8>) -> (r: Result<String, String>)
    ensures
        r is Ok <==> valid_utf8(bytes@),
        r matches Ok(s) ==> s@ == decode_utf8(bytes@),
        r matches Err(e) ==> e@ == utf8_error(bytes@),
{
    String::from_utf8(bytes).map_err(|e| e.to_string())
}

/// The first value that is a time rather than a block height.
pub const LOCK_TIME_THRESHOLD: u32 = 500_000_000;

/// Whether a lock time is enforced and lies beyond the block after the given height.
pub open spec fn locked_beyond(p: PsbtSummaryView, height: u32) -> bool {
    &&& exists|i: int| 0 <= i < p.sequences.len() && #[trigger] p.sequences[i] != u32::MAX
    &&& p.lock_time < LOCK_TIME_THRESHOLD
    &&& p.lock_time > height + 1
}

/// Clamps the lock time of a BTC funding transaction to the height that the channel manager knows.
///
/// The wallet locks a transaction to the chain tip that it just synced to. If the channel manager
/// has not seen that block yet it would refuse the funding as not final. Only BTC channels may be
/// changed so: an RGB transfer is already tied to its transaction ID.
pub fn normalize_funding_psbt_locktime(
    unsigned_psbt: String,
    current_best_height: u32,
) -> (r: Result<String, String>)
    requires
        current_best_height < u32::MAX,
    ensures
        match psbt_summary(unsigned_psbt@) {
            Err(e) => r matches Err(m) && m@ == e,
            Ok(p) => match psbt_relocked(unsigned_psbt@, normalized_lock_time(p, current_best_height)) {
                Ok(s) => r matches Ok(t) && t@ == s,
                Err(e) => r matches Err(m) && m@ == e,
            },
        },
{
    let psbt = parse_psbt(unsigned_psbt.as_str())?;
    let lock_time: u32 = clamp_lock_time(&psbt, current_best_height);
    psbt_with_lock_time(unsigned_psbt.as_str(), lock_time)
}

/// The lock time after the clamp: the known height where the transaction is locked beyond it (no
/// lock where that is no height), else the lock time as it is.
pub open spec fn normalized_lock_time(p: PsbtSummaryView, height: u32) -> u32 {
    if !locked_beyond(p, height) {
        p.lock_time
    } else if height < LOCK_TIME_THRESHOLD {
        height
    } else {
        0
    }
}

/// Computes the clamped lock time of a parsed transaction.
pub fn clamp_lock_time(psbt: &PsbtSummary, current_best_height: u32) -> (r: u32)
    requires
        current_best_height < u32::MAX,
    ensures
        r == normalized_lock_time(psbt@, current_best_height),
{
    let mut replaceable = false;
    let mut i: usize = 0;
    while i < psbt.sequences.len()
        invariant
            i <= psbt.sequences.len(),
            psbt@.sequences == psbt.sequences@,
            replaceable ==> exists|k: int|
                0 <= k < psbt.sequences@.len() && #[trigger] psbt@.sequences[k] != u32::MAX,
            !replaceable ==> forall|k: int|
                0 <= k < i ==> #[trigger] psbt@.sequences[k] == u32::MAX,
        decreases psbt.sequences.len() - i,
    {
        if psbt.sequences[i] != u32::MAX {
            assert(psbt@.sequences[i as int] != u32::MAX);
            replaceable = true;
        }
        i = i + 1;
    }
    if replaceable && psbt.lock_time < LOCK_TIME_THRESHOLD && psbt.lock_time > current_best_height
        + 1 {
        if current_best_height < LOCK_TIME_THRESHOLD {
            current_best_height
        } else {
            0
        }
    } else {
        psbt.lock_time
    }
}

/// The clamp never delays a transaction, and leaves nothing that the channel manager would refuse as
/// not final.
pub proof fn law_clamped_lock_time_is_final(p: PsbtSummaryView, height: u32)
    ensures
        normalized_lock_time(p, height) <= p.lock_time,
        !locked_beyond(
            PsbtSummaryView { lock_time: normalized_lock_time(p, height), ..p },
            height,
        ),
{
}

/// A lock time is changed exactly where some input enforces it and it is a block height beyond the next
/// block; it is then the known height. A time, and a lock that nothing enforces, stay as they are.
pub proof fn law_only_premature_heights_are_clamped(p: PsbtSummaryView, height: u32)
    requires
        height < 500_000_000,
    ensures
        (forall|i: int| 0 <= i < p.sequences.len() ==> #[trigger] p.sequences[i] == u32::MAX)
            ==> normalized_lock_time(p, height) == p.lock_time,
        p.lock_time >= 500_000_000 ==> normalized_lock_time(p, height) == p.lock_time,
        p.lock_time <= height + 1 ==> normalized_lock_time(p, height) == p.lock_time,
        (exists|i: int| 0 <= i < p.sequences.len() && #[trigger] p.sequences[i] != u32::MAX) && height
            + 1 < p.lock_time < 500_000_000 ==> normalized_lock_time(p, height) == height,
{
}

/// A transaction can be extracted exactly where it comes out and its fee is known; else the reason is the
/// one that was given.
pub proof fn law_extraction_needs_a_known_fee(extracted: Result<ExtractedView, Seq<char>>)
    ensures
        extract_error(extracted) is None <==> extracted is Ok && extracted->Ok_0.missing_value is None,
        extracted is Err ==> extract_error(extracted) == Some(extracted->Err_0),
        extracted is Ok && extracted->Ok_0.missing_value is Some ==> extract_error(extracted)
            == extracted->Ok_0.missing_value,
{
}

} // verus!
