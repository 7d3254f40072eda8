//! Carrying an interrupted sender funding on: rolling it back, committing and finalizing its
//! broadcast, completing it, and resuming it, one outside effect at a time.
//!
//! A [`SenderJob`] says which effect comes next; the caller performs it against the wallet and the
//! store and hands the reply back. The job decides from the reply what follows.

use vstd::prelude::*;
use vstd::pervasive::unreached;
use vstd::string::*;
use vstd::utf8::*;

use crate::error::{internal, is_internal, rgb_sender_funding_error, RgbLibError};
use crate::kv_store::StoreError;
use crate::psbt::{
    extract_error, extract_signed_tx, parse_psbt, psbt_extracted, psbt_summary, utf8_error, utf8_text,
};
use crate::sender_funding::{RgbInfo, RgbSenderFundingStage};
use crate::text::{join3, join5, same, text};

verus! {

// ---------------------------------------------------------------------------------------------
// Outside values
// ---------------------------------------------------------------------------------------------

/// The status of a wallet transfer.
#[derive(Clone, Copy, Debug, PartialEq, Eq, Structural)]
pub enum TransferStatus {
    Initiated,
    WaitingCounterparty,
    WaitingConfirmations,
    WaitingSafeHeight,
    Settled,
    Failed,
}

pub open spec fn status_name(status: TransferStatus) -> Seq<char> {
    match status {
        TransferStatus::Initiated => "Initiated"@,
        TransferStatus::WaitingCounterparty => "WaitingCounterparty"@,
        TransferStatus::WaitingConfirmations => "WaitingConfirmations"@,
        TransferStatus::WaitingSafeHeight => "WaitingSafeHeight"@,
        TransferStatus::Settled => "Settled"@,
        TransferStatus::Failed => "Failed"@,
    }
}

pub open spec fn optional_status_name(status: Option<TransferStatus>) -> Seq<char> {
    match status {
        None => "None"@,
        Some(s) => "Some("@ + status_name(s) + ")"@,
    }
}

pub open spec fn sender_stage_name(stage: RgbSenderFundingStage) -> Seq<char> {
    match stage {
        RgbSenderFundingStage::Preparing => "Preparing"@,
        RgbSenderFundingStage::StockPromoted => "StockPromoted"@,
        RgbSenderFundingStage::HandoffReady => "HandoffReady"@,
        RgbSenderFundingStage::HandedToLdk => "HandedToLdk"@,
        RgbSenderFundingStage::BroadcastSafeObserved => "BroadcastSafeObserved"@,
        RgbSenderFundingStage::Broadcasting => "Broadcasting"@,
        RgbSenderFundingStage::BroadcastCommitted => "BroadcastCommitted"@,
        RgbSenderFundingStage::Finalized => "Finalized"@,
        RgbSenderFundingStage::DurablyCompleted => "DurablyCompleted"@,
        RgbSenderFundingStage::RollingBack => "RollingBack"@,
        RgbSenderFundingStage::RetryRequired => "RetryRequired"@,
    }
}

impl TransferStatus {
    /// The name of the status in messages.
    pub fn name(self) -> (r: &'static str)
        ensures
            r@ == status_name(self),
    {
        match self {
            TransferStatus::Initiated => "Initiated",
            TransferStatus::WaitingCounterparty => "WaitingCounterparty",
            TransferStatus::WaitingConfirmations => "WaitingConfirmations",
            TransferStatus::WaitingSafeHeight => "WaitingSafeHeight",
            TransferStatus::Settled => "Settled",
            TransferStatus::Failed => "Failed",
        }
    }
}

/// The name of an optional status in messages.
pub fn optional_status(status: Option<TransferStatus>) -> (r: String)
    ensures
        r@ == optional_status_name(status),
{
    match status {
        None => text("None"),
        Some(s) => join3("Some(", s.name(), ")"),
    }
}

impl RgbSenderFundingStage {
    /// The name of the stage in messages.
    pub fn name(self) -> (r: &'static str)
        ensures
            r@ == sender_stage_name(self),
    {
        match self {
            RgbSenderFundingStage::Preparing => "Preparing",
            RgbSenderFundingStage::StockPromoted => "StockPromoted",
            RgbSenderFundingStage::HandoffReady => "HandoffReady",
            RgbSenderFundingStage::HandedToLdk => "HandedToLdk",
            RgbSenderFundingStage::BroadcastSafeObserved => "BroadcastSafeObserved",
            RgbSenderFundingStage::Broadcasting => "Broadcasting",
            RgbSenderFundingStage::BroadcastCommitted => "BroadcastCommitted",
            RgbSenderFundingStage::Finalized => "Finalized",
            RgbSenderFundingStage::DurablyCompleted => "DurablyCompleted",
            RgbSenderFundingStage::RollingBack => "RollingBack",
            RgbSenderFundingStage::RetryRequired => "RetryRequired",
        }
    }
}

/// Whether all transfers of a funding are in one status.
pub open spec fn uniform(s: Seq<TransferStatus>) -> bool {
    forall|i: int| 0 <= i < s.len() ==> #[trigger] s[i] == s[0]
}

/// The one status of the transfers, if there are any.
pub open spec fn common_status(s: Seq<TransferStatus>) -> Option<TransferStatus> {
    if s.len() == 0 {
        None
    } else {
        Some(s[0])
    }
}

pub open spec fn inconsistent_transfers(txid: Seq<char>) -> Seq<char> {
    "RGB funding transfer '"@ + txid + "' has inconsistent transfer statuses"@
}

/// The common status of a funding's transfers; an error where they disagree.
pub fn sender_transfer_status(statuses: &Vec<TransferStatus>, funding_txid: &str) -> (r: Result<
    Option<TransferStatus>,
    RgbLibError,
>)
    ensures
        uniform(statuses@) ==> r == Ok::<Option<TransferStatus>, RgbLibError>(
            common_status(statuses@),
        ),
        !uniform(statuses@) ==> r is Err && is_internal(
            r->Err_0,
            inconsistent_transfers(funding_txid@),
        ),
{
    if statuses.len() == 0 {
        return Ok(None);
    }
    let status = statuses[0];
    let mut i: usize = 1;
    while i < statuses.len()
        invariant
            1 <= i <= statuses.len(),
            status == statuses@[0],
            forall|k: int| 0 <= k < i ==> #[trigger] statuses@[k] == status,
        decreases statuses.len() - i,
    {
        if statuses[i] != status {
            assert(statuses@[i as int] != statuses@[0]);
            return Err(
                internal(
                    join3(
                        "RGB funding transfer '",
                        funding_txid,
                        "' has inconsistent transfer statuses",
                    ),
                ),
            );
        }
        i = i + 1;
    }
    Ok(Some(status))
}

/// Whether a transfer is out: the counterparty has it and the chain is waited for, or was.
pub open spec fn is_out(status: Option<TransferStatus>) -> bool {
    status == Some(TransferStatus::WaitingConfirmations) || status == Some(
        TransferStatus::WaitingSafeHeight,
    ) || status == Some(TransferStatus::Settled)
}

/// Whether a transfer is out.
pub fn transfer_is_out(status: Option<TransferStatus>) -> (r: bool)
    ensures
        r == is_out(status),
{
    match status {
        Some(
            TransferStatus::WaitingConfirmations
            | TransferStatus::WaitingSafeHeight
            | TransferStatus::Settled,
        ) => true,
        _ => false,
    }
}

// ---------------------------------------------------------------------------------------------
// The signed transaction
// ---------------------------------------------------------------------------------------------

/// What the check of a stored signed transaction yields: the text, where it is UTF-8, a partially
/// signed transaction with the journal's transaction ID, and complete.
pub open spec fn signed_psbt_checked(
    txid: Seq<char>,
    bytes: Seq<u8>,
    r: Result<String, RgbLibError>,
) -> bool {
    let encoded = decode_utf8(bytes);
    if !valid_utf8(bytes) {
        r is Err && is_internal(
            r->Err_0,
            "signed funding PSBT is not UTF-8"@ + ": "@ + utf8_error(bytes),
        )
    } else {
        match psbt_summary(encoded) {
            Err(e) => r is Err && is_internal(
                r->Err_0,
                "signed funding PSBT is invalid"@ + ": "@ + e,
            ),
            Ok(p) => if p.txid != txid {
                r is Err && is_internal(
                    r->Err_0,
                    "signed funding PSBT transaction '"@ + p.txid
                        + "' does not match recovery journal '"@ + txid + "'"@,
                )
            } else {
                match extract_error(psbt_extracted(encoded)) {
                    Some(e) => r is Err && is_internal(
                        r->Err_0,
                        "signed funding PSBT cannot be extracted"@ + ": "@ + e,
                    ),
                    None => r matches Ok(s) && s@ == encoded,
                }
            },
        }
    }
}

/// Checks the stored signed transaction of a funding.
pub fn check_signed_psbt(funding_txid: &str, bytes: Vec<u8>) -> (r: Result<String, RgbLibError>)
    ensures
        signed_psbt_checked(funding_txid@, bytes@, r),
{
    let encoded = match utf8_text(bytes) {
        Ok(s) => s,
        Err(e) => {
            return Err(rgb_sender_funding_error("signed funding PSBT is not UTF-8", e.as_str()));
        },
    };
    let psbt = match parse_psbt(encoded.as_str()) {
        Ok(p) => p,
        Err(e) => {
            return Err(rgb_sender_funding_error("signed funding PSBT is invalid", e.as_str()));
        },
    };
    if !same(psbt.txid.as_str(), funding_txid) {
        return Err(
            internal(
                join5(
                    "signed funding PSBT transaction '",
                    psbt.txid.as_str(),
                    "' does not match recovery journal '",
                    funding_txid,
                    "'",
                ),
            ),
        );
    }
    match extract_signed_tx(encoded.as_str()) {
        Ok(_) => Ok(encoded),
        Err(e) => Err(
            rgb_sender_funding_error("signed funding PSBT cannot be extracted", e.as_str()),
        ),
    }
}

// ---------------------------------------------------------------------------------------------
// Canonical channel metadata
// ---------------------------------------------------------------------------------------------

/// The whole allocation of a channel.
pub open spec fn total(info: RgbInfo) -> int {
    info.local_rgb_amount + info.remote_rgb_amount
}

pub open spec fn overflows(channel_id: Seq<char>) -> Seq<char> {
    "RGB allocation overflows for channel '"@ + channel_id + "'"@
}

/// The metadata that a channel ends up with: what stands there already, if it is the same
/// allocation in any split; the opening allocation without its batch index where nothing does.
pub open spec fn canonical(
    channel_id: Seq<char>,
    expected: RgbInfo,
    found: Result<RgbInfo, StoreError>,
    r: Result<RgbInfo, RgbLibError>,
) -> bool {
    if total(expected) > u64::MAX {
        r is Err && is_internal(r->Err_0, overflows(channel_id))
    } else {
        match found {
            Ok(existing) => if existing.contract_id@ != expected.contract_id@ || existing.schema
                != expected.schema {
                r is Err && is_internal(r->Err_0, conflicting(channel_id))
            } else if total(existing) > u64::MAX {
                r is Err && is_internal(r->Err_0, overflows(channel_id))
            } else if total(existing) != total(expected) {
                r is Err && is_internal(r->Err_0, conflicting(channel_id))
            } else {
                r == Ok::<RgbInfo, RgbLibError>(existing)
            },
            Err(e) => if e.not_found {
                r == Ok::<RgbInfo, RgbLibError>(RgbInfo { batch_transfer_idx: None, ..expected })
            } else {
                r is Err && is_internal(
                    r->Err_0,
                    "cannot inspect canonical RGB channel metadata"@ + ": "@ + e.text@,
                )
            },
        }
    }
}

pub open spec fn conflicting(channel_id: Seq<char>) -> Seq<char> {
    "refusing to overwrite conflicting RGB metadata for channel '"@ + channel_id + "'"@
}

/// The whole allocation of a channel, unless it overflows.
pub fn total_amount(channel_id: &str, info: &RgbInfo) -> (r: Result<u64, RgbLibError>)
    ensures
        total(*info) <= u64::MAX ==> r == Ok::<u64, RgbLibError>(total(*info) as u64),
        total(*info) > u64::MAX ==> r is Err && is_internal(r->Err_0, overflows(channel_id@)),
{
    match info.local_rgb_amount.checked_add(info.remote_rgb_amount) {
        Some(t) => Ok(t),
        None => Err(internal(join3("RGB allocation overflows for channel '", channel_id, "'"))),
    }
}

/// Decides which metadata a finalized channel is to keep, given what the store holds.
pub fn persist_canonical_rgb_channel_info(
    channel_id: &str,
    expected: &RgbInfo,
    found: Result<RgbInfo, StoreError>,
) -> (r: Result<RgbInfo, RgbLibError>)
    ensures
        canonical(channel_id@, *expected, found, r),
{
    let expected_total: u64 = total_amount(channel_id, expected)?;
    match found {
        Ok(existing) => {
            let mut same_allocation = same(
                existing.contract_id.as_str(),
                expected.contract_id.as_str(),
            ) && existing.schema == expected.schema;
            if same_allocation {
                let existing_total: u64 = total_amount(channel_id, &existing)?;
                same_allocation = existing_total == expected_total;
            }
            if !same_allocation {
                return Err(
                    internal(
                        join3(
                            "refusing to overwrite conflicting RGB metadata for channel '",
                            channel_id,
                            "'",
                        ),
                    ),
                );
            }
            Ok(existing)
        },
        Err(error) => {
            if error.not_found {
                let mut reconstructed = expected.duplicate();
                reconstructed.batch_transfer_idx = None;
                Ok(reconstructed)
            } else {
                Err(
                    rgb_sender_funding_error(
                        "cannot inspect canonical RGB channel metadata",
                        error.text.as_str(),
                    ),
                )
            }
        },
    }
}

/// Writing the canonical metadata is idempotent: what it wrote once, it keeps.
pub proof fn law_canonical_metadata_is_idempotent(
    channel_id: Seq<char>,
    expected: RgbInfo,
    found: Result<RgbInfo, StoreError>,
    first: RgbInfo,
    second: Result<RgbInfo, RgbLibError>,
)
    requires
        canonical(channel_id, expected, found, Ok(first)),
        canonical(channel_id, expected, Ok(first), second),
    ensures
        second == Ok::<RgbInfo, RgbLibError>(first),
{
}

/// Canonical metadata is never overwritten by another allocation, and a live balance split is
/// always kept.
pub proof fn law_existing_metadata_is_kept(
    channel_id: Seq<char>,
    expected: RgbInfo,
    existing: RgbInfo,
    r: Result<RgbInfo, RgbLibError>,
)
    requires
        canonical(channel_id, expected, Ok(existing), r),
    ensures
        r is Ok ==> r == Ok::<RgbInfo, RgbLibError>(existing),
        total(existing) != total(expected) ==> r is Err,
{
}

/// A transfer counts as out exactly from the moment the chain is waited for.
pub proof fn law_transfers_are_out_once_the_chain_is_waited_for(status: TransferStatus)
    ensures
        is_out(Some(status)) <==> status != TransferStatus::Initiated && status
            != TransferStatus::WaitingCounterparty && status != TransferStatus::Failed,
        !is_out(None),
{
}

/// The transfers of a funding have a common status only where all of them have it.
pub proof fn law_common_statuses_are_common(s: Seq<TransferStatus>, i: int, j: int)
    ensures
        0 <= i < s.len() && 0 <= j < s.len() && s[i] != s[j] ==> !uniform(s),
        uniform(s) && 0 <= i < s.len() ==> common_status(s) == Some(s[i]),
        s.len() == 0 ==> uniform(s) && common_status(s) is None,
        (forall|k: int| 0 <= k < s.len() ==> #[trigger] s[k] == s[i]) && 0 <= i < s.len() ==> uniform(
            s,
        ),
{
}

/// A stored transaction is only trusted where it is the one of the journal, and complete; what is
/// handed on is the stored text itself.
pub proof fn law_stored_transactions_are_checked(
    txid: Seq<char>,
    bytes: Seq<u8>,
    r: Result<String, RgbLibError>,
)
    requires
        signed_psbt_checked(txid, bytes, r),
    ensures
        r is Ok <==> valid_utf8(bytes) && psbt_summary(decode_utf8(bytes)) is Ok && psbt_summary(
            decode_utf8(bytes),
        )->Ok_0.txid == txid && extract_error(psbt_extracted(decode_utf8(bytes))) is None,
        r matches Ok(s) ==> s@ == decode_utf8(bytes),
{
}

/// Where a channel has no metadata yet it gets its opening allocation, amounts and asset unchanged and
/// without the transfer; where it has some, they are kept if they are of the same asset and add up to the
/// same; everything else is refused.
pub proof fn law_channels_keep_their_allocation(
    channel_id: Seq<char>,
    expected: RgbInfo,
    found: Result<RgbInfo, StoreError>,
    r: Result<RgbInfo, RgbLibError>,
)
    requires
        canonical(channel_id, expected, found, r),
        expected.local_rgb_amount + expected.remote_rgb_amount <= u64::MAX,
    ensures
        (found matches Err(e) && e.not_found) ==> (r matches Ok(info) && info.local_rgb_amount
            == expected.local_rgb_amount && info.remote_rgb_amount == expected.remote_rgb_amount
            && info.contract_id == expected.contract_id && info.schema == expected.schema
            && info.counterparty_knows_asset == expected.counterparty_knows_asset
            && info.batch_transfer_idx is None),
        (found matches Err(e) && !e.not_found) ==> r is Err,
        found matches Ok(existing) ==> (r is Ok <==> existing.contract_id@ == expected.contract_id@
            && existing.schema == expected.schema && existing.local_rgb_amount
            + existing.remote_rgb_amount == expected.local_rgb_amount + expected.remote_rgb_amount),
        (found matches Ok(existing) && r is Ok) ==> r->Ok_0 == found->Ok_0,
{
}

/// Metadata is refused for its overflow, for a conflict with what stands there, or because what stands
/// there cannot be read, each under its own message.
pub proof fn law_refused_metadata_says_why(
    channel_id: Seq<char>,
    expected: RgbInfo,
    found: Result<RgbInfo, StoreError>,
    r: Result<RgbInfo, RgbLibError>,
)
    requires
        canonical(channel_id, expected, found, r),
    ensures
        expected.local_rgb_amount + expected.remote_rgb_amount > u64::MAX ==> r is Err && is_internal(
            r->Err_0,
            "RGB allocation overflows for channel '"@ + channel_id + "'"@,
        ),
        expected.local_rgb_amount + expected.remote_rgb_amount <= u64::MAX && found is Ok && (
        found->Ok_0.contract_id@ != expected.contract_id@ || found->Ok_0.schema != expected.schema)
            ==> r is Err && is_internal(
            r->Err_0,
            "refusing to overwrite conflicting RGB metadata for channel '"@ + channel_id + "'"@,
        ),
        found is Err && !found->Err_0.not_found ==> r is Err,
        found is Err && found->Err_0.not_found && expected.local_rgb_amount
            + expected.remote_rgb_amount <= u64::MAX ==> r is Ok,
{
}

} // verus!
