//! The import of RGB contracts and transfer consignments that a caller hands over.

use base64::engine::general_purpose;
use base64::Engine;
use vstd::prelude::*;
use vstd::string::*;
use vstd::utf8::*;

use crate::app_state::AppState;
use crate::error::{APIError, RgbLibError};
use crate::text::{join2, join4, same, text};

verus! {

/// The longest payload that is decoded.
pub const MAX_RGB_IMPORT_BASE64_CHARACTERS: usize = 16 * 1024 * 1024;

/// The longest request body that is read.
pub const MAX_RGB_IMPORT_BODY_BYTES: usize = 16 * 1024 * 1024 + 4 * 1024;

/// A request to register what a transfer says of its asset.
#[derive(Debug)]
pub struct ImportRgbTransferConsignmentRequestData {
    pub consignment_base64: String,
    pub offchain_txid: String,
    pub expected_asset_id: Option<String>,
}

/// A request to register a contract.
#[derive(Debug)]
pub struct ImportRgbContractRequestData {
    pub contract_base64: String,
    pub expected_asset_id: String,
}

/// What a payload holds.
#[derive(Clone, Copy, Debug, PartialEq, Eq, Structural)]
pub enum RgbPayloadKind {
    Contract,
    TransferConsignment,
}

/// How an error about a payload is reported.
pub open spec fn reports(kind: RgbPayloadKind, e: APIError, details: Seq<char>) -> bool {
    match kind {
        RgbPayloadKind::Contract => e matches APIError::InvalidRgbContract(d) && d@ == details,
        RgbPayloadKind::TransferConsignment => e matches APIError::InvalidRgbConsignment(d) && d@
            == details,
    }
}

impl RgbPayloadKind {
    /// The error that says what is wrong with a payload.
    pub fn invalid(self, details: String) -> (r: APIError)
        ensures
            reports(self, r, details@),
    {
        match self {
            RgbPayloadKind::Contract => APIError::InvalidRgbContract(details),
            RgbPayloadKind::TransferConsignment => APIError::InvalidRgbConsignment(details),
        }
    }

    /// What the kind is called in messages.
    pub open spec fn name(self) -> Seq<char> {
        match self {
            RgbPayloadKind::Contract => "contract"@,
            RgbPayloadKind::TransferConsignment => "transfer consignment"@,
        }
    }

    /// What the kind is called in messages.
    pub fn label(self) -> (r: &'static str)
        ensures
            r@ == self.name(),
    {
        match self {
            RgbPayloadKind::Contract => "contract",
            RgbPayloadKind::TransferConsignment => "transfer consignment",
        }
    }
}

/// The bytes that a text stands for in standard base64, or what is wrong with it.
pub uninterp spec fn base64_decoded(s: Seq<char>) -> Result<Seq<u8>, Seq<char>>;

/// `base64::engine::general_purpose::STANDARD.decode`: the bytes, or the error's text. Both are
/// functions of the input; which texts decode, and to what, is not restated here.
#[verifier::external_body]
fn decode_base64(value: &str) -> (r: Result<Vec<u8>, String>)
    ensures
        r is Ok <==> base64_decoded(value@) is Ok,
        r matches Ok(bytes) ==> bytes@ == base64_decoded(value@)->Ok_0,
        r matches Err(e) ==> e@ == base64_decoded(value@)->Err_0,
{
    general_purpose::STANDARD.decode(value).map_err(|error| error.to_string())
}

/// Whether a payload has a size that is accepted.
pub open spec fn size_is_valid(value: Seq<char>) -> bool {
    0 < encode_utf8(value).len() <= MAX_RGB_IMPORT_BASE64_CHARACTERS
}

/// /// Whether a result is what decoding a payload comes to.
pub open spec fn is_decoding(
    value: String,
    kind: RgbPayloadKind,
    r: Result<Vec<u8>, APIError>,
) -> bool {
    &&& !size_is_valid(value@) ==> r is Err && reports(
            kind,
            r->Err_0,
            kind.name() + " payload size is invalid"@,
        )
    &&& size_is_valid(value@) ==> decoded_result(r, base64_decoded(value@), kind)
}

/// Decodes a payload of an accepted size.
pub fn decode_rgb_base64(value: String, kind: RgbPayloadKind) -> (r: Result<Vec<u8>, APIError>)
    ensures
        is_decoding(value, kind, r),
{
    let len: usize = value.as_str().as_bytes().len();
    if len == 0 || len > MAX_RGB_IMPORT_BASE64_CHARACTERS {
        return Err(kind.invalid(join2(kind.label(), " payload size is invalid")));
    }
    decoded_payload(decode_base64(value.as_str()), kind)
}

/// What becomes of a decoded payload.
pub open spec fn decoded_result(
    r: Result<Vec<u8>, APIError>,
    decoded: Result<Seq<u8>, Seq<char>>,
    kind: RgbPayloadKind,
) -> bool {
    match decoded {
        Ok(bytes) => r matches Ok(b) && b@ == bytes,
        Err(error) => r is Err && reports(kind, r->Err_0, "invalid base64: "@ + error),
    }
}

/// What becomes of a decoded payload.
pub fn decoded_payload(decoded: Result<Vec<u8>, String>, kind: RgbPayloadKind) -> (r: Result<
    Vec<u8>,
    APIError,
>)
    ensures
        decoded matches Ok(bytes) ==> r is Ok && r->Ok_0 == bytes,
        decoded matches Err(error) ==> r is Err && reports(
            kind,
            r->Err_0,
            "invalid base64: "@ + error@,
        ),
{
    match decoded {
        Ok(bytes) => Ok(bytes),
        Err(error) => Err(kind.invalid(join2("invalid base64: ", error.as_str()))),
    }
}

/// An asset ID that a caller expects, with its canonical form where it can be parsed.
#[derive(Debug)]
pub struct ExpectedAssetId {
    pub given: String,
    pub canonical: Option<String>,
}

/// /// Whether a result is what holding a contract against an expected asset ID comes to.
pub open spec fn is_id_check(
    expected: ExpectedAssetId,
    actual_contract_id: Seq<char>,
    kind: RgbPayloadKind,
    r: Result<(), APIError>,
) -> bool {
    &&& r is Ok <==> expected.canonical is Some && expected.canonical->0@ == actual_contract_id
    &&& expected.canonical is None ==> (r->Err_0 matches APIError::InvalidAssetID(id) && id@
            == expected.given@)
    &&& expected.canonical is Some && r is Err ==> reports(
            kind,
            r->Err_0,
            "expected asset id "@ + expected.given@ + ", got "@ + actual_contract_id,
        )
}

/// Holds the contract of a payload against the asset ID that the caller expects.
pub fn validate_expected_asset_id(
    expected: &ExpectedAssetId,
    actual_contract_id: &str,
    kind: RgbPayloadKind,
) -> (r: Result<(), APIError>)
    ensures
        is_id_check(*expected, actual_contract_id@, kind, r),
{
    match &expected.canonical {
        None => Err(APIError::InvalidAssetID(text(expected.given.as_str()))),
        Some(canonical) => {
            if !same(canonical.as_str(), actual_contract_id) {
                return Err(
                    kind.invalid(
                        join4(
                            "expected asset id ",
                            expected.given.as_str(),
                            ", got ",
                            actual_contract_id,
                        ),
                    ),
                );
            }
            Ok(())
        },
    }
}

/// /// Whether a result is what opening the payload of a transfer comes to.
pub open spec fn is_opening(
    offchain_txid_parses: bool,
    request: ImportRgbTransferConsignmentRequestData,
    r: Result<Vec<u8>, APIError>,
) -> bool {
    &&& !offchain_txid_parses ==> r is Err && reports(
            RgbPayloadKind::TransferConsignment,
            r->Err_0,
            "off-chain transaction ID is invalid"@,
        )
    &&& offchain_txid_parses && !size_is_valid(request.consignment_base64@) ==> r is Err && reports(
            RgbPayloadKind::TransferConsignment,
            r->Err_0,
            RgbPayloadKind::TransferConsignment.name() + " payload size is invalid"@,
        )
    &&& offchain_txid_parses && size_is_valid(request.consignment_base64@) ==> decoded_result(
            r,
            base64_decoded(request.consignment_base64@),
            RgbPayloadKind::TransferConsignment,
        )
}

/// The first step of a transfer's import: refuses an off-chain transaction ID that does not parse,
/// then decodes the payload.
pub fn open_transfer_payload(
    offchain_txid_parses: bool,
    request: ImportRgbTransferConsignmentRequestData,
) -> (r: Result<Vec<u8>, APIError>)
    ensures
        is_opening(offchain_txid_parses, request, r),
{
    if !offchain_txid_parses {
        return Err(APIError::InvalidRgbConsignment(text("off-chain transaction ID is invalid")));
    }
    decode_rgb_base64(request.consignment_base64, RgbPayloadKind::TransferConsignment)
}

/// /// Whether a result is what accepting a loaded payload comes to.
pub open spec fn is_acceptance(
    loaded: Result<String, String>,
    expected: Option<ExpectedAssetId>,
    kind: RgbPayloadKind,
    r: Result<String, APIError>,
) -> bool {
    &&& loaded matches Err(e) ==> r is Err && reports(kind, r->Err_0, e@)
    &&& loaded is Ok ==> (r is Ok <==> (expected is None || (expected->0.canonical is Some
            && expected->0.canonical->0@ == loaded->Ok_0@)))
    &&& r matches Ok(contract_id) ==> contract_id == loaded->Ok_0
    &&& loaded is Ok && expected is Some && expected->0.canonical is None ==> (
        r->Err_0 matches APIError::InvalidAssetID(id) && id@ == expected->0.given@)
    &&& loaded is Ok && expected is Some && expected->0.canonical is Some && r is Err ==> reports(
            kind,
            r->Err_0,
            "expected asset id "@ + expected->0.given@ + ", got "@ + loaded->Ok_0@,
        )
}

/// The second step of an import: the payload was loaded, and its contract must be the expected one
/// where one is expected.
pub fn accept_payload(
    loaded: Result<String, String>,
    expected: &Option<ExpectedAssetId>,
    kind: RgbPayloadKind,
) -> (r: Result<String, APIError>)
    ensures
        is_acceptance(loaded, *expected, kind, r),
{
    match loaded {
        Err(error) => Err(kind.invalid(error)),
        Ok(contract_id) => {
            if let Some(expected) = expected {
                validate_expected_asset_id(expected, contract_id.as_str(), kind)?;
            }
            Ok(contract_id)
        },
    }
}

/// The third step of an import: the node must be unlocked, and not about to change its state.
pub fn admit_import(state: &AppState) -> (r: Result<(), APIError>)
    ensures
        r == crate::app_state::unlocked_check(*state),
{
    state.check_unlocked()
}

/// The error for a task that did not come to its end: `stage` is what it did, with a leading space.
pub fn task_failed(kind: RgbPayloadKind, stage: &str, error: &str) -> (r: APIError)
    ensures
        r matches APIError::Unexpected(d) && d@ == kind.name() + stage@ + " failed: "@ + error@,
{
    APIError::Unexpected(join4(kind.label(), stage, " failed: ", error))
}

/// What the wallet's refusal of a contract is reported as.
pub fn map_contract_import_error(error: RgbLibError) -> (r: APIError)
    ensures
        error is InvalidConsignment ==> reports(
            RgbPayloadKind::Contract,
            r,
            "contract validation failed"@,
        ),
        !(error is InvalidConsignment) ==> r == APIError::Rgb(error),
{
    match error {
        RgbLibError::InvalidConsignment => APIError::InvalidRgbContract(
            text("contract validation failed"),
        ),
        other => APIError::Rgb(other),
    }
}

/// What the wallet's refusal of a transfer is reported as.
pub fn map_transfer_import_error(error: RgbLibError) -> (r: APIError)
    ensures
        error is InvalidConsignment ==> reports(
            RgbPayloadKind::TransferConsignment,
            r,
            "transfer validation failed"@,
        ),
        error is InvalidTxid ==> reports(
            RgbPayloadKind::TransferConsignment,
            r,
            "off-chain transaction ID is invalid"@,
        ),
        !(error is InvalidConsignment) && !(error is InvalidTxid) ==> r == APIError::Rgb(error),
{
    match error {
        RgbLibError::InvalidConsignment => APIError::InvalidRgbConsignment(
            text("transfer validation failed"),
        ),
        RgbLibError::InvalidTxid => APIError::InvalidRgbConsignment(
            text("off-chain transaction ID is invalid"),
        ),
        other => APIError::Rgb(other),
    }
}

/// What an import reports.
#[derive(Debug, PartialEq, Eq)]
pub struct ImportRgbData {
    pub asset_id: String,
    pub already_imported: bool,
}

/// /// Whether a result is what an import reports.
pub open spec fn is_outcome(
    kind: RgbPayloadKind,
    contract_id: String,
    imported: Result<bool, RgbLibError>,
    r: Result<ImportRgbData, APIError>,
) -> bool {
    &&& imported matches Ok(known) ==> r == Ok::<ImportRgbData, APIError>(
            (ImportRgbData { asset_id: contract_id, already_imported: known }),
        )
    &&& imported matches Err(e) ==> r is Err && import_error(kind, e, r->Err_0)
}

/// The last step of an import: `imported` is what the wallet said, with whether it knew the asset.
pub fn import_outcome(
    kind: RgbPayloadKind,
    contract_id: String,
    imported: Result<bool, RgbLibError>,
) -> (r: Result<ImportRgbData, APIError>)
    ensures
        is_outcome(kind, contract_id, imported, r),
{
    match imported {
        Ok(already_imported) => Ok(ImportRgbData { asset_id: contract_id, already_imported }),
        Err(error) => Err(
            match kind {
                RgbPayloadKind::Contract => map_contract_import_error(error),
                RgbPayloadKind::TransferConsignment => map_transfer_import_error(error),
            },
        ),
    }
}

/// What the wallet's refusal of a payload is reported as.
pub open spec fn import_error(kind: RgbPayloadKind, error: RgbLibError, r: APIError) -> bool {
    match (kind, error) {
        (RgbPayloadKind::Contract, RgbLibError::InvalidConsignment) => reports(
            kind,
            r,
            "contract validation failed"@,
        ),
        (RgbPayloadKind::TransferConsignment, RgbLibError::InvalidConsignment) => reports(
            kind,
            r,
            "transfer validation failed"@,
        ),
        (RgbPayloadKind::TransferConsignment, RgbLibError::InvalidTxid) => reports(
            kind,
            r,
            "off-chain transaction ID is invalid"@,
        ),
        _ => r == APIError::Rgb(error),
    }
}

/// A payload is reported under its own kind: no error about a payload names the other kind.
pub proof fn law_reports_are_payload_specific(e: APIError, details: Seq<char>)
    ensures
        !(reports(RgbPayloadKind::Contract, e, details) && reports(
            RgbPayloadKind::TransferConsignment,
            e,
            details,
        )),
{
}

/// Only what is neither empty nor longer than 16 MiB is decoded, and what does not decode is refused;
/// what is refused is reported under the payload's own kind.
pub proof fn law_only_decodable_payloads_are_opened(
    value: String,
    kind: RgbPayloadKind,
    r: Result<Vec<u8>, APIError>,
)
    requires
        is_decoding(value, kind, r),
    ensures
        r is Ok <==> 0 < encode_utf8(value@).len() <= 16_777_216 && base64_decoded(value@) is Ok,
        r matches Ok(bytes) ==> bytes@ == base64_decoded(value@)->Ok_0,
        r is Err && kind is Contract ==> r->Err_0 is InvalidRgbContract,
        r is Err && kind is TransferConsignment ==> r->Err_0 is InvalidRgbConsignment,
{
}

/// A transfer is opened exactly where its off-chain transaction ID parses and its payload decodes.
pub proof fn law_transfers_need_their_transaction(
    parses: bool,
    request: ImportRgbTransferConsignmentRequestData,
    r: Result<Vec<u8>, APIError>,
)
    requires
        is_opening(parses, request, r),
    ensures
        r is Ok <==> parses && 0 < encode_utf8(request.consignment_base64@).len() <= 16_777_216
            && base64_decoded(request.consignment_base64@) is Ok,
        r matches Ok(bytes) ==> bytes@ == base64_decoded(request.consignment_base64@)->Ok_0,
        r is Err ==> r->Err_0 is InvalidRgbConsignment,
{
}

/// A payload is accepted only as the asset that was expected; without an expectation as the one that it
/// is. Holding it against an expected asset alone agrees with that.
pub proof fn law_only_expected_assets_are_accepted(
    loaded: Result<String, String>,
    expected: Option<ExpectedAssetId>,
    kind: RgbPayloadKind,
    r: Result<String, APIError>,
    check: Result<(), APIError>,
)
    requires
        is_acceptance(loaded, expected, kind, r),
        loaded is Ok && expected is Some ==> is_id_check(
            expected->0,
            loaded->Ok_0@,
            kind,
            check,
        ),
    ensures
        loaded is Err ==> r is Err,
        loaded is Ok && expected is None ==> r == Ok::<String, APIError>(loaded->Ok_0),
        loaded is Ok && expected is Some ==> (r is Ok <==> check is Ok),
        r matches Ok(id) ==> id == loaded->Ok_0 && (expected is Some
            ==> expected->0.canonical is Some && expected->0.canonical->0@ == id@),
        loaded is Ok && expected is Some && expected->0.canonical is Some
            && expected->0.canonical->0@ == loaded->Ok_0@ ==> r is Ok,
{
}

/// An import reports the contract that was imported and whether the wallet knew it, and fails exactly
/// where the wallet refused: a payload that it found invalid is reported under its kind, and anything
/// else as it is.
pub proof fn law_imports_report_what_the_wallet_said(
    kind: RgbPayloadKind,
    contract_id: String,
    imported: Result<bool, RgbLibError>,
    r: Result<ImportRgbData, APIError>,
)
    requires
        is_outcome(kind, contract_id, imported, r),
    ensures
        r is Ok <==> imported is Ok,
        r matches Ok(data) ==> data.asset_id == contract_id && data.already_imported
            == imported->Ok_0,
        imported matches Err(e) ==> {
            &&& e is InvalidConsignment && kind is Contract ==> r->Err_0 is InvalidRgbContract
            &&& e is InvalidConsignment && kind is TransferConsignment
                ==> r->Err_0 is InvalidRgbConsignment
            &&& e is InvalidTxid && kind is TransferConsignment ==> r->Err_0 is InvalidRgbConsignment
            &&& e is InvalidTxid && kind is Contract ==> r->Err_0 == APIError::Rgb(e)
            &&& !(e is InvalidConsignment) && !(e is InvalidTxid) ==> r->Err_0 == APIError::Rgb(e)
        },
{
}

} // verus!
