//! Invoices that a hosting peer asks for on behalf of a payer, to be paid while the node sleeps.

use vstd::prelude::*;
use vstd::string::*;

use crate::crypto::{hex_bytes, parse_sha256};
use crate::payments::{HTLCStatus, InvoiceType, NodeId, PaymentInfo, Payments};
use crate::rpc::{is_rpc, rpc_error, RpcError, RpcErrorKind};
use crate::table::Id;
use crate::text::{copy_opt, decimal, fixed_hex, join2, number, parse_u64, parsed_u64, trim, trimmed};

verus! {

/// What a peer asks for.
#[derive(Debug)]
pub struct InvoiceRequest {
    pub hash_index: String,
    pub amount_msat: u64,
    pub asset_id: Option<String>,
    /// The canonical form of the asset's ID, where it can be parsed.
    pub contract_id: Option<String>,
    pub asset_amount: Option<u64>,
    /// The hash of the description; white space around it does not count.
    pub description_hash: String,
    /// The payment hash, where it can be parsed.
    pub payment_hash: Option<Id>,
    pub invoice_expiry_sec: u32,
    pub min_final_cltv_expiry_delta: u16,
}

/// A channel, as far as orders go.
#[derive(Clone, Copy, Debug, PartialEq, Eq, Structural)]
pub struct OrderChannel {
    pub peer: NodeId,
    /// Whether its funding is trusted without being broadcast.
    pub trusted_no_broadcast: bool,
}

/// Whether a peer has a channel whose funding is trusted without being broadcast.
pub open spec fn has_virtual_channel(channels: Seq<OrderChannel>, peer: NodeId) -> bool {
    exists|i: int|
        0 <= i < channels.len() && (#[trigger] channels[i]).peer == peer
            && channels[i].trusted_no_broadcast
}

/// Whether a peer has a channel whose funding is trusted without being broadcast.
pub fn peer_has_virtual_channel(channels: &Vec<OrderChannel>, peer: NodeId) -> (r: bool)
    ensures
        r == has_virtual_channel(channels@, peer),
{
    let mut i: usize = 0;
    while i < channels.len()
        invariant
            i <= channels@.len(),
            forall|j: int|
                0 <= j < i ==> !((#[trigger] channels@[j]).peer == peer
                    && channels@[j].trusted_no_broadcast),
        decreases channels@.len() - i,
    {
        if channels[i].peer == peer && channels[i].trusted_no_broadcast {
            return true;
        }
        i += 1;
    }
    false
}

/// The least amount that an HTLC from a sender may have.
pub open spec fn is_htlc_minimum(
    channels: Vec<OrderChannel>,
    sender: NodeId,
    virtual_min_msat: u64,
    min_msat: u64,
    r: u64,
) -> bool {
    &&& r == (if has_virtual_channel(channels@, sender) {
            virtual_min_msat
        } else {
            min_msat
        })
}

/// The least amount that an HTLC from a sender may have: that of virtual channels where the sender
/// has one.
pub fn htlc_minimum(
    channels: &Vec<OrderChannel>,
    sender: NodeId,
    virtual_min_msat: u64,
    min_msat: u64,
) -> (r: u64)
    ensures
        is_htlc_minimum(*channels, sender, virtual_min_msat, min_msat, r),
{
    if peer_has_virtual_channel(channels, sender) {
        virtual_min_msat
    } else {
        min_msat
    }
}

/// What is wrong with a request, if anything.
pub open spec fn request_error(request: InvoiceRequest, htlc_min_msat: u64) -> Option<Seq<char>> {
    if parsed_u64(request.hash_index@) is None {
        Some("invalid_hash_index"@)
    } else if request.amount_msat < htlc_min_msat {
        Some("amt_msat cannot be less than "@ + decimal(htlc_min_msat as nat))
    } else if request.asset_amount == Some(0u64) {
        Some("invalid_asset_amount"@)
    } else if trimmed(request.description_hash@).len() == 0 {
        Some("invalid_description_hash"@)
    } else if request.asset_id is Some != request.asset_amount is Some {
        Some("incomplete_rgb_info"@)
    } else if request.asset_id is Some && request.contract_id is None {
        Some("invalid_asset_id"@)
    } else if request.payment_hash is None {
        Some("async_order_invalid_payment_hash"@)
    } else {
        None
    }
}

/// A request that may go on: the index of its hash, and the hash.
#[derive(Clone, Copy, Debug, PartialEq, Eq, Structural)]
pub struct CheckedRequest {
    pub hash_index: u64,
    pub payment_hash: Id,
}

fn invalid(message: &str) -> (r: RpcError)
    ensures
        is_rpc(r, RpcErrorKind::InvalidParams, message@),
{
    rpc_error(RpcErrorKind::InvalidParams, message)
}

/// What the check of a request comes to.
pub open spec fn is_request_checked(
    request: InvoiceRequest,
    htlc_min_msat: u64,
    r: Result<
    CheckedRequest,
    RpcError,
>,
) -> bool {
    &&& match request_error(request, htlc_min_msat) {
            Some(message) => r is Err && is_rpc(r->Err_0, RpcErrorKind::InvalidParams, message),
            None => r == Ok::<CheckedRequest, RpcError>(
                CheckedRequest {
                    hash_index: parsed_u64(request.hash_index@)->0,
                    payment_hash: request.payment_hash->0,
                },
            ),
        }
}

/// Checks what a peer asks for, before any key is touched.
pub fn check_invoice_request(request: &InvoiceRequest, htlc_min_msat: u64) -> (r: Result<
    CheckedRequest,
    RpcError,
>)
    ensures
        is_request_checked(*request, htlc_min_msat, r),
{
    let hash_index: u64 = match parse_u64(request.hash_index.as_str()) {
        Some(index) => index,
        None => {
            return Err(invalid("invalid_hash_index"));
        },
    };
    if request.amount_msat < htlc_min_msat {
        return Err(
            RpcError {
                kind: RpcErrorKind::InvalidParams,
                message: join2("amt_msat cannot be less than ", number(htlc_min_msat).as_str()),
            },
        );
    }
    if let Some(amount) = request.asset_amount {
        if amount == 0 {
            return Err(invalid("invalid_asset_amount"));
        }
    }
    if trim(request.description_hash.as_str()).is_empty() {
        return Err(invalid("invalid_description_hash"));
    }
    if request.asset_id.is_some() != request.asset_amount.is_some() {
        return Err(invalid("incomplete_rgb_info"));
    }
    if request.asset_id.is_some() && request.contract_id.is_none() {
        return Err(invalid("invalid_asset_id"));
    }
    match request.payment_hash {
        Some(payment_hash) => Ok(CheckedRequest { hash_index, payment_hash }),
        None => Err(invalid("async_order_invalid_payment_hash")),
    }
}

/// What the owner of the keys made of a hash index.
#[derive(Debug)]
pub enum Derivation {
    /// The node has its own keys: the hash and its preimage.
    Local { payment_hash: Id, preimage: Id },
    /// The node's own keys cannot derive the index.
    LocalFailed(RpcError),
    /// The external signer is not there.
    NoSigner,
    /// The external signer failed.
    SignerFailed(String),
    /// The external signer's hash; nothing where it returned none that can be parsed.
    Signer(Option<Id>),
}

/// Whether a derivation confirms the hash that was asked for.
pub open spec fn derived(
    derivation: Derivation,
    payment_hash: Id,
    r: Result<Option<Id>, RpcError>,
) -> bool {
    let mismatch = r is Err && is_rpc(
        r->Err_0,
        RpcErrorKind::InvoiceHashMismatch,
        "invoice_hash_mismatch"@,
    );
    match derivation {
        Derivation::Local { payment_hash: h, preimage } => if h == payment_hash {
            r == Ok::<Option<Id>, RpcError>(Some(preimage))
        } else {
            mismatch
        },
        Derivation::LocalFailed(e) => r == Err::<Option<Id>, RpcError>(e),
        Derivation::NoSigner => r is Err && is_rpc(
            r->Err_0,
            RpcErrorKind::InternalError,
            "async_order_external_signer_unavailable"@,
        ),
        Derivation::SignerFailed(e) => r is Err && is_rpc(
            r->Err_0,
            RpcErrorKind::InternalError,
            "async_order_signer_derive_failed: "@ + e@,
        ),
        Derivation::Signer(None) => r is Err && is_rpc(
            r->Err_0,
            RpcErrorKind::InternalError,
            "async_order_external_signer_derived_hash_error"@,
        ),
        Derivation::Signer(Some(h)) => if h == payment_hash {
            r == Ok::<Option<Id>, RpcError>(None)
        } else {
            mismatch
        },
    }
}

fn check_derivation(derivation: Derivation, payment_hash: Id) -> (r: Result<Option<Id>, RpcError>)
    ensures
        derived(derivation, payment_hash, r),
{
    match derivation {
        Derivation::Local { payment_hash: h, preimage } => if h == payment_hash {
            Ok(Some(preimage))
        } else {
            Err(rpc_error(RpcErrorKind::InvoiceHashMismatch, "invoice_hash_mismatch"))
        },
        Derivation::LocalFailed(e) => Err(e),
        Derivation::NoSigner => Err(
            rpc_error(RpcErrorKind::InternalError, "async_order_external_signer_unavailable"),
        ),
        Derivation::SignerFailed(e) => Err(
            RpcError {
                kind: RpcErrorKind::InternalError,
                message: join2("async_order_signer_derive_failed: ", e.as_str()),
            },
        ),
        Derivation::Signer(None) => Err(
            rpc_error(
                RpcErrorKind::InternalError,
                "async_order_external_signer_derived_hash_error",
            ),
        ),
        Derivation::Signer(Some(h)) => if h == payment_hash {
            Ok(None)
        } else {
            Err(rpc_error(RpcErrorKind::InvoiceHashMismatch, "invoice_hash_mismatch"))
        },
    }
}

/// The terms that an invoice is made with.
#[derive(Debug)]
pub struct InvoiceTerms {
    pub amount_msat: u64,
    pub description_hash: [u8; 32],
    pub invoice_expiry_sec: u32,
    pub min_final_cltv_expiry_delta: u16,
    pub payment_hash: Id,
    pub contract_id: Option<String>,
    pub asset_amount: Option<u64>,
    /// The preimage, where the node has it itself.
    pub preimage: Option<Id>,
}

/// Whether terms are those of a request.
pub open spec fn are_terms_of(
    terms: InvoiceTerms,
    request: InvoiceRequest,
    checked: CheckedRequest,
    preimage: Option<Id>,
) -> bool {
    &&& terms.amount_msat == request.amount_msat
    &&& terms.description_hash@ == hex_bytes(trimmed(request.description_hash@))
    &&& terms.invoice_expiry_sec == request.invoice_expiry_sec
    &&& terms.min_final_cltv_expiry_delta == request.min_final_cltv_expiry_delta
    &&& terms.payment_hash == checked.payment_hash
    &&& terms.contract_id == (if request.asset_id is Some {
        request.contract_id
    } else {
        None
    })
    &&& terms.asset_amount == request.asset_amount
    &&& terms.preimage == preimage
}

/// Whether a result is what a checked request comes to.
pub open spec fn request_result(
    payments: Payments,
    request: InvoiceRequest,
    checked: CheckedRequest,
    derivation: Derivation,
    now: u64,
    r: Result<InvoiceTerms, RpcError>,
) -> bool {
    exists|preimage: Result<Option<Id>, RpcError>|
        #[trigger] derived(derivation, checked.payment_hash, preimage) && match preimage {
            Err(e) => r == Err::<InvoiceTerms, RpcError>(e),
            Ok(p) => if !payments.may_reuse(checked.payment_hash, now) {
                r is Err && is_rpc(r->Err_0, RpcErrorKind::StaleFlow, "stale_flow"@)
            } else if !fixed_hex(trimmed(request.description_hash@), 32) {
                r is Err && is_rpc(
                    r->Err_0,
                    RpcErrorKind::InvalidParams,
                    "invalid_description_hash"@,
                )
            } else {
                r is Ok && are_terms_of(r->Ok_0, request, checked, p)
            },
        }
}

/// Makes the terms of the invoice that a checked request asks for: the keys must confirm its hash,
/// and no live invoice may have that hash.
pub fn request_outbound_invoice(
    payments: &Payments,
    request: &InvoiceRequest,
    checked: CheckedRequest,
    derivation: Derivation,
    now: u64,
) -> (r: Result<InvoiceTerms, RpcError>)
    requires
        payments.wf(),
    ensures
        request_result(*payments, *request, checked, derivation, now, r),
{
    let confirmed = check_derivation(derivation, checked.payment_hash);
    let ghost c = confirmed;
    assert(derived(derivation, checked.payment_hash, c));
    let preimage = match confirmed {
        Ok(p) => p,
        Err(e) => {
            return Err(e);
        },
    };
    if !payments.is_reusable(checked.payment_hash, now) {
        return Err(rpc_error(RpcErrorKind::StaleFlow, "stale_flow"));
    }
    let description_hash = match parse_sha256(trim(request.description_hash.as_str())) {
        Some(hash) => hash,
        None => {
            return Err(invalid("invalid_description_hash"));
        },
    };
    let contract_id = if request.asset_id.is_some() {
        copy_opt(&request.contract_id)
    } else {
        None
    };
    Ok(
        InvoiceTerms {
            amount_msat: request.amount_msat,
            description_hash,
            invoice_expiry_sec: request.invoice_expiry_sec,
            min_final_cltv_expiry_delta: request.min_final_cltv_expiry_delta,
            payment_hash: checked.payment_hash,
            contract_id,
            asset_amount: request.asset_amount,
            preimage,
        },
    )
}

/// The error for an invoice that could not be made.
pub fn invoice_failed(error: &str) -> (r: RpcError)
    ensures
        is_rpc(
            r,
            RpcErrorKind::InternalError,
            "async_order_request_outbound_invoice_failed: "@ + error@,
        ),
{
    RpcError {
        kind: RpcErrorKind::InternalError,
        message: join2("async_order_request_outbound_invoice_failed: ", error),
    }
}

/// The payment that an invoice is kept as.
pub open spec fn is_invoice_payment(
    terms: InvoiceTerms,
    checked: CheckedRequest,
    sender_node_id: NodeId,
    our_node_id: NodeId,
    secret: Id,
    description: Option<String>,
    description_hash: Option<Id>,
    external_signer_mode: bool,
    now: u64,
    r: PaymentInfo,
) -> bool {
    &&& r == (PaymentInfo {
            preimage: terms.preimage,
            secret: Some(secret),
            status: HTLCStatus::Pending,
            amt_msat: Some(terms.amount_msat),
            created_at: now,
            updated_at: now,
            payee_pubkey: our_node_id,
            expires_at: Some((now + terms.invoice_expiry_sec) as u64),
            claim_deadline_height: None,
            invoice_type: Some(InvoiceType::Hodl { async_payment_recipient: true }),
            description,
            description_hash,
            payment_idx: None,
            async_hash_index: if external_signer_mode {
                Some(checked.hash_index)
            } else {
                None
            },
            async_host_node_id: if external_signer_mode {
                Some(sender_node_id)
            } else {
                None
            },
        })
}

/// The payment that an invoice is kept as. Only where an external signer holds the preimage, who
/// asked and for which index is kept too.
pub fn invoice_payment(
    terms: &InvoiceTerms,
    checked: CheckedRequest,
    sender_node_id: NodeId,
    our_node_id: NodeId,
    secret: Id,
    description: Option<String>,
    description_hash: Option<Id>,
    external_signer_mode: bool,
    now: u64,
) -> (r: PaymentInfo)
    requires
        now + terms.invoice_expiry_sec <= u64::MAX,
    ensures
        is_invoice_payment(*terms, checked, sender_node_id, our_node_id, secret, description, description_hash, external_signer_mode, now, r),
{
    PaymentInfo {
        preimage: terms.preimage,
        secret: Some(secret),
        status: HTLCStatus::Pending,
        amt_msat: Some(terms.amount_msat),
        created_at: now,
        updated_at: now,
        payee_pubkey: our_node_id,
        expires_at: Some(now + terms.invoice_expiry_sec as u64),
        claim_deadline_height: None,
        invoice_type: Some(InvoiceType::Hodl { async_payment_recipient: true }),
        description,
        description_hash,
        payment_idx: None,
        async_hash_index: if external_signer_mode {
            Some(checked.hash_index)
        } else {
            None
        },
        async_host_node_id: if external_signer_mode {
            Some(sender_node_id)
        } else {
            None
        },
    }
}

/// An invoice is only made for a hash that the owner of the keys confirmed, and never while an
/// invoice with that hash is claimable, paid, or still open.
pub proof fn law_invoices_are_confirmed_and_fresh(
    payments: Payments,
    request: InvoiceRequest,
    checked: CheckedRequest,
    derivation: Derivation,
    now: u64,
    r: Result<InvoiceTerms, RpcError>,
)
    requires
        request_result(payments, request, checked, derivation, now, r),
        r is Ok,
    ensures
        (derivation matches Derivation::Local { payment_hash, .. } && payment_hash
            == checked.payment_hash) || derivation == Derivation::Signer(
            Some(checked.payment_hash),
        ),
        payments.inbound@.dom().contains(checked.payment_hash) ==> ({
            let status = payments.inbound@[checked.payment_hash].status;
            status != HTLCStatus::Claimable && status != HTLCStatus::Succeeded
        }),
{
}

/// A request is only let through where it is complete and asks for something that can be paid; its index
/// and its hash are those that were asked for.
pub proof fn law_checked_requests_are_payable(
    request: InvoiceRequest,
    htlc_min_msat: u64,
    r: Result<CheckedRequest, RpcError>,
)
    requires
        is_request_checked(request, htlc_min_msat, r),
    ensures
        r is Ok <==> {
            &&& parsed_u64(request.hash_index@) is Some
            &&& request.amount_msat >= htlc_min_msat
            &&& request.asset_amount != Some(0u64)
            &&& trimmed(request.description_hash@).len() > 0
            &&& request.asset_id is Some <==> request.asset_amount is Some
            &&& request.asset_id is Some ==> request.contract_id is Some
            &&& request.payment_hash is Some
        },
        r matches Ok(checked) ==> request.payment_hash == Some(checked.payment_hash) && parsed_u64(
            request.hash_index@,
        ) == Some(checked.hash_index),
{
}

/// The keys of a node, or its signer, only ever confirm the very hash that was asked for, and a preimage
/// is only at hand where the node's own keys gave it.
pub proof fn law_derivations_confirm_the_hash(
    derivation: Derivation,
    payment_hash: Id,
    r: Result<Option<Id>, RpcError>,
)
    requires
        derived(derivation, payment_hash, r),
    ensures
        r is Ok <==> (derivation matches Derivation::Local { payment_hash: h, .. } && h
            == payment_hash) || derivation == Derivation::Signer(Some(payment_hash)),
        r matches Ok(Some(p)) ==> (derivation matches Derivation::Local { preimage, .. } && preimage
            == p),
        r == Ok::<Option<Id>, RpcError>(None) ==> derivation is Signer,
        (derivation matches Derivation::Local { payment_hash: h, .. } && h != payment_hash) ==> r is Err
            && r->Err_0.kind == RpcErrorKind::InvoiceHashMismatch,
        (derivation matches Derivation::Signer(Some(h)) && h != payment_hash) ==> r is Err
            && r->Err_0.kind == RpcErrorKind::InvoiceHashMismatch,
{
}

/// A request is answered with an invoice on the asked terms where the keys confirm its hash, no live
/// invoice has it, and its description's hash is one.
pub proof fn law_invoices_are_made_as_asked(
    payments: Payments,
    request: InvoiceRequest,
    checked: CheckedRequest,
    derivation: Derivation,
    now: u64,
    r: Result<InvoiceTerms, RpcError>,
)
    requires
        request_result(payments, request, checked, derivation, now, r),
    ensures
        (derivation matches Derivation::Local { payment_hash: h, .. } && h == checked.payment_hash)
            && !payments.inbound@.dom().contains(checked.payment_hash) && fixed_hex(
            trimmed(request.description_hash@),
            32,
        ) ==> r is Ok && r->Ok_0.preimage == Some(derivation->preimage),
        derivation == Derivation::Signer(Some(checked.payment_hash))
            && !payments.inbound@.dom().contains(checked.payment_hash) && fixed_hex(
            trimmed(request.description_hash@),
            32,
        ) ==> r is Ok && r->Ok_0.preimage is None,
        r matches Ok(terms) ==> {
            &&& terms.amount_msat == request.amount_msat
            &&& terms.payment_hash == checked.payment_hash
            &&& terms.asset_amount == request.asset_amount
            &&& terms.invoice_expiry_sec == request.invoice_expiry_sec
            &&& terms.min_final_cltv_expiry_delta == request.min_final_cltv_expiry_delta
            &&& request.asset_id is Some ==> terms.contract_id == request.contract_id
            &&& request.asset_id is None ==> terms.contract_id is None
            &&& terms.description_hash@ == hex_bytes(trimmed(request.description_hash@))
        },
{
}

/// The least amount is that of virtual channels exactly for a sender that has one.
pub proof fn law_virtual_channels_have_their_own_minimum(
    channels: Vec<OrderChannel>,
    sender: NodeId,
    virtual_min_msat: u64,
    min_msat: u64,
    r: u64,
    i: int,
)
    requires
        is_htlc_minimum(channels, sender, virtual_min_msat, min_msat, r),
    ensures
        0 <= i < channels@.len() && channels@[i].peer == sender && channels@[i].trusted_no_broadcast
            ==> r == virtual_min_msat,
        (forall|k: int|
            0 <= k < channels@.len() ==> (#[trigger] channels@[k]).peer != sender
                || !channels@[k].trusted_no_broadcast) ==> r == min_msat,
{
}

/// The payment of such an invoice waits for its holder until the invoice expires, for the amount that
/// was asked; only where a signer holds the preimage it says who asked and for which index, so that the
/// preimage can be fetched.
pub proof fn law_invoice_payments_wait_for_their_holder(
    terms: InvoiceTerms,
    checked: CheckedRequest,
    sender_node_id: NodeId,
    our_node_id: NodeId,
    secret: Id,
    description: Option<String>,
    description_hash: Option<Id>,
    external_signer_mode: bool,
    now: u64,
    r: PaymentInfo,
)
    requires
        now + terms.invoice_expiry_sec <= u64::MAX,
        is_invoice_payment(
            terms,
            checked,
            sender_node_id,
            our_node_id,
            secret,
            description,
            description_hash,
            external_signer_mode,
            now,
            r,
        ),
    ensures
        r.status == HTLCStatus::Pending,
        r.amt_msat == Some(terms.amount_msat),
        r.preimage == terms.preimage,
        r.secret == Some(secret),
        r.expires_at is Some && r.expires_at->0 == now + terms.invoice_expiry_sec,
        r.created_at == now && r.updated_at == now,
        r.payee_pubkey == our_node_id,
        r.invoice_type == Some(InvoiceType::Hodl { async_payment_recipient: true }),
        r.payment_idx is None && r.claim_deadline_height is None,
        r.description == description && r.description_hash == description_hash,
        external_signer_mode ==> r.async_hash_index == Some(checked.hash_index)
            && r.async_host_node_id == Some(sender_node_id),
        !external_signer_mode ==> r.async_hash_index is None && r.async_host_node_id is None,
{
}

} // verus!
