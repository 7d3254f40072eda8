//! What the node makes of the channel manager's payment events.

use vstd::prelude::*;

use crate::payments::{
    discovered, next_after, refreshed, stamped, HTLCStatus, InvoiceType, NodeId, PaymentInfo,
    Payments,
};
use crate::swaps::{maker_moved, taker_moved, SwapStatus, Swaps};
use crate::table::Id;

verus! {

/// What an incoming payment is for.
#[derive(Clone, Copy, Debug, PartialEq, Eq, Structural)]
pub enum PaymentPurpose {
    /// A payment without an invoice, which brings its own preimage.
    Spontaneous(Id),
    /// A payment of an invoice, an offer or a refund.
    Invoice { preimage: Option<Id>, secret: Id },
}

impl PaymentPurpose {
    pub open spec fn preimage(self) -> Option<Id> {
        match self {
            PaymentPurpose::Spontaneous(preimage) => Some(preimage),
            PaymentPurpose::Invoice { preimage, .. } => preimage,
        }
    }

    pub open spec fn secret(self) -> Option<Id> {
        match self {
            PaymentPurpose::Spontaneous(_) => None,
            PaymentPurpose::Invoice { secret, .. } => Some(secret),
        }
    }
}

// ---------------------------------------------------------------------------------------------
// Claimable payments
// ---------------------------------------------------------------------------------------------

/// What is done with a payment that can be claimed.
#[derive(Clone, Copy, Debug, PartialEq, Eq, Structural)]
pub enum ClaimAction {
    Claim(Id),
    /// The HTLCs are failed, and so is the payment.
    FailBackwards,
    /// The event is replayed.
    Replay,
    /// The payment is kept claimable until its holder decides.
    Hold,
    /// The external signer is asked for the preimage.
    FetchPreimage { host_node_id: NodeId, hash_index: u64 },
}

/// Whether a payment comes too late or brings too little.
pub open spec fn is_unacceptable(invoice: PaymentInfo, amount_msat: u64, now: u64) -> bool {
    ||| invoice.expires_at matches Some(expiry) && now >= expiry
    ||| invoice.amt_msat matches Some(expected) && amount_msat < expected
}

/// What is done with a payment that can be claimed.
pub open spec fn claim_action(
    purpose: PaymentPurpose,
    invoice: Option<PaymentInfo>,
    amount_msat: u64,
    now: u64,
    external_signer_mode: bool,
    has_external_signer: bool,
) -> ClaimAction {
    match (purpose, invoice) {
        (PaymentPurpose::Spontaneous(preimage), _) => ClaimAction::Claim(preimage),
        (_, None) => ClaimAction::Replay,
        (PaymentPurpose::Invoice { preimage, .. }, Some(invoice)) => if is_unacceptable(
            invoice,
            amount_msat,
            now,
        ) {
            ClaimAction::FailBackwards
        } else {
            match invoice.invoice_type {
                Some(InvoiceType::Hodl { async_payment_recipient: false }) => ClaimAction::Hold,
                Some(InvoiceType::Hodl { async_payment_recipient: true }) => match invoice.preimage {
                    Some(p) => ClaimAction::Claim(p),
                    None => if external_signer_mode && has_external_signer
                        && invoice.async_host_node_id is Some && invoice.async_hash_index is Some {
                        ClaimAction::FetchPreimage {
                            host_node_id: invoice.async_host_node_id->0,
                            hash_index: invoice.async_hash_index->0,
                        }
                    } else {
                        ClaimAction::Replay
                    },
                },
                _ => match preimage {
                    Some(p) => ClaimAction::Claim(p),
                    None => ClaimAction::Replay,
                },
            }
        },
    }
}

/// Decides on a payment that can be claimed. A payment without an invoice is claimed at once. One
/// for an invoice is failed where it comes too late or brings too little; otherwise the invoice
/// says who claims it, and with which preimage.
pub fn payment_claimable(
    purpose: PaymentPurpose,
    invoice: Option<&PaymentInfo>,
    amount_msat: u64,
    now: u64,
    external_signer_mode: bool,
    has_external_signer: bool,
) -> (r: ClaimAction)
    ensures
        r == claim_action(
            purpose,
            match invoice {
                Some(i) => Some(*i),
                None => None,
            },
            amount_msat,
            now,
            external_signer_mode,
            has_external_signer,
        ),
{
    let preimage = match purpose {
        PaymentPurpose::Spontaneous(preimage) => {
            return ClaimAction::Claim(preimage);
        },
        PaymentPurpose::Invoice { preimage, .. } => preimage,
    };
    let invoice = match invoice {
        Some(i) => i,
        None => {
            return ClaimAction::Replay;
        },
    };
    if let Some(expiry) = invoice.expires_at {
        if now >= expiry {
            return ClaimAction::FailBackwards;
        }
    }
    if let Some(expected) = invoice.amt_msat {
        if amount_msat < expected {
            return ClaimAction::FailBackwards;
        }
    }
    let invoice_type = match invoice.invoice_type {
        Some(t) => t,
        None => InvoiceType::AutoClaim,
    };
    match invoice_type {
        InvoiceType::AutoClaim => match preimage {
            Some(p) => ClaimAction::Claim(p),
            None => ClaimAction::Replay,
        },
        InvoiceType::Hodl { async_payment_recipient } => if !async_payment_recipient {
            ClaimAction::Hold
        } else {
            match invoice.preimage {
                Some(p) => ClaimAction::Claim(p),
                None => {
                    if !external_signer_mode || !has_external_signer {
                        return ClaimAction::Replay;
                    }
                    match (invoice.async_host_node_id, invoice.async_hash_index) {
                        (Some(host_node_id), Some(hash_index)) => ClaimAction::FetchPreimage {
                            host_node_id,
                            hash_index,
                        },
                        _ => ClaimAction::Replay,
                    }
                },
            }
        },
    }
}

/// What is done with a payment whose preimage the external signer was asked for.
pub open spec fn after_fetch(fetched: Result<Option<Id>, ()>) -> ClaimAction {
    match fetched {
        Ok(Some(preimage)) => ClaimAction::Claim(preimage),
        Ok(None) => ClaimAction::FailBackwards,
        Err(_) => ClaimAction::Replay,
    }
}

/// Decides on a payment whose preimage the external signer was asked for: `fetched` is the preimage,
/// none where it does not hash to the payment's hash, an error where the signer failed.
pub fn payment_preimage_fetched(fetched: Result<Option<Id>, ()>) -> (r: ClaimAction)
    ensures
        r == after_fetch(fetched),
{
    match fetched {
        Ok(Some(preimage)) => ClaimAction::Claim(preimage),
        Ok(None) => ClaimAction::FailBackwards,
        Err(_) => ClaimAction::Replay,
    }
}

/// What holding a payment makes of the payments.
pub open spec fn is_held(
    payments: Payments,
    payment_hash: Id,
    preimage: Option<Id>,
    secret: Id,
    amount_msat: u64,
    our_node_id: NodeId,
    claim_deadline: Option<u32>,
    now: u64,
    payments_after: Payments,
) -> bool {
    &&& payments_after.outbound == payments.outbound
    &&& ({
            let known = payments.inbound@;
            let next = payments.next_payment_idx;
            if known.dom().contains(payment_hash) {
                let held = known[payment_hash];
                &&& payments_after.inbound@ == known.insert(
                    payment_hash,
                    PaymentInfo {
                        status: HTLCStatus::Claimable,
                        preimage,
                        secret: Some(secret),
                        amt_msat: Some(amount_msat),
                        claim_deadline_height: match claim_deadline {
                            Some(height) => Some(height),
                            None => held.claim_deadline_height,
                        },
                        updated_at: now,
                        ..held
                    },
                )
                &&& payments_after.next_payment_idx == next
            } else {
                let p = discovered(
                    HTLCStatus::Claimable,
                    preimage,
                    Some(secret),
                    Some(amount_msat),
                    our_node_id,
                    claim_deadline,
                    None,
                    now,
                );
                &&& payments_after.inbound@ == known.insert(payment_hash, stamped(p, next))
                &&& payments_after.next_payment_idx == next_after(p, next)
            }
        })
}

/// Records a payment that is kept claimable until its holder decides, with what the event says of it.
pub fn hold_payment(
    payments: &mut Payments,
    payment_hash: Id,
    preimage: Option<Id>,
    secret: Id,
    amount_msat: u64,
    our_node_id: NodeId,
    claim_deadline: Option<u32>,
    now: u64,
)
    requires
        old(payments).wf(),
    ensures
        final(payments).wf(),
        is_held(*old(payments), payment_hash, preimage, secret, amount_msat, our_node_id, claim_deadline, now, *final(payments)),
{
    payments.upsert_inbound_payment(
        payment_hash,
        HTLCStatus::Claimable,
        preimage,
        Some(secret),
        Some(amount_msat),
        our_node_id,
        claim_deadline,
        None,
        now,
    );
}

/// A payment of an invoice is neither claimed nor held when it comes too late or brings too little.
pub proof fn law_late_and_short_payments_are_failed(
    purpose: PaymentPurpose,
    invoice: PaymentInfo,
    amount_msat: u64,
    now: u64,
    external_signer_mode: bool,
    has_external_signer: bool,
)
    requires
        purpose is Invoice,
        is_unacceptable(invoice, amount_msat, now),
    ensures
        claim_action(
            purpose,
            Some(invoice),
            amount_msat,
            now,
            external_signer_mode,
            has_external_signer,
        ) == ClaimAction::FailBackwards,
{
}

// ---------------------------------------------------------------------------------------------
// Claimed, sent and failed payments
// ---------------------------------------------------------------------------------------------

/// Whether a claimed payment was recorded before.
pub open spec fn was_claimed(swaps: Swaps, payments: Payments, payment_hash: Id) -> bool {
    if swaps.maker@.dom().contains(payment_hash) {
        swaps.maker@[payment_hash].status == SwapStatus::Succeeded
    } else {
        payments.inbound@.dom().contains(payment_hash) && payments.inbound@[payment_hash].status
            == HTLCStatus::Succeeded
    }
}

/// Whether a claimed payment was recorded before; its RGB side is then settled already.
pub fn already_claimed(swaps: &Swaps, payments: &Payments, payment_hash: Id) -> (r: bool)
    requires
        swaps.wf(),
        payments.wf(),
    ensures
        r == was_claimed(*swaps, *payments, payment_hash),
{
    match swaps.maker.get(payment_hash) {
        Some(swap) => swap.status == SwapStatus::Succeeded,
        None => match payments.inbound.get(payment_hash) {
            Some(payment) => payment.status == HTLCStatus::Succeeded,
            None => false,
        },
    }
}

/// What a claimed payment makes of the offered swaps and the payments.
pub open spec fn is_claimed(
    swaps: Swaps,
    payments: Payments,
    payment_hash: Id,
    purpose: PaymentPurpose,
    amount_msat: u64,
    receiver_node_id: NodeId,
    now: u64,
    swaps_after: Swaps,
    payments_after: Payments,
) -> bool {
    &&& swaps_after.taker == swaps.taker
    &&& payments_after.outbound == payments.outbound
    &&& ({
            let known = payments.inbound@;
            let next = payments.next_payment_idx;
            if swaps.maker@.dom().contains(payment_hash) {
                &&& swaps_after.maker@ == swaps.maker@.insert(
                    payment_hash,
                    maker_moved(swaps.maker@[payment_hash], SwapStatus::Succeeded, now),
                )
                &&& payments_after == payments
            } else {
                &&& swaps_after == swaps
                &&& if known.dom().contains(payment_hash) {
                    &&& payments_after.inbound@ == known.insert(
                        payment_hash,
                        refreshed(
                            known[payment_hash],
                            HTLCStatus::Succeeded,
                            purpose.preimage(),
                            purpose.secret(),
                            Some(amount_msat),
                            None,
                            now,
                        ),
                    )
                    &&& payments_after.next_payment_idx == next
                } else {
                    let p = discovered(
                        HTLCStatus::Succeeded,
                        purpose.preimage(),
                        purpose.secret(),
                        Some(amount_msat),
                        receiver_node_id,
                        None,
                        None,
                        now,
                    );
                    &&& payments_after.inbound@ == known.insert(payment_hash, stamped(p, next))
                    &&& payments_after.next_payment_idx == next_after(p, next)
                }
            }
        })
}

/// Records a claimed payment, once its RGB side is settled: as the success of the offered swap that
/// it belongs to, else of the payment.
pub fn payment_claimed(
    swaps: &mut Swaps,
    payments: &mut Payments,
    payment_hash: Id,
    purpose: PaymentPurpose,
    amount_msat: u64,
    receiver_node_id: NodeId,
    now: u64,
)
    requires
        old(swaps).wf(),
        old(payments).wf(),
    ensures
        final(swaps).wf(),
        final(payments).wf(),
        is_claimed(*old(swaps), *old(payments), payment_hash, purpose, amount_msat, receiver_node_id, now, *final(swaps), *final(payments)),
{
    if swaps.is_maker_swap(payment_hash) {
        swaps.update_maker_swap_status(payment_hash, SwapStatus::Succeeded, now);
    } else {
        let (preimage, secret) = match purpose {
            PaymentPurpose::Spontaneous(preimage) => (Some(preimage), None),
            PaymentPurpose::Invoice { preimage, secret } => (preimage, Some(secret)),
        };
        payments.upsert_inbound_payment(
            payment_hash,
            HTLCStatus::Succeeded,
            preimage,
            secret,
            Some(amount_msat),
            receiver_node_id,
            None,
            None,
            now,
        );
    }
}

/// What a sent payment makes of the offered swaps and the payments, and what is given back of it.
pub open spec fn is_sent(
    swaps: Swaps,
    payments: Payments,
    payment_hash: Id,
    payment_id: Id,
    payment_preimage: Id,
    now: u64,
    swaps_after: Swaps,
    payments_after: Payments,
    r: Option<PaymentInfo>,
) -> bool {
    &&& swaps_after.taker == swaps.taker
    &&& payments_after.inbound == payments.inbound
    &&& payments_after.next_payment_idx == payments.next_payment_idx
    &&& if swaps.maker@.dom().contains(payment_hash) {
            &&& r is None
            &&& swaps_after.maker@ == swaps.maker@.insert(
                payment_hash,
                maker_moved(swaps.maker@[payment_hash], SwapStatus::Succeeded, now),
            )
            &&& payments_after.outbound == payments.outbound
        } else {
            &&& swaps_after == swaps
            &&& r == Some(
                PaymentInfo {
                    status: HTLCStatus::Succeeded,
                    preimage: Some(payment_preimage),
                    updated_at: now,
                    ..payments.outbound@[payment_id]
                },
            )
            &&& payments_after.outbound@ == payments.outbound@.insert(payment_id, r->0)
        }
}

/// Records a sent payment, once its RGB side is settled, and gives it back unless it belongs to an
/// offered swap.
pub fn payment_sent(
    swaps: &mut Swaps,
    payments: &mut Payments,
    payment_hash: Id,
    payment_id: Id,
    payment_preimage: Id,
    now: u64,
) -> (r: Option<PaymentInfo>)
    requires
        old(swaps).wf(),
        old(payments).wf(),
        old(swaps).maker@.dom().contains(payment_hash) || old(payments).outbound@.dom().contains(
            payment_id,
        ),
    ensures
        final(swaps).wf(),
        final(payments).wf(),
        is_sent(*old(swaps), *old(payments), payment_hash, payment_id, payment_preimage, now, *final(swaps), *final(payments), r),
{
    if swaps.is_maker_swap(payment_hash) {
        swaps.update_maker_swap_status(payment_hash, SwapStatus::Succeeded, now);
        None
    } else {
        Some(
            payments.update_outbound_payment(
                payment_id,
                HTLCStatus::Succeeded,
                Some(payment_preimage),
                now,
            ),
        )
    }
}

/// What a failed payment makes of the offered swaps and the payments.
pub open spec fn is_failed(
    swaps: Swaps,
    payments: Payments,
    payment_hash: Option<Id>,
    payment_id: Id,
    now: u64,
    swaps_after: Swaps,
    payments_after: Payments,
) -> bool {
    &&& swaps_after.taker == swaps.taker
    &&& payments_after.inbound == payments.inbound
    &&& payments_after.next_payment_idx == payments.next_payment_idx
    &&& if payment_hash is Some && swaps.maker@.dom().contains(payment_hash->0) {
            &&& swaps_after.maker@ == swaps.maker@.insert(
                payment_hash->0,
                maker_moved(swaps.maker@[payment_hash->0], SwapStatus::Failed, now),
            )
            &&& payments_after.outbound == payments.outbound
        } else {
            &&& swaps_after == swaps
            &&& payments_after.outbound@ == payments.outbound@.insert(
                payment_id,
                PaymentInfo {
                    status: HTLCStatus::Failed,
                    updated_at: now,
                    ..payments.outbound@[payment_id]
                },
            )
        }
}

/// Records a payment that failed: as the failure of the offered swap that it belongs to, else of the
/// payment. A payment whose invoice could not be fetched has no hash.
pub fn payment_failed(
    swaps: &mut Swaps,
    payments: &mut Payments,
    payment_hash: Option<Id>,
    payment_id: Id,
    now: u64,
)
    requires
        old(swaps).wf(),
        old(payments).wf(),
        (payment_hash is Some && old(swaps).maker@.dom().contains(payment_hash->0)) || old(
            payments,
        ).outbound@.dom().contains(payment_id),
    ensures
        final(swaps).wf(),
        final(payments).wf(),
        is_failed(*old(swaps), *old(payments), payment_hash, payment_id, now, *final(swaps), *final(payments)),
{
    if let Some(hash) = payment_hash {
        if swaps.is_maker_swap(hash) {
            swaps.update_maker_swap_status(hash, SwapStatus::Failed, now);
            return;
        }
    }
    payments.update_outbound_payment_status(payment_id, HTLCStatus::Failed, now);
}

/// What a forwarded payment makes of the taken swaps.
pub open spec fn is_forwarded(
    swaps: Swaps,
    payment_hash: Id,
    now: u64,
    swaps_after: Swaps,
) -> bool {
    &&& swaps_after.maker == swaps.maker
    &&& swaps_after.taker@ == (if swaps.taker@.dom().contains(payment_hash) {
            swaps.taker@.insert(
                payment_hash,
                taker_moved(swaps.taker@[payment_hash], SwapStatus::Succeeded, now),
            )
        } else {
            swaps.taker@
        })
}

/// Records a forwarded payment, once both channels' balances moved: as the success of the taken swap
/// that it belongs to.
pub fn payment_forwarded(swaps: &mut Swaps, payment_hash: Id, now: u64)
    requires
        old(swaps).wf(),
    ensures
        final(swaps).wf(),
        is_forwarded(*old(swaps), payment_hash, now, *final(swaps)),
{
    if swaps.is_taker_swap(payment_hash) {
        swaps.update_taker_swap_status(payment_hash, SwapStatus::Succeeded, now);
    }
}

// ---------------------------------------------------------------------------------------------
// Channels that peers ask for
// ---------------------------------------------------------------------------------------------

/// What is done with a channel that a peer asks for.
#[derive(Clone, Copy, Debug, PartialEq, Eq, Structural)]
pub enum ChannelRequest {
    Accept,
    /// Accepted as a virtual channel, without confirmations.
    AcceptVirtual,
    /// Closed: the peer is not trusted with virtual channels.
    UntrustedVirtualPeer,
    /// Closed: the channel does not hide its short ID.
    UnsupportedScidAlias,
}

/// What is done with a channel that a peer asks for.
pub open spec fn channel_request(
    enable_virtual_channels: bool,
    virtual_peers: Seq<NodeId>,
    peer: NodeId,
    supports_scid_privacy: bool,
) -> ChannelRequest {
    if !enable_virtual_channels {
        ChannelRequest::Accept
    } else if virtual_peers.len() != 0 && !virtual_peers.contains(peer) {
        ChannelRequest::UntrustedVirtualPeer
    } else if !supports_scid_privacy {
        ChannelRequest::UnsupportedScidAlias
    } else {
        ChannelRequest::AcceptVirtual
    }
}

/// Decides on a channel that a peer asks for. Where virtual channels are enabled every channel is a
/// virtual one; an empty list of trusted peers trusts all of them.
pub fn open_channel_request(
    enable_virtual_channels: bool,
    virtual_peers: &Vec<NodeId>,
    peer: NodeId,
    supports_scid_privacy: bool,
) -> (r: ChannelRequest)
    ensures
        r == channel_request(
            enable_virtual_channels,
            virtual_peers@,
            peer,
            supports_scid_privacy,
        ),
{
    if !enable_virtual_channels {
        return ChannelRequest::Accept;
    }
    let mut trusted = virtual_peers.len() == 0;
    let mut i: usize = 0;
    while i < virtual_peers.len()
        invariant
            i <= virtual_peers@.len(),
            trusted == (virtual_peers@.len() == 0 || exists|j: int|
                0 <= j < i && #[trigger] virtual_peers@[j] == peer),
        decreases virtual_peers@.len() - i,
    {
        if virtual_peers[i] == peer {
            trusted = true;
            assert(virtual_peers@[i as int] == peer);
        }
        i = i + 1;
    }
    assert(trusted == (virtual_peers@.len() == 0 || virtual_peers@.contains(peer)));
    if !trusted {
        ChannelRequest::UntrustedVirtualPeer
    } else if !supports_scid_privacy {
        ChannelRequest::UnsupportedScidAlias
    } else {
        ChannelRequest::AcceptVirtual
    }
}

impl ChannelRequest {
    /// What a peer is told whose channel is closed.
    pub fn rejection(self) -> (r: Option<&'static str>)
        ensures
            match self {
                ChannelRequest::UntrustedVirtualPeer => r is Some && r->0@
                    == "untrusted_virtual_peer"@,
                ChannelRequest::UnsupportedScidAlias => r is Some && r->0@
                    == "unsupported_scid_alias"@,
                _ => r is None,
            },
    {
        match self {
            ChannelRequest::UntrustedVirtualPeer => Some("untrusted_virtual_peer"),
            ChannelRequest::UnsupportedScidAlias => Some("unsupported_scid_alias"),
            ChannelRequest::Accept | ChannelRequest::AcceptVirtual => None,
        }
    }
}

/// A payment without an invoice is claimed with the preimage that it brings. One for an invoice that
/// the node does not know is never claimed, failed or held: the event comes again.
pub proof fn law_payments_are_told_by_their_invoice(
    purpose: PaymentPurpose,
    invoice: Option<PaymentInfo>,
    amount_msat: u64,
    now: u64,
    external_signer_mode: bool,
    has_external_signer: bool,
)
    ensures
        ({
            let action = claim_action(
                purpose,
                invoice,
                amount_msat,
                now,
                external_signer_mode,
                has_external_signer,
            );
            &&& purpose matches PaymentPurpose::Spontaneous(own) ==> action == ClaimAction::Claim(own)
            &&& purpose is Invoice && invoice is None ==> action == ClaimAction::Replay
        }),
{
}

/// A payment of an invoice that comes before its expiry with at least its amount is never failed. An
/// invoice that the node claims by itself is claimed with the preimage of the event, where it brings
/// one; only an invoice of a holder that decides later is held, and such an invoice always is.
pub proof fn law_acceptable_payments_follow_the_invoice_type(
    preimage: Option<Id>,
    secret: Id,
    invoice: PaymentInfo,
    amount_msat: u64,
    now: u64,
    external_signer_mode: bool,
    has_external_signer: bool,
)
    requires
        invoice.expires_at is Some ==> now < invoice.expires_at->0,
        invoice.amt_msat is Some ==> invoice.amt_msat->0 <= amount_msat,
    ensures
        ({
            let action = claim_action(
                PaymentPurpose::Invoice { preimage, secret },
                Some(invoice),
                amount_msat,
                now,
                external_signer_mode,
                has_external_signer,
            );
            &&& action != ClaimAction::FailBackwards
            &&& action == ClaimAction::Hold <==> invoice.invoice_type == Some(
                InvoiceType::Hodl { async_payment_recipient: false },
            )
            &&& invoice.invoice_type is None || invoice.invoice_type == Some(InvoiceType::AutoClaim)
                ==> if preimage is Some {
                action == ClaimAction::Claim(preimage->0)
            } else {
                action == ClaimAction::Replay
            }
        }),
{
}

/// A payment for a sleeping recipient is claimed with the preimage that was stored with the invoice,
/// whatever the event brings. Without one it is fetched under the index that was stored, from the
/// signer of a node that signs externally, and never from anywhere else.
pub proof fn law_sleeping_recipients_claim_with_what_is_stored(
    preimage: Option<Id>,
    secret: Id,
    invoice: PaymentInfo,
    amount_msat: u64,
    now: u64,
    external_signer_mode: bool,
    has_external_signer: bool,
)
    requires
        invoice.expires_at is Some ==> now < invoice.expires_at->0,
        invoice.amt_msat is Some ==> invoice.amt_msat->0 <= amount_msat,
        invoice.invoice_type == Some(InvoiceType::Hodl { async_payment_recipient: true }),
    ensures
        ({
            let action = claim_action(
                PaymentPurpose::Invoice { preimage, secret },
                Some(invoice),
                amount_msat,
                now,
                external_signer_mode,
                has_external_signer,
            );
            &&& invoice.preimage matches Some(stored) ==> action == ClaimAction::Claim(stored)
            &&& invoice.preimage is None ==> !(action is Claim)
            &&& invoice.preimage is None ==> (action is FetchPreimage <==> external_signer_mode
                && has_external_signer && invoice.async_host_node_id is Some
                && invoice.async_hash_index is Some)
            &&& action matches ClaimAction::FetchPreimage { host_node_id, hash_index }
                ==> invoice.async_host_node_id == Some(host_node_id) && invoice.async_hash_index
                == Some(hash_index)
            &&& action is Claim || action is FetchPreimage || action is Replay
        }),
{
}

/// Whatever is claimed is claimed with a preimage that the event brought or that was stored with the
/// invoice; a payment is failed only where it is late or short.
pub proof fn law_claims_use_a_known_preimage(
    purpose: PaymentPurpose,
    invoice: Option<PaymentInfo>,
    amount_msat: u64,
    now: u64,
    external_signer_mode: bool,
    has_external_signer: bool,
)
    ensures
        ({
            let action = claim_action(
                purpose,
                invoice,
                amount_msat,
                now,
                external_signer_mode,
                has_external_signer,
            );
            &&& action matches ClaimAction::Claim(p) ==> (match purpose {
                PaymentPurpose::Spontaneous(own) => p == own,
                PaymentPurpose::Invoice { preimage, .. } => preimage == Some(p) || (invoice is Some
                    && invoice->0.preimage == Some(p)),
            })
            &&& action == ClaimAction::FailBackwards <==> purpose is Invoice && invoice is Some && ((
            invoice->0.expires_at is Some && now >= invoice->0.expires_at->0) || (
            invoice->0.amt_msat is Some && amount_msat < invoice->0.amt_msat->0))
        }),
{
}

/// A fetched preimage claims the payment only where it belongs to it; a wrong one fails the payment, and
/// a signer that cannot be reached decides nothing.
pub proof fn law_fetched_preimages_claim_or_fail(preimage: Id)
    ensures
        after_fetch(Ok(Some(preimage))) == ClaimAction::Claim(preimage),
        after_fetch(Ok(None)) == ClaimAction::FailBackwards,
        after_fetch(Err(())) == ClaimAction::Replay,
{
}

/// A claim is recorded once: after it was recorded it counts as recorded, whether it belongs to an
/// offered swap or to a payment, and nothing but that swap or that payment changes.
pub proof fn law_claims_are_recorded_once(
    swaps: Swaps,
    payments: Payments,
    payment_hash: Id,
    purpose: PaymentPurpose,
    amount_msat: u64,
    receiver_node_id: NodeId,
    now: u64,
    swaps_after: Swaps,
    payments_after: Payments,
    other: Id,
)
    requires
        is_claimed(
            swaps,
            payments,
            payment_hash,
            purpose,
            amount_msat,
            receiver_node_id,
            now,
            swaps_after,
            payments_after,
        ),
        other != payment_hash,
    ensures
        was_claimed(swaps_after, payments_after, payment_hash),
        was_claimed(swaps_after, payments_after, other) == was_claimed(swaps, payments, other),
        swaps.maker@.dom().contains(payment_hash) ==> {
            &&& payments_after == payments
            &&& swaps_after.maker@[payment_hash].status == SwapStatus::Succeeded
            &&& swaps_after.maker@[payment_hash].completed_at == Some(now)
            &&& swaps_after.maker@[payment_hash].swap_info == swaps.maker@[payment_hash].swap_info
        },
        !swaps.maker@.dom().contains(payment_hash) ==> {
            let p = payments.inbound@[payment_hash];
            let q = payments_after.inbound@[payment_hash];
            &&& swaps_after == swaps
            &&& q.status == HTLCStatus::Succeeded && q.amt_msat == Some(amount_msat) && q.updated_at
                == now
            &&& purpose matches PaymentPurpose::Spontaneous(own) ==> q.preimage == Some(own)
                && q.secret is None
            &&& purpose matches PaymentPurpose::Invoice { preimage, secret } ==> q.preimage == preimage
                && q.secret == Some(secret)
            &&& payments.inbound@.dom().contains(payment_hash) ==> q.payment_idx == p.payment_idx
                && q.created_at == p.created_at && q.claim_deadline_height == p.claim_deadline_height
                && q.invoice_type == p.invoice_type
            &&& !payments.inbound@.dom().contains(payment_hash) ==> q.payment_idx == Some(
                payments.next_payment_idx,
            ) && q.payee_pubkey == receiver_node_id
        },
        payments_after.inbound@[other] == payments.inbound@[other],
        swaps_after.maker@[other] == swaps.maker@[other],
        swaps_after.taker == swaps.taker,
        payments_after.outbound == payments.outbound,
{
}

/// Whether a claim was recorded is told by the offered swap where there is one, else by the payment.
pub proof fn law_recorded_claims_are_told_by_their_owner(
    swaps: Swaps,
    payments: Payments,
    payment_hash: Id,
)
    ensures
        swaps.maker@.dom().contains(payment_hash) ==> (was_claimed(swaps, payments, payment_hash)
            <==> swaps.maker@[payment_hash].status == SwapStatus::Succeeded),
        !swaps.maker@.dom().contains(payment_hash) && payments.inbound@.dom().contains(payment_hash)
            ==> (was_claimed(swaps, payments, payment_hash)
            <==> payments.inbound@[payment_hash].status == HTLCStatus::Succeeded),
        !swaps.maker@.dom().contains(payment_hash) && !payments.inbound@.dom().contains(payment_hash)
            ==> !was_claimed(swaps, payments, payment_hash),
{
}

/// A held payment is claimable, with the preimage, the secret and the amount of the event; it keeps the
/// deadline that it had where the event brings none. It is not claimed by that.
pub proof fn law_held_payments_stay_claimable(
    payments: Payments,
    payment_hash: Id,
    preimage: Option<Id>,
    secret: Id,
    amount_msat: u64,
    our_node_id: NodeId,
    claim_deadline: Option<u32>,
    now: u64,
    payments_after: Payments,
    other: Id,
)
    requires
        is_held(
            payments,
            payment_hash,
            preimage,
            secret,
            amount_msat,
            our_node_id,
            claim_deadline,
            now,
            payments_after,
        ),
    ensures
        ({
            let p = payments.inbound@[payment_hash];
            let q = payments_after.inbound@[payment_hash];
            let known = payments.inbound@.dom().contains(payment_hash);
            &&& payments_after.inbound@.dom().contains(payment_hash)
            &&& q.status == HTLCStatus::Claimable && q.preimage == preimage && q.secret == Some(secret)
            &&& q.amt_msat == Some(amount_msat) && q.updated_at == now
            &&& claim_deadline is Some ==> q.claim_deadline_height == claim_deadline
            &&& claim_deadline is None && known ==> q.claim_deadline_height
                == p.claim_deadline_height
            &&& known ==> q.expires_at == p.expires_at && q.invoice_type == p.invoice_type
                && q.payment_idx == p.payment_idx && q.created_at == p.created_at
            &&& !known ==> q.payment_idx == Some(payments.next_payment_idx) && q.payee_pubkey
                == our_node_id
        }),
        other != payment_hash ==> payments_after.inbound@[other] == payments.inbound@[other],
        payments_after.outbound == payments.outbound,
{
}

/// A payment that went through is recorded with its preimage, and one that failed without one: on the
/// offered swap where it belongs to one, else on the payment with its identifier, and nowhere else.
pub proof fn law_sent_payments_end_with_their_result(
    swaps: Swaps,
    payments: Payments,
    payment_hash: Id,
    payment_id: Id,
    payment_preimage: Id,
    now: u64,
    sent_swaps: Swaps,
    sent_payments: Payments,
    r: Option<PaymentInfo>,
    failed_swaps: Swaps,
    failed_payments: Payments,
    other: Id,
)
    requires
        is_sent(
            swaps,
            payments,
            payment_hash,
            payment_id,
            payment_preimage,
            now,
            sent_swaps,
            sent_payments,
            r,
        ),
        is_failed(
            swaps,
            payments,
            Some(payment_hash),
            payment_id,
            now,
            failed_swaps,
            failed_payments,
        ),
    ensures
        swaps.maker@.dom().contains(payment_hash) ==> {
            &&& r is None
            &&& sent_swaps.maker@[payment_hash].status == SwapStatus::Succeeded
            &&& failed_swaps.maker@[payment_hash].status == SwapStatus::Failed
            &&& sent_swaps.maker@[payment_hash].completed_at == Some(now)
            &&& failed_swaps.maker@[payment_hash].completed_at == Some(now)
            &&& sent_payments.outbound == payments.outbound && failed_payments.outbound
                == payments.outbound
        },
        !swaps.maker@.dom().contains(payment_hash) ==> {
            let p = payments.outbound@[payment_id];
            let s = sent_payments.outbound@[payment_id];
            let f = failed_payments.outbound@[payment_id];
            &&& sent_swaps == swaps && failed_swaps == swaps
            &&& r == Some(s)
            &&& s.status == HTLCStatus::Succeeded && s.preimage == Some(payment_preimage)
            &&& f.status == HTLCStatus::Failed && f.preimage == p.preimage
            &&& s.amt_msat == p.amt_msat && f.amt_msat == p.amt_msat
            &&& s.payment_idx == p.payment_idx && f.payment_idx == p.payment_idx
            &&& s.updated_at == now && f.updated_at == now
        },
        other != payment_id ==> sent_payments.outbound@[other] == payments.outbound@[other]
            && failed_payments.outbound@[other] == payments.outbound@[other],
        other != payment_hash ==> sent_swaps.maker@[other] == swaps.maker@[other]
            && failed_swaps.maker@[other] == swaps.maker@[other],
        sent_swaps.taker == swaps.taker && failed_swaps.taker == swaps.taker,
        sent_payments.inbound == payments.inbound && failed_payments.inbound == payments.inbound,
{
}

/// A payment without a hash never fails an offered swap.
pub proof fn law_payments_without_a_hash_fail_no_swap(
    swaps: Swaps,
    payments: Payments,
    payment_id: Id,
    now: u64,
    swaps_after: Swaps,
    payments_after: Payments,
)
    requires
        is_failed(swaps, payments, None, payment_id, now, swaps_after, payments_after),
    ensures
        swaps_after == swaps,
        payments_after.outbound@[payment_id].status == HTLCStatus::Failed,
{
}

/// A forwarded payment ends the taken swap that it belongs to well, and no other.
pub proof fn law_forwarded_payments_end_their_swap(
    swaps: Swaps,
    payment_hash: Id,
    now: u64,
    swaps_after: Swaps,
    other: Id,
)
    requires
        is_forwarded(swaps, payment_hash, now, swaps_after),
    ensures
        swaps.taker@.dom().contains(payment_hash) ==> {
            &&& swaps_after.taker@[payment_hash].status == SwapStatus::Succeeded
            &&& swaps_after.taker@[payment_hash].completed_at == Some(now)
            &&& swaps_after.taker@[payment_hash].pending_intercept_id is None
            &&& swaps_after.taker@[payment_hash].swap_info == swaps.taker@[payment_hash].swap_info
        },
        swaps_after.taker@.dom() =~= swaps.taker@.dom(),
        other != payment_hash ==> swaps_after.taker@[other] == swaps.taker@[other],
        swaps_after.maker == swaps.maker,
{
}

/// Where virtual channels are enabled a channel is only accepted from a trusted peer and only where it
/// hides its short ID; an empty list trusts everyone. Where they are not, every channel is accepted as
/// an ordinary one.
pub proof fn law_virtual_channels_need_trust(
    virtual_peers: Seq<NodeId>,
    peer: NodeId,
    supports_scid_privacy: bool,
)
    ensures
        channel_request(false, virtual_peers, peer, supports_scid_privacy)
            == ChannelRequest::Accept,
        channel_request(true, virtual_peers, peer, supports_scid_privacy)
            == ChannelRequest::AcceptVirtual <==> supports_scid_privacy && (virtual_peers.len() == 0
            || exists|i: int| 0 <= i < virtual_peers.len() && virtual_peers[i] == peer),
        channel_request(true, virtual_peers, peer, supports_scid_privacy) != ChannelRequest::Accept,
        channel_request(true, virtual_peers, peer, supports_scid_privacy)
            == ChannelRequest::UntrustedVirtualPeer <==> virtual_peers.len() > 0 && forall|i: int|
            0 <= i < virtual_peers.len() ==> virtual_peers[i] != peer,
{
}

/// A claim uses up an index exactly where it brings a payment that was not known, and each index once.
pub proof fn law_claims_use_up_an_index_for_new_payments(
    swaps: Swaps,
    payments: Payments,
    payment_hash: Id,
    purpose: PaymentPurpose,
    amount_msat: u64,
    receiver_node_id: NodeId,
    now: u64,
    swaps_after: Swaps,
    payments_after: Payments,
)
    requires
        is_claimed(
            swaps,
            payments,
            payment_hash,
            purpose,
            amount_msat,
            receiver_node_id,
            now,
            swaps_after,
            payments_after,
        ),
        payments.next_payment_idx < u64::MAX,
    ensures
        payments_after.next_payment_idx == payments.next_payment_idx + if swaps.maker@.dom().contains(
            payment_hash,
        ) || payments.inbound@.dom().contains(payment_hash) {
            0int
        } else {
            1
        },
{
}

/// Holding a payment uses up an index exactly where the payment was not known.
pub proof fn law_held_payments_use_up_an_index_when_new(
    payments: Payments,
    payment_hash: Id,
    preimage: Option<Id>,
    secret: Id,
    amount_msat: u64,
    our_node_id: NodeId,
    claim_deadline: Option<u32>,
    now: u64,
    payments_after: Payments,
)
    requires
        is_held(
            payments,
            payment_hash,
            preimage,
            secret,
            amount_msat,
            our_node_id,
            claim_deadline,
            now,
            payments_after,
        ),
        payments.next_payment_idx < u64::MAX,
    ensures
        payments_after.next_payment_idx == payments.next_payment_idx
            + if payments.inbound@.dom().contains(payment_hash) {
            0int
        } else {
            1
        },
        !payments.inbound@.dom().contains(payment_hash)
            ==> payments_after.inbound@[payment_hash].payment_idx == Some(
            payments.next_payment_idx,
        ),
        payments.inbound@.dom().contains(payment_hash)
            ==> payments_after.inbound@[payment_hash].payment_idx
            == payments.inbound@[payment_hash].payment_idx,
{
}

/// A failed payment uses up no index and touches no inbound payment and no accepted swap.
pub proof fn law_failed_payments_use_up_no_index(
    swaps: Swaps,
    payments: Payments,
    payment_hash: Option<Id>,
    payment_id: Id,
    now: u64,
    swaps_after: Swaps,
    payments_after: Payments,
)
    requires
        is_failed(
            swaps,
            payments,
            payment_hash,
            payment_id,
            now,
            swaps_after,
            payments_after,
        ),
    ensures
        payments_after.next_payment_idx == payments.next_payment_idx,
        payments_after.inbound == payments.inbound,
        swaps_after.taker == swaps.taker,
{
}

} // verus!
