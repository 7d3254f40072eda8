use rgb_lightning_node::async_order::{
    check_invoice_request, htlc_minimum, invoice_failed, invoice_payment, peer_has_virtual_channel,
    request_outbound_invoice, CheckedRequest, Derivation, InvoiceRequest, OrderChannel,
};
use rgb_lightning_node::error::APIError;
use rgb_lightning_node::payments::{
    effective_inbound_payment_status, DuplicatePayment, HTLCStatus, InboundListing, InvoiceType,
    NodeId, PaymentInfo, Payments,
};
use rgb_lightning_node::rpc::{rpc_error, RpcError, RpcErrorKind};
use rgb_lightning_node::table::{Id, Table};

fn id(n: u128) -> Id {
    Id { hi: 0, lo: n }
}

fn node(n: u128) -> NodeId {
    NodeId { parity: 2, x: id(n) }
}

fn payment(status: HTLCStatus, created_at: u64) -> PaymentInfo {
    PaymentInfo {
        preimage: None,
        secret: None,
        status,
        amt_msat: Some(1_000),
        created_at,
        updated_at: created_at,
        payee_pubkey: node(9),
        expires_at: None,
        claim_deadline_height: None,
        invoice_type: None,
        description: None,
        description_hash: None,
        payment_idx: None,
        async_hash_index: None,
        async_host_node_id: None,
    }
}

fn payments() -> Payments {
    Payments {
        inbound: Table::new(),
        outbound: Table::new(),
        next_payment_idx: 1,
    }
}

#[test]
fn inbound_payment_expiry_projection_preserves_boundary_semantics() {
    assert_eq!(
        effective_inbound_payment_status(HTLCStatus::Pending, Some(100), None, 100, 10),
        HTLCStatus::Pending
    );
    assert_eq!(
        effective_inbound_payment_status(HTLCStatus::Pending, Some(100), None, 101, 10),
        HTLCStatus::Failed
    );
    assert_eq!(
        effective_inbound_payment_status(HTLCStatus::Claimable, Some(100), None, 100, 10),
        HTLCStatus::Failed
    );
    assert_eq!(
        effective_inbound_payment_status(HTLCStatus::Claimable, None, Some(10), 99, 10),
        HTLCStatus::Failed
    );
    assert_eq!(
        effective_inbound_payment_status(HTLCStatus::Succeeded, Some(1), Some(1), 100, 100),
        HTLCStatus::Succeeded
    );
}

#[test]
fn new_payments_get_consecutive_indices() {
    let mut p = payments();
    p.add_inbound_payment(id(1), payment(HTLCStatus::Pending, 10));
    assert_eq!(
        p.add_outbound_payment(id(1), payment(HTLCStatus::Pending, 11)),
        Ok(())
    );
    assert_eq!(p.inbound.get(id(1)).unwrap().payment_idx, Some(1));
    assert_eq!(p.outbound.get(id(1)).unwrap().payment_idx, Some(2));
    assert_eq!(p.next_payment_idx, 3);
    assert_eq!(
        p.add_outbound_payment(id(1), payment(HTLCStatus::Pending, 12)),
        Err(DuplicatePayment(HTLCStatus::Pending))
    );
}

#[test]
fn expired_payments_fail_and_claimables_are_reported() {
    let mut p = payments();
    let mut pending = payment(HTLCStatus::Pending, 10);
    pending.expires_at = Some(100);
    let mut claimable = payment(HTLCStatus::Claimable, 10);
    claimable.claim_deadline_height = Some(50);
    p.add_inbound_payment(id(1), pending);
    p.add_inbound_payment(id(2), claimable);
    p.add_inbound_payment(id(3), payment(HTLCStatus::Succeeded, 10));
    assert_eq!(p.inbound_payments_at(101, 50).len(), 3);
    // while the wallet may not change, the payments are only shown as they stand
    let refused = p.list_updated_inbound_payments(Err(APIError::ChangingState), 101, 50);
    let InboundListing::Listed { payments, save } = refused else {
        panic!("unexpected {refused:?}");
    };
    assert!(!save);
    assert_eq!(
        payments.iter().map(|(_, p)| p.status).collect::<Vec<_>>(),
        vec![
            HTLCStatus::Failed,
            HTLCStatus::Failed,
            HTLCStatus::Succeeded
        ]
    );
    assert_eq!(p.inbound.get(id(1)).unwrap().status, HTLCStatus::Pending);
    assert_eq!(p.inbound.get(id(2)).unwrap().status, HTLCStatus::Claimable);

    let listing = p.list_updated_inbound_payments(Ok(()), 101, 50);
    assert!(matches!(
        listing,
        InboundListing::FailBackwards { claimables, save: true } if claimables == vec![id(2)]
    ));
    assert_eq!(p.inbound.get(id(1)).unwrap().status, HTLCStatus::Failed);
    assert_eq!(p.inbound.get(id(1)).unwrap().updated_at, 101);
    assert_eq!(p.inbound.get(id(2)).unwrap().status, HTLCStatus::Claimable);
    // a second look changes nothing
    assert!(matches!(
        p.list_updated_inbound_payments(Ok(()), 102, 50),
        InboundListing::FailBackwards { save: false, .. }
    ));
    p.fail_htlc_backwards_and_update_inbound_payment(id(2), HTLCStatus::Failed, node(9), 103);
    let listing = p.list_updated_inbound_payments(Ok(()), 104, 50);
    let InboundListing::Listed { payments, save } = listing else {
        panic!("unexpected {listing:?}");
    };
    assert!(!save);
    assert_eq!(payments[1].1.status, HTLCStatus::Failed);
    assert_eq!(payments[1].1.updated_at, 103);
    assert_eq!(p.inbound_payments().len(), 3);
}

#[test]
fn outbound_payments_that_the_library_forgot_fail() {
    let mut p = payments();
    p.add_outbound_payment(id(1), payment(HTLCStatus::Pending, 10))
        .unwrap();
    p.add_outbound_payment(id(2), payment(HTLCStatus::Pending, 10))
        .unwrap();
    assert!(p.fail_outbound_pending_payments(&vec![id(2)], 77));
    assert_eq!(p.outbound.get(id(1)).unwrap().status, HTLCStatus::Failed);
    assert_eq!(p.outbound.get(id(2)).unwrap().status, HTLCStatus::Pending);
    assert!(!p.fail_outbound_pending_payments(&vec![id(2)], 78));
}

#[test]
fn backfill_numbers_old_payments_by_age() {
    let mut p = payments();
    let mut numbered = payment(HTLCStatus::Succeeded, 5);
    numbered.payment_idx = Some(40);
    p.inbound.insert(id(7), numbered);
    p.inbound.insert(id(3), payment(HTLCStatus::Pending, 20));
    p.inbound.insert(id(1), payment(HTLCStatus::Pending, 30));
    p.outbound.insert(id(2), payment(HTLCStatus::Pending, 20));
    p.outbound.insert(id(3), payment(HTLCStatus::Pending, 20));
    assert!(p.backfill_payment_indices());
    // by time, then by identifier, inbound first
    assert_eq!(p.outbound.get(id(2)).unwrap().payment_idx, Some(41));
    assert_eq!(p.inbound.get(id(3)).unwrap().payment_idx, Some(42));
    assert_eq!(p.outbound.get(id(3)).unwrap().payment_idx, Some(43));
    assert_eq!(p.inbound.get(id(1)).unwrap().payment_idx, Some(44));
    assert_eq!(p.inbound.get(id(7)).unwrap().payment_idx, Some(40));
    assert_eq!(p.next_payment_idx, 45);
    assert!(!p.backfill_payment_indices());
    assert_eq!(p.next_payment_idx, 45);
}

#[test]
fn backfill_of_nothing_starts_at_one() {
    let mut p = payments();
    p.next_payment_idx = 0;
    assert!(!p.backfill_payment_indices());
    assert_eq!(p.next_payment_idx, 1);
}

#[test]
fn backfill_uses_the_last_indices() {
    let mut p = payments();
    let mut numbered = payment(HTLCStatus::Succeeded, 5);
    numbered.payment_idx = Some(u64::MAX - 2);
    p.inbound.insert(id(7), numbered);
    let mut other = payment(HTLCStatus::Succeeded, 6);
    other.payment_idx = Some(3);
    p.outbound.insert(id(8), other);
    p.outbound.insert(id(2), payment(HTLCStatus::Pending, 20));
    assert!(p.backfill_payment_indices());
    assert_eq!(p.outbound.get(id(2)).unwrap().payment_idx, Some(u64::MAX - 1));
    assert_eq!(p.next_payment_idx, u64::MAX);
}

fn request() -> InvoiceRequest {
    InvoiceRequest {
        hash_index: "17".to_string(),
        amount_msat: 5_000,
        asset_id: None,
        contract_id: None,
        asset_amount: None,
        description_hash: format!("  {}\n", "ab".repeat(32)),
        payment_hash: Some(id(5)),
        invoice_expiry_sec: 60,
        min_final_cltv_expiry_delta: 144,
    }
}

fn refused(change: fn(&mut InvoiceRequest), message: &str) {
    let mut r = request();
    change(&mut r);
    assert_eq!(
        check_invoice_request(&r, 3_000),
        Err(rpc_error(RpcErrorKind::InvalidParams, message))
    );
}

#[test]
fn invoice_requests_are_checked_in_order() {
    assert_eq!(
        check_invoice_request(&request(), 3_000),
        Ok(CheckedRequest {
            hash_index: 17,
            payment_hash: id(5),
        })
    );
    for bad in ["", "-1", "x", "18446744073709551616", "+"] {
        let mut r = request();
        r.hash_index = bad.to_string();
        assert_eq!(
            check_invoice_request(&r, 3_000),
            Err(rpc_error(RpcErrorKind::InvalidParams, "invalid_hash_index"))
        );
    }
    for good in ["+17", "0017"] {
        let mut r = request();
        r.hash_index = good.to_string();
        assert_eq!(check_invoice_request(&r, 0).unwrap().hash_index, 17);
    }
    refused(|r| r.amount_msat = 2_999, "amt_msat cannot be less than 3000");
    refused(|r| r.asset_amount = Some(0), "invalid_asset_amount");
    refused(
        |r| r.description_hash = " \t\u{3000}".to_string(),
        "invalid_description_hash",
    );
    refused(|r| r.asset_amount = Some(1), "incomplete_rgb_info");
    refused(
        |r| r.asset_id = Some("rgb:x".to_string()),
        "incomplete_rgb_info",
    );
    refused(
        |r| {
            r.asset_id = Some("rgb:x".to_string());
            r.asset_amount = Some(1);
        },
        "invalid_asset_id",
    );
    refused(|r| r.payment_hash = None, "async_order_invalid_payment_hash");
}

#[test]
fn virtual_channels_lower_the_minimum_of_their_peer() {
    let channel = |n, trusted_no_broadcast| OrderChannel {
        peer: node(n),
        trusted_no_broadcast,
    };
    let channels = vec![channel(1, false), channel(2, true), channel(1, true)];
    assert_eq!(htlc_minimum(&channels, node(1), 1, 3_000), 1);
    assert_eq!(htlc_minimum(&channels, node(2), 1, 3_000), 1);
    assert_eq!(htlc_minimum(&channels, node(3), 1, 3_000), 3_000);
    assert_eq!(htlc_minimum(&vec![channel(1, false)], node(1), 1, 3_000), 3_000);
    assert_eq!(htlc_minimum(&vec![], node(1), 1, 3_000), 3_000);
    assert!(peer_has_virtual_channel(&channels, node(1)));
    assert!(!peer_has_virtual_channel(&channels, node(3)));
}

fn checked() -> CheckedRequest {
    CheckedRequest {
        hash_index: 17,
        payment_hash: id(5),
    }
}

fn refusal(derivation: Derivation) -> RpcError {
    request_outbound_invoice(&payments(), &request(), checked(), derivation, 0).unwrap_err()
}

#[test]
fn invoice_hashes_have_to_be_confirmed() {
    let internal = |m| rpc_error(RpcErrorKind::InternalError, m);
    let mismatch = rpc_error(RpcErrorKind::InvoiceHashMismatch, "invoice_hash_mismatch");
    assert_eq!(
        refusal(Derivation::NoSigner),
        internal("async_order_external_signer_unavailable")
    );
    assert_eq!(
        refusal(Derivation::SignerFailed("offline".to_string())),
        internal("async_order_signer_derive_failed: offline")
    );
    assert_eq!(
        refusal(Derivation::Signer(None)),
        internal("async_order_external_signer_derived_hash_error")
    );
    assert_eq!(refusal(Derivation::Signer(Some(id(6)))), mismatch);
    assert_eq!(
        refusal(Derivation::Local {
            payment_hash: id(6),
            preimage: id(1)
        }),
        mismatch
    );
    assert_eq!(
        refusal(Derivation::LocalFailed(internal("derivation"))),
        internal("derivation")
    );
    let terms = request_outbound_invoice(
        &payments(),
        &request(),
        checked(),
        Derivation::Local {
            payment_hash: id(5),
            preimage: id(1),
        },
        0,
    )
    .unwrap();
    assert_eq!(terms.preimage, Some(id(1)));
    assert_eq!(terms.description_hash, [0xab; 32]);
    assert_eq!(terms.amount_msat, 5_000);
    assert_eq!(
        invoice_failed("no route"),
        internal("async_order_request_outbound_invoice_failed: no route")
    );
}

#[test]
fn live_invoices_are_never_replaced() {
    let attempt = |status, expires_at, now| {
        let mut p = payments();
        let mut existing = payment(status, 1);
        existing.expires_at = expires_at;
        p.add_inbound_payment(id(5), existing);
        request_outbound_invoice(
            &p,
            &request(),
            checked(),
            Derivation::Signer(Some(id(5))),
            now,
        )
    };
    let stale = rpc_error(RpcErrorKind::StaleFlow, "stale_flow");
    assert_eq!(
        attempt(HTLCStatus::Claimable, Some(1), 9).unwrap_err(),
        stale
    );
    assert_eq!(
        attempt(HTLCStatus::Succeeded, Some(1), 9).unwrap_err(),
        stale
    );
    assert_eq!(
        attempt(HTLCStatus::Pending, Some(10), 9).unwrap_err(),
        stale
    );
    assert_eq!(attempt(HTLCStatus::Pending, None, 9).unwrap_err(), stale);
    assert!(attempt(HTLCStatus::Pending, Some(9), 9).is_ok());
    assert!(attempt(HTLCStatus::Failed, None, 9).is_ok());
    assert!(attempt(HTLCStatus::Cancelled, None, 9).is_ok());

    let mut bad = request();
    bad.description_hash = "ab".repeat(31);
    assert_eq!(
        request_outbound_invoice(
            &payments(),
            &bad,
            checked(),
            Derivation::Signer(Some(id(5))),
            9
        )
        .unwrap_err(),
        rpc_error(RpcErrorKind::InvalidParams, "invalid_description_hash")
    );
}

#[test]
fn invoice_is_kept_with_its_claim_context() {
    let mut p = payments();
    let terms = request_outbound_invoice(
        &p,
        &request(),
        checked(),
        Derivation::Signer(Some(id(5))),
        100,
    )
    .unwrap();
    let info = invoice_payment(
        &terms,
        checked(),
        node(1),
        node(2),
        id(8),
        None,
        Some(id(4)),
        true,
        100,
    );
    assert_eq!(info.expires_at, Some(160));
    assert_eq!(info.async_hash_index, Some(17));
    assert_eq!(info.async_host_node_id, Some(node(1)));
    assert_eq!(
        info.invoice_type,
        Some(InvoiceType::Hodl {
            async_payment_recipient: true
        })
    );
    assert_eq!(info.preimage, None);

    let staged = p.stage_inbound_payment(info);
    assert_eq!(staged.payment_idx, Some(1));
    assert!(p.inbound.get(id(5)).is_none());
    assert_eq!(
        p.persist_staged_inbound_payment(id(5), staged.duplicate(), Err("disk".to_string())),
        Err(rpc_error(
            RpcErrorKind::InternalError,
            "async_order_request_outbound_invoice_persist_failed: disk"
        ))
    );
    assert!(p.inbound.get(id(5)).is_none());
    assert_eq!(
        p.persist_staged_inbound_payment(id(5), staged, Ok(())),
        Ok(())
    );
    assert_eq!(p.inbound.get(id(5)).unwrap().payment_idx, Some(1));
    assert_eq!(p.next_payment_idx, 2);
}
