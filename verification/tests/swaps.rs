use rgb_lightning_node::error::APIError;
use rgb_lightning_node::network::BitcoinNetwork;
use rgb_lightning_node::payment_events::{
    already_claimed, open_channel_request, payment_claimable, payment_claimed, payment_failed,
    payment_forwarded, payment_preimage_fetched, payment_sent, ChannelRequest, ClaimAction,
    PaymentPurpose,
};
use rgb_lightning_node::payments::{HTLCStatus, InvoiceType, NodeId, PaymentInfo, Payments};
use rgb_lightning_node::rpc::{rpc_error, RpcErrorKind};
use rgb_lightning_node::sender_funding::{AssetSchema, RgbInfo};
use rgb_lightning_node::sender_recovery::TransferStatus;
use rgb_lightning_node::swaps::{
    parent_contract_id, reserved_outbound_rgb_amount, AuthorizeFacts, AuthorizeParams,
    InterceptVerdict, InterceptedHtlc, LinkMetadata, SwapChannel, SwapData, SwapInfo, SwapStatus,
    Swaps,
};
use rgb_lightning_node::table::{Id, Table};
use rgb_lightning_node::virtual_channels::{
    virtual_channel_ensure_no_client_rgb, virtual_channel_ensure_no_client_value,
    virtual_channel_key, virtual_channel_synthetic_outpoint, Intent, Outpoint, TemporaryId,
    VirtualChannelSession, VirtualChannelSessionStatus, VirtualChannels,
};

fn id(n: u128) -> Id {
    Id { hi: 0, lo: n }
}

fn node(n: u128) -> NodeId {
    NodeId { parity: 2, x: id(n) }
}

fn some(s: &str) -> Option<String> {
    Some(s.to_string())
}

fn swap(from: Option<&str>, to: Option<&str>, qty_from: u64, qty_to: u64) -> SwapData {
    SwapData {
        swap_info: SwapInfo {
            qty_from,
            qty_to,
            from_asset: from.map(|s| s.to_string()),
            to_asset: to.map(|s| s.to_string()),
            expiry: 100,
        },
        status: SwapStatus::Waiting,
        initiated_at: None,
        completed_at: None,
        pending_intercept_id: None,
        authorized_peer: None,
    }
}

fn htlc() -> InterceptedHtlc {
    InterceptedHtlc {
        is_swap: true,
        payment_hash: id(1),
        intercept_id: id(50),
        inbound_amount_msat: 1_000,
        expected_outbound_amount_msat: 1_000,
        inbound_rgb_amount: Some(7),
        expected_outbound_rgb_payment: Some(("rgb:a".to_string(), 5)),
        inbound_channel: Some(SwapChannel {
            peer: node(1),
            contract_id: some("rgb:b"),
        }),
        outbound_channel: Some(SwapChannel {
            peer: node(2),
            contract_id: some("rgb:a"),
        }),
    }
}

#[test]
fn swaps_between_assets_are_forwarded_on_their_terms() {
    let mut swaps = Swaps::new();
    swaps.add_taker_swap(id(1), swap(Some("rgb:a"), Some("rgb:b"), 5, 7));
    assert!(swaps.is_taker_swap(id(1)) && !swaps.is_maker_swap(id(1)));
    assert_eq!(swaps.intercept(&htlc(), 100), InterceptVerdict::Forward);
    // the same HTLC may come again, another one may not
    assert_eq!(swaps.taker.get(id(1)).unwrap().status, SwapStatus::Pending);
    assert_eq!(swaps.intercept(&htlc(), 100), InterceptVerdict::Forward);
    let mut other = htlc();
    other.intercept_id = id(51);
    assert_eq!(
        swaps.intercept(&other, 100),
        InterceptVerdict::NotForwardable
    );
}

fn judged(change: fn(&mut InterceptedHtlc), now: u64) -> InterceptVerdict {
    let mut swaps = Swaps::new();
    let mut data = swap(Some("rgb:a"), Some("rgb:b"), 5, 7);
    data.authorized_peer = Some(node(1));
    swaps.add_taker_swap(id(1), data);
    let mut h = htlc();
    change(&mut h);
    swaps.intercept(&h, now)
}

#[test]
fn htlcs_off_the_terms_are_not_forwarded() {
    assert_eq!(judged(|_| {}, 100), InterceptVerdict::Forward);
    assert_eq!(judged(|h| h.is_swap = false, 1), InterceptVerdict::NotASwap);
    assert_eq!(
        judged(|h| h.inbound_channel = None, 1),
        InterceptVerdict::NoInboundChannel
    );
    assert_eq!(
        judged(|h| h.outbound_channel = None, 1),
        InterceptVerdict::NoOutboundChannel
    );
    assert_eq!(
        judged(|h| h.payment_hash = id(2), 1),
        InterceptVerdict::NotWhitelisted
    );
    assert_eq!(
        judged(|h| h.inbound_channel.as_mut().unwrap().peer = node(9), 1),
        InterceptVerdict::UnauthorizedPeer
    );
    assert_eq!(judged(|_| {}, 101), InterceptVerdict::Expired);
    assert_eq!(
        judged(|h| h.inbound_rgb_amount = Some(6), 1),
        InterceptVerdict::Mismatch
    );
    assert_eq!(
        judged(|h| h.inbound_amount_msat = 999, 1),
        InterceptVerdict::Mismatch
    );
    assert_eq!(
        judged(|h| h.expected_outbound_rgb_payment = None, 1),
        InterceptVerdict::Mismatch
    );
}

#[test]
fn swaps_that_are_not_forwarded_after_all_fail() {
    let mut swaps = Swaps::new();
    swaps.add_taker_swap(id(1), swap(Some("rgb:a"), Some("rgb:b"), 5, 7));
    swaps.add_taker_swap(id(2), swap(Some("rgb:a"), None, 1, 1));
    swaps.add_maker_swap(id(1), swap(Some("rgb:a"), None, 1, 1));
    assert!(!swaps.intercept(&htlc(), 90).is_rejection());
    let verdict = swaps.forward_failed(id(1), 91);
    assert_eq!(verdict, InterceptVerdict::ForwardFailed);
    assert!(verdict.is_rejection());
    let failed = swaps.taker.get(id(1)).unwrap();
    assert_eq!(failed.status, SwapStatus::Failed);
    assert_eq!(failed.initiated_at, Some(90));
    assert_eq!(failed.completed_at, Some(91));
    assert_eq!(swaps.taker.get(id(2)).unwrap().status, SwapStatus::Waiting);
    assert_eq!(swaps.maker.get(id(1)).unwrap().status, SwapStatus::Waiting);
    // the HTLC is not taken again
    assert_eq!(
        swaps.intercept(&htlc(), 92),
        InterceptVerdict::NotForwardable
    );
    assert!(InterceptVerdict::NotForwardable.is_rejection());
    assert!(InterceptVerdict::NotASwap.is_rejection());
}

#[test]
fn swaps_against_btc_move_the_difference() {
    let mut swaps = Swaps::new();
    swaps.add_taker_swap(id(1), swap(None, Some("rgb:b"), 300, 7));
    let mut h = htlc();
    h.expected_outbound_amount_msat = 1_300;
    h.expected_outbound_rgb_payment = None;
    assert_eq!(swaps.intercept(&h, 1), InterceptVerdict::Forward);

    let mut swaps = Swaps::new();
    swaps.add_taker_swap(id(1), swap(Some("rgb:a"), None, 5, 400));
    let mut h = htlc();
    h.inbound_amount_msat = 1_400;
    assert_eq!(swaps.intercept(&h, 1), InterceptVerdict::Forward);
    h.inbound_amount_msat = 900;
    let mut swaps = Swaps::new();
    swaps.add_taker_swap(id(1), swap(Some("rgb:a"), None, 5, 400));
    assert_eq!(swaps.intercept(&h, 1), InterceptVerdict::Mismatch);
}

fn params() -> AuthorizeParams {
    AuthorizeParams {
        payment_hash: Some(id(1)),
        asset_id: "rgb:a".to_string(),
        linked_asset_id: "rgb:b".to_string(),
        asset_contract_id: some("rgb:a"),
        linked_contract_id: some("rgb:b"),
        amount: 10,
        expiry_sec: 60,
    }
}

fn link(schema: AssetSchema, to: Option<&str>, from: Option<&str>) -> Option<LinkMetadata> {
    Some(LinkMetadata {
        asset_schema: schema,
        linked_to_asset_id: to.map(|s| s.to_string()),
        linked_from_asset_id: from.map(|s| s.to_string()),
    })
}

fn facts() -> AuthorizeFacts {
    AuthorizeFacts {
        state_available: true,
        asset_metadata: link(AssetSchema::Ifa, Some("rgb:b"), None),
        linked_asset_metadata: link(AssetSchema::Ifa, None, Some("rgb:a")),
        link_transfer: Some(Some(TransferStatus::Settled)),
        max_balance: 25,
        now: 1_000,
        pending_timeout: 50,
        max_expiry: 40,
    }
}

#[test]
fn authorized_swaps_reserve_liquidity() {
    let mut swaps = Swaps::new();
    assert_eq!(swaps.authorize_swap(node(3), &params(), &facts()), Ok(()));
    let data = swaps.taker.get(id(1)).unwrap();
    assert_eq!((data.swap_info.qty_from, data.swap_info.qty_to), (10, 10));
    assert_eq!(data.swap_info.expiry, 1_040);
    assert_eq!(data.authorized_peer, Some(node(3)));
    assert_eq!(
        reserved_outbound_rgb_amount(&swaps.taker, "rgb:a", 1_000, 50),
        10
    );
    assert_eq!(
        reserved_outbound_rgb_amount(&swaps.taker, "rgb:b", 1_000, 50),
        0
    );
    assert_eq!(
        swaps.authorize_swap(node(3), &params(), &facts()),
        Err(rpc_error(
            RpcErrorKind::DuplicatePaymentHash,
            "duplicate_payment_hash"
        ))
    );
    let mut second = params();
    second.payment_hash = Some(id(2));
    second.amount = 16;
    assert_eq!(
        swaps.authorize_swap(node(3), &second, &facts()),
        Err(rpc_error(
            RpcErrorKind::InsufficientLiquidity,
            "insufficient_liquidity"
        ))
    );
    second.amount = 15;
    assert_eq!(swaps.authorize_swap(node(3), &second, &facts()), Ok(()));
    let error = swaps.revoke_authorization(id(2), "disk full");
    assert_eq!(error.kind, RpcErrorKind::InternalError);
    assert!(error.message.contains("disk full"));
    assert!(!swaps.is_taker_swap(id(2)));
}

fn refused(change_params: fn(&mut AuthorizeParams), change_facts: fn(&mut AuthorizeFacts)) -> String {
    let mut swaps = Swaps::new();
    let mut p = params();
    let mut f = facts();
    change_params(&mut p);
    change_facts(&mut f);
    swaps.authorize_swap(node(3), &p, &f).unwrap_err().message
}

#[test]
fn authorizations_are_refused_in_order() {
    assert_eq!(
        refused(|p| p.payment_hash = None, |_| {}),
        "invalid_payment_hash"
    );
    assert_eq!(
        refused(|p| p.asset_contract_id = None, |_| {}),
        "invalid_asset_id"
    );
    assert_eq!(
        refused(|p| p.linked_contract_id = None, |_| {}),
        "invalid_linked_asset_id"
    );
    assert_eq!(refused(|p| p.amount = 0, |_| {}), "invalid_amount");
    assert_eq!(refused(|p| p.expiry_sec = 0, |_| {}), "invalid_expiry_sec");
    assert_eq!(
        refused(|_| {}, |f| f.state_available = false),
        "asset_link_state_unavailable"
    );
    assert_eq!(refused(|_| {}, |f| f.asset_metadata = None), "unknown_link");
    assert_eq!(
        refused(
            |_| {},
            |f| f.asset_metadata = link(AssetSchema::Nia, Some("rgb:b"), None)
        ),
        "unknown_link"
    );
    assert_eq!(
        refused(
            |_| {},
            |f| f.link_transfer = Some(Some(TransferStatus::WaitingConfirmations))
        ),
        "unknown_link"
    );
    assert_eq!(
        parent_contract_id(
            &params(),
            &facts().asset_metadata.unwrap(),
            &facts().linked_asset_metadata.unwrap()
        ),
        some("rgb:a")
    );
    assert_eq!(
        parent_contract_id(
            &params(),
            &link(AssetSchema::Ifa, None, Some("rgb:b")).unwrap(),
            &link(AssetSchema::Ifa, Some("rgb:a"), None).unwrap()
        ),
        some("rgb:b")
    );
}

// ---------------------------------------------------------------------------------------------
// Payments
// ---------------------------------------------------------------------------------------------

fn invoice(invoice_type: Option<InvoiceType>) -> PaymentInfo {
    PaymentInfo {
        preimage: None,
        secret: None,
        status: HTLCStatus::Pending,
        amt_msat: Some(1_000),
        created_at: 1,
        updated_at: 1,
        payee_pubkey: node(9),
        expires_at: Some(100),
        claim_deadline_height: None,
        invoice_type,
        description: None,
        description_hash: None,
        payment_idx: None,
        async_hash_index: None,
        async_host_node_id: None,
    }
}

fn paid(preimage: Option<Id>) -> PaymentPurpose {
    PaymentPurpose::Invoice {
        preimage,
        secret: id(70),
    }
}

#[test]
fn claimable_payments_follow_their_invoice() {
    let auto = invoice(None);
    let act = |purpose, invoice: Option<&PaymentInfo>, amount, now| {
        payment_claimable(purpose, invoice, amount, now, false, false)
    };
    assert_eq!(
        act(PaymentPurpose::Spontaneous(id(4)), None, 1, 1),
        ClaimAction::Claim(id(4))
    );
    assert_eq!(act(paid(Some(id(4))), None, 1, 1), ClaimAction::Replay);
    assert_eq!(
        act(paid(Some(id(4))), Some(&auto), 1_000, 99),
        ClaimAction::Claim(id(4))
    );
    assert_eq!(act(paid(None), Some(&auto), 1_000, 99), ClaimAction::Replay);
    // late or short
    assert_eq!(
        act(paid(Some(id(4))), Some(&auto), 1_000, 100),
        ClaimAction::FailBackwards
    );
    assert_eq!(
        act(paid(Some(id(4))), Some(&auto), 999, 99),
        ClaimAction::FailBackwards
    );
    let held = invoice(Some(InvoiceType::Hodl {
        async_payment_recipient: false,
    }));
    assert_eq!(act(paid(None), Some(&held), 1_000, 99), ClaimAction::Hold);
}

#[test]
fn sleeping_recipients_claim_with_their_own_preimage() {
    let mut own = invoice(Some(InvoiceType::Hodl {
        async_payment_recipient: true,
    }));
    own.preimage = Some(id(6));
    assert_eq!(
        payment_claimable(paid(None), Some(&own), 1_000, 9, false, false),
        ClaimAction::Claim(id(6))
    );
    own.preimage = None;
    own.async_host_node_id = Some(node(5));
    own.async_hash_index = Some(3);
    assert_eq!(
        payment_claimable(paid(None), Some(&own), 1_000, 9, true, true),
        ClaimAction::FetchPreimage {
            host_node_id: node(5),
            hash_index: 3,
        }
    );
    assert_eq!(
        payment_claimable(paid(None), Some(&own), 1_000, 9, true, false),
        ClaimAction::Replay
    );
    assert_eq!(
        payment_preimage_fetched(Ok(Some(id(6)))),
        ClaimAction::Claim(id(6))
    );
    assert_eq!(
        payment_preimage_fetched(Ok(None)),
        ClaimAction::FailBackwards
    );
    assert_eq!(payment_preimage_fetched(Err(())), ClaimAction::Replay);
}

#[test]
fn settled_payments_are_recorded_once() {
    let mut swaps = Swaps::new();
    let mut payments = Payments {
        inbound: Table::new(),
        outbound: Table::new(),
        next_payment_idx: 1,
    };
    assert!(!already_claimed(&swaps, &payments, id(1)));
    payment_claimed(
        &mut swaps,
        &mut payments,
        id(1),
        paid(Some(id(4))),
        500,
        node(9),
        30,
    );
    assert!(already_claimed(&swaps, &payments, id(1)));
    assert_eq!(
        payments.inbound.get(id(1)).unwrap().status,
        HTLCStatus::Succeeded
    );

    payments.add_outbound_payment(id(2), invoice(None)).unwrap();
    let sent = payment_sent(&mut swaps, &mut payments, id(3), id(2), id(8), 40).unwrap();
    assert_eq!(sent.status, HTLCStatus::Succeeded);
    assert_eq!(sent.preimage, Some(id(8)));

    payments.add_outbound_payment(id(5), invoice(None)).unwrap();
    payment_failed(&mut swaps, &mut payments, None, id(5), 50);
    assert_eq!(
        payments.outbound.get(id(5)).unwrap().status,
        HTLCStatus::Failed
    );

    swaps.add_maker_swap(id(6), swap(None, Some("rgb:b"), 1, 1));
    payment_failed(&mut swaps, &mut payments, Some(id(6)), id(5), 60);
    assert_eq!(swaps.maker.get(id(6)).unwrap().status, SwapStatus::Failed);
    swaps.add_taker_swap(id(7), swap(None, Some("rgb:b"), 1, 1));
    payment_forwarded(&mut swaps, id(7), 70);
    let taken = swaps.taker.get(id(7)).unwrap();
    assert_eq!(taken.status, SwapStatus::Succeeded);
    assert_eq!(taken.completed_at, Some(70));
}

#[test]
fn channel_requests_are_judged_by_the_virtual_policy() {
    let trusted = vec![node(1)];
    assert_eq!(
        open_channel_request(false, &trusted, node(2), false),
        ChannelRequest::Accept
    );
    assert_eq!(
        open_channel_request(true, &trusted, node(2), true),
        ChannelRequest::UntrustedVirtualPeer
    );
    assert_eq!(
        open_channel_request(true, &trusted, node(1), false),
        ChannelRequest::UnsupportedScidAlias
    );
    assert_eq!(
        open_channel_request(true, &trusted, node(1), true),
        ChannelRequest::AcceptVirtual
    );
    assert_eq!(
        open_channel_request(true, &vec![], node(2), true),
        ChannelRequest::AcceptVirtual
    );
    assert_eq!(
        ChannelRequest::UntrustedVirtualPeer.rejection(),
        Some("untrusted_virtual_peer")
    );
    assert_eq!(
        ChannelRequest::UnsupportedScidAlias.rejection(),
        Some("unsupported_scid_alias")
    );
    assert_eq!(ChannelRequest::Accept.rejection(), None);
}

// ---------------------------------------------------------------------------------------------
// Virtual channels
// ---------------------------------------------------------------------------------------------

fn channels() -> VirtualChannels {
    VirtualChannels {
        drafts: Table::new(),
        sessions: Table::new(),
        channel_ids: Table::new(),
    }
}

fn session(channel: u128, peer: u128) -> VirtualChannelSession {
    VirtualChannelSession {
        channel_id: id(channel),
        created_at: 1,
        former_temporary_channel_id: id(90),
        peer_id: node(peer),
        status: VirtualChannelSessionStatus::Active,
        virtual_funding_txo: Outpoint {
            txid: id(500 + channel),
            index: 0,
        },
        updated_at: 1,
    }
}

#[test]
fn both_peers_compute_the_same_outpoint() {
    let a = [2u8; 33];
    let b = [3u8; 33];
    let network = BitcoinNetwork::Regtest;
    let (txid, index) = virtual_channel_synthetic_outpoint(network, &a, &b);
    assert_eq!(index, 0);
    assert_eq!(
        virtual_channel_synthetic_outpoint(network, &b, &a).0,
        txid
    );
    let mut preimage = b"rln_virtual_channels_v0regtest".to_vec();
    preimage.extend_from_slice(&a);
    preimage.extend_from_slice(&b);
    let hash: bitcoin::hashes::sha256::Hash = bitcoin::hashes::Hash::hash(&preimage);
    assert_eq!(txid, bitcoin::hashes::Hash::to_byte_array(hash));
    assert_ne!(
        virtual_channel_synthetic_outpoint(BitcoinNetwork::Mainnet, &a, &b).0,
        txid
    );
}

#[test]
fn peers_get_one_virtual_channel() {
    let mut c = channels();
    assert!(matches!(
        c.virtual_channel_add_intent(node(1), TemporaryId::Drawn(id(10)), 5),
        Ok(Intent::Added(t)) if t == id(10)
    ));
    assert!(c
        .virtual_channel_add_intent(node(1), TemporaryId::Drawn(id(11)), 5)
        .is_err());
    assert!(matches!(
        c.virtual_channel_add_intent(node(2), TemporaryId::Requested(id(10)), 5),
        Err(APIError::TemporaryChannelIdAlreadyUsed)
    ));
    assert!(matches!(
        c.virtual_channel_add_intent(node(2), TemporaryId::Drawn(id(10)), 5),
        Ok(Intent::DrawAgain)
    ));
    assert_eq!(
        c.virtual_channel_draft_get(id(10)).unwrap().peer_id,
        node(1)
    );
    c.virtual_channel_draft_delete(id(10));
    assert!(c.virtual_channel_draft_get(id(10)).is_none());
}

#[test]
fn completed_drafts_become_sessions() {
    let mut c = channels();
    c.virtual_channel_add_intent(node(1), TemporaryId::Drawn(id(10)), 5)
        .unwrap();
    let txo = session(2, 1).virtual_funding_txo;
    assert_eq!(c.virtual_channel_complete(id(11), id(2), txo, 8), None);
    assert!(c.virtual_channel_session_get(id(2)).is_none());
    let expected = VirtualChannelSession {
        channel_id: id(2),
        created_at: 5,
        former_temporary_channel_id: id(10),
        peer_id: node(1),
        status: VirtualChannelSessionStatus::Active,
        virtual_funding_txo: txo,
        updated_at: 8,
    };
    assert_eq!(
        c.virtual_channel_complete(id(10), id(2), txo, 8),
        Some(expected)
    );
    assert_eq!(c.virtual_channel_session_get(id(2)), Some(expected));
    assert!(c.virtual_channel_draft_get(id(10)).is_none());
}

#[test]
fn sessions_are_found_by_outpoint_and_closed_with_their_draft() {
    let mut c = channels();
    c.virtual_channel_session_add(session(1, 1));
    assert!(c.contains_virtual_funding_txo(session(1, 1).virtual_funding_txo));
    assert!(!c.contains_virtual_funding_txo(session(2, 1).virtual_funding_txo));
    let found = c.virtual_channel_session_get(id(1)).unwrap();
    c.virtual_channel_session_update_status(
        &found,
        VirtualChannelSessionStatus::AbandonPending,
        9,
    );
    let updated = c.virtual_channel_session_get(id(1)).unwrap();
    assert_eq!(updated.status, VirtualChannelSessionStatus::AbandonPending);
    assert_eq!(updated.updated_at, 9);

    c.virtual_channel_add_intent(node(2), TemporaryId::Drawn(id(10)), 5)
        .unwrap();
    c.add_channel_id(id(10), id(20));
    assert_eq!(c.channel_closed(id(20)), Some(id(10)));
    assert!(c.virtual_channel_draft_get(id(10)).is_none());
    assert_eq!(c.delete_channel_id(id(20)), None);
    assert_eq!(virtual_channel_key("ab"), "virtual_channel_ab");
}

#[test]
fn cleanup_is_blocked_while_the_peer_has_value() {
    let none = || Some(vec![]);
    let check = |htlcs, inbound, outbound, floor| {
        virtual_channel_ensure_no_client_value(htlcs, "chan", &inbound, &outbound, floor)
    };
    assert_eq!(check(false, none(), none(), Some(0)), Ok(()));
    assert_eq!(
        check(true, none(), none(), Some(0)),
        Err("virtual cleanup is blocked while HTLCs are still in flight".to_string())
    );
    assert_eq!(
        check(false, None, none(), Some(0)),
        Err("virtual cleanup could not inspect RGB temp artifacts".to_string())
    );
    assert_eq!(
        check(false, none(), Some(vec!["chanxx_pending".to_string()]), Some(0)),
        Err("virtual cleanup is blocked while RGB payment temp artifacts remain".to_string())
    );
    assert_eq!(
        check(false, Some(vec!["otherxx_pending".to_string()]), none(), Some(7)),
        Err("virtual cleanup is blocked while counterparty BTC balance floor is 7 sat".to_string())
    );
    assert_eq!(
        check(false, none(), none(), None),
        Err("virtual cleanup requires an exact counterparty BTC balance floor proof".to_string())
    );
    let info = |remote| {
        Some(RgbInfo {
            contract_id: "rgb:a".to_string(),
            schema: AssetSchema::Nia,
            local_rgb_amount: 5,
            remote_rgb_amount: remote,
            batch_transfer_idx: None,
            counterparty_knows_asset: true,
        })
    };
    assert_eq!(virtual_channel_ensure_no_client_rgb(&None, &None), Ok(()));
    assert_eq!(
        virtual_channel_ensure_no_client_rgb(&info(0), &info(0)),
        Ok(())
    );
    assert_eq!(
        virtual_channel_ensure_no_client_rgb(&info(3), &info(3)),
        Err("virtual cleanup is blocked while counterparty RGB balance is 3".to_string())
    );
    assert_eq!(
        virtual_channel_ensure_no_client_rgb(&info(0), &info(3)),
        Err("virtual cleanup is blocked while RGB channel state is still diverged".to_string())
    );
    assert_eq!(
        virtual_channel_ensure_no_client_rgb(&info(0), &None),
        Err("virtual cleanup requires both final and pending RGB channel state".to_string())
    );
}
