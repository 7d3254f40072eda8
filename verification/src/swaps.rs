//! Atomic swaps: the swaps that the node offers and takes, what they reserve, and which intercepted
//! HTLCs may go on.

use vstd::pervasive::unreached;
use vstd::prelude::*;
use vstd::string::*;

use crate::payments::NodeId;
use crate::rpc::{is_rpc, rpc_error, RpcError, RpcErrorKind};
use crate::sender_funding::AssetSchema;
use crate::sender_recovery::TransferStatus;
use crate::table::{Id, Table};
use crate::text::{copy_opt, join2, opt_is, same};

verus! {

#[derive(Clone, Copy, Debug, PartialEq, Eq, Structural)]
pub enum SwapStatus {
    Waiting,
    Pending,
    Succeeded,
    Expired,
    Failed,
}

/// The terms of a swap. An asset that is not there is BTC.
#[derive(Clone, Debug, PartialEq, Eq)]
pub struct SwapInfo {
    pub qty_from: u64,
    pub qty_to: u64,
    pub from_asset: Option<String>,
    pub to_asset: Option<String>,
    pub expiry: u64,
}

/// A swap.
#[derive(Clone, Debug, PartialEq, Eq)]
pub struct SwapData {
    pub swap_info: SwapInfo,
    pub status: SwapStatus,
    pub initiated_at: Option<u64>,
    pub completed_at: Option<u64>,
    pub pending_intercept_id: Option<Id>,
    pub authorized_peer: Option<NodeId>,
}

impl SwapInfo {
    pub fn duplicate(&self) -> (r: Self)
        ensures
            r == *self,
    {
        SwapInfo {
            qty_from: self.qty_from,
            qty_to: self.qty_to,
            from_asset: copy_opt(&self.from_asset),
            to_asset: copy_opt(&self.to_asset),
            expiry: self.expiry,
        }
    }
}

impl SwapData {
    pub fn duplicate(&self) -> (r: Self)
        ensures
            r == *self,
    {
        SwapData {
            swap_info: self.swap_info.duplicate(),
            status: self.status,
            initiated_at: self.initiated_at,
            completed_at: self.completed_at,
            pending_intercept_id: self.pending_intercept_id,
            authorized_peer: self.authorized_peer,
        }
    }
}

/// The swaps of a node.
#[derive(Debug)]
pub struct Swaps {
    pub maker: Table<SwapData>,
    pub taker: Table<SwapData>,
}

/// Whether a status ends a swap.
pub open spec fn is_final(status: SwapStatus) -> bool {
    status is Succeeded || status is Failed || status is Expired
}

/// A swap with a new status: an end or a start is dated.
pub open spec fn maker_moved(swap: SwapData, status: SwapStatus, now: u64) -> SwapData {
    if is_final(status) {
        SwapData { status, completed_at: Some(now), ..swap }
    } else {
        SwapData { status, initiated_at: Some(now), ..swap }
    }
}

/// The same for a taken swap, which forgets its HTLC at its end.
pub open spec fn taker_moved(swap: SwapData, status: SwapStatus, now: u64) -> SwapData {
    if is_final(status) {
        SwapData { status, completed_at: Some(now), pending_intercept_id: None, ..swap }
    } else {
        SwapData { status, initiated_at: Some(now), ..swap }
    }
}

impl Swaps {
    pub open spec fn wf(self) -> bool {
        self.maker.wf() && self.taker.wf()
    }

    pub fn new() -> (r: Self)
        ensures
            r.wf(),
            r.maker@ == Map::<Id, SwapData>::empty(),
            r.taker@ == Map::<Id, SwapData>::empty(),
    {
        Swaps { maker: Table::new(), taker: Table::new() }
    }

    /// Adds an offered swap.
    pub fn add_maker_swap(&mut self, payment_hash: Id, swap: SwapData)
        requires
            old(self).wf(),
        ensures
            final(self).wf(),
            final(self).maker@ == old(self).maker@.insert(payment_hash, swap),
            final(self).taker == old(self).taker,
    {
        self.maker.insert(payment_hash, swap);
    }

    /// Moves an offered swap to another status. No swap goes back to waiting.
    pub fn update_maker_swap_status(&mut self, payment_hash: Id, status: SwapStatus, now: u64)
        requires
            old(self).wf(),
            old(self).maker@.dom().contains(payment_hash),
            !(status is Waiting),
        ensures
            final(self).wf(),
            final(self).maker@ == old(self).maker@.insert(
                payment_hash,
                maker_moved(old(self).maker@[payment_hash], status, now),
            ),
            final(self).taker == old(self).taker,
    {
        let mut swap = match self.maker.get(payment_hash) {
            Some(s) => s.duplicate(),
            None => unreached(),
        };
        match status {
            SwapStatus::Succeeded | SwapStatus::Failed | SwapStatus::Expired => {
                swap.completed_at = Some(now);
            },
            SwapStatus::Pending | SwapStatus::Waiting => {
                swap.initiated_at = Some(now);
            },
        }
        swap.status = status;
        self.maker.insert(payment_hash, swap);
    }

    /// Whether a payment belongs to an offered swap.
    pub fn is_maker_swap(&self, payment_hash: Id) -> (r: bool)
        requires
            self.wf(),
        ensures
            r == self.maker@.dom().contains(payment_hash),
    {
        self.maker.contains(payment_hash)
    }

    /// Adds a taken swap.
    pub fn add_taker_swap(&mut self, payment_hash: Id, swap: SwapData)
        requires
            old(self).wf(),
        ensures
            final(self).wf(),
            final(self).taker@ == old(self).taker@.insert(payment_hash, swap),
            final(self).maker == old(self).maker,
    {
        self.taker.insert(payment_hash, swap);
    }

    /// Records the HTLC that a taken swap goes on with.
    pub fn update_taker_swap_pending_intercept(
        &mut self,
        payment_hash: Id,
        intercept_id: Id,
        now: u64,
    )
        requires
            old(self).wf(),
            old(self).taker@.dom().contains(payment_hash),
        ensures
            final(self).wf(),
            final(self).taker@ == old(self).taker@.insert(
                payment_hash,
                SwapData {
                    status: SwapStatus::Pending,
                    initiated_at: Some(now),
                    pending_intercept_id: Some(intercept_id),
                    ..old(self).taker@[payment_hash]
                },
            ),
            final(self).maker == old(self).maker,
    {
        let mut swap = match self.taker.get(payment_hash) {
            Some(s) => s.duplicate(),
            None => unreached(),
        };
        swap.status = SwapStatus::Pending;
        swap.initiated_at = Some(now);
        swap.pending_intercept_id = Some(intercept_id);
        self.taker.insert(payment_hash, swap);
    }

    /// Moves a taken swap to another status. No swap goes back to waiting.
    pub fn update_taker_swap_status(&mut self, payment_hash: Id, status: SwapStatus, now: u64)
        requires
            old(self).wf(),
            old(self).taker@.dom().contains(payment_hash),
            !(status is Waiting),
        ensures
            final(self).wf(),
            final(self).taker@ == old(self).taker@.insert(
                payment_hash,
                taker_moved(old(self).taker@[payment_hash], status, now),
            ),
            final(self).maker == old(self).maker,
    {
        let mut swap = match self.taker.get(payment_hash) {
            Some(s) => s.duplicate(),
            None => unreached(),
        };
        match status {
            SwapStatus::Succeeded | SwapStatus::Failed | SwapStatus::Expired => {
                swap.completed_at = Some(now);
                swap.pending_intercept_id = None;
            },
            SwapStatus::Pending | SwapStatus::Waiting => {
                swap.initiated_at = Some(now);
            },
        }
        swap.status = status;
        self.taker.insert(payment_hash, swap);
    }

    /// Whether a payment belongs to a taken swap.
    pub fn is_taker_swap(&self, payment_hash: Id) -> (r: bool)
        requires
            self.wf(),
        ensures
            r == self.taker@.dom().contains(payment_hash),
    {
        self.taker.contains(payment_hash)
    }
}

// ---------------------------------------------------------------------------------------------
// Reservations
// ---------------------------------------------------------------------------------------------

/// Whether a swap still holds some of an asset back: one that waits until it expires, one that is
/// under way until it times out.
pub open spec fn reserves(swap: SwapData, asset: Seq<char>, now: u64, pending_timeout: u64) -> bool {
    &&& swap.swap_info.from_asset matches Some(a) && a@ == asset
    &&& match swap.status {
        SwapStatus::Waiting => now <= swap.swap_info.expiry,
        SwapStatus::Pending => match swap.initiated_at {
            Some(initiated_at) => now <= initiated_at + pending_timeout || initiated_at
                + pending_timeout > u64::MAX,
            None => true,
        },
        _ => false,
    }
}

/// What swaps hold back of an asset, together.
pub open spec fn reserved_total(
    swaps: Seq<(Id, SwapData)>,
    asset: Seq<char>,
    now: u64,
    pending_timeout: u64,
) -> nat
    decreases swaps.len(),
{
    if swaps.len() == 0 {
        0
    } else {
        reserved_total(swaps.drop_last(), asset, now, pending_timeout) + if reserves(
            swaps.last().1,
            asset,
            now,
            pending_timeout,
        ) {
            swaps.last().1.swap_info.qty_from as nat
        } else {
            0
        }
    }
}

/// An amount, or the largest one that can be written.
pub open spec fn capped(n: nat) -> u64 {
    if n <= u64::MAX {
        n as u64
    } else {
        u64::MAX
    }
}

fn plus(a: u64, b: u64) -> (r: u64)
    ensures
        r == capped((a + b) as nat),
{
    if b <= u64::MAX - a {
        a + b
    } else {
        u64::MAX
    }
}

fn holds_back(swap: &SwapData, asset: &str, now: u64, pending_timeout: u64) -> (r: bool)
    ensures
        r == reserves(*swap, asset@, now, pending_timeout),
{
    if !opt_is(&swap.swap_info.from_asset, asset) {
        return false;
    }
    match swap.status {
        SwapStatus::Waiting => now <= swap.swap_info.expiry,
        SwapStatus::Pending => match swap.initiated_at {
            Some(initiated_at) => now <= plus(initiated_at, pending_timeout),
            None => true,
        },
        SwapStatus::Succeeded | SwapStatus::Expired | SwapStatus::Failed => false,
    }
}

/// What taken swaps hold back of an asset, capped at the largest amount.
pub fn reserved_outbound_rgb_amount(
    taker_swaps: &Table<SwapData>,
    outbound_contract_id: &str,
    current_time: u64,
    pending_timeout: u64,
) -> (r: u64)
    ensures
        r == capped(
            reserved_total(
                taker_swaps.slots@,
                outbound_contract_id@,
                current_time,
                pending_timeout,
            ),
        ),
{
    let mut reserved: u64 = 0;
    let mut i: usize = 0;
    while i < taker_swaps.slots.len()
        invariant
            i <= taker_swaps.slots@.len(),
            reserved == capped(
                reserved_total(
                    taker_swaps.slots@.take(i as int),
                    outbound_contract_id@,
                    current_time,
                    pending_timeout,
                ),
            ),
        decreases taker_swaps.slots@.len() - i,
    {
        assert(taker_swaps.slots@.take(i + 1).drop_last() =~= taker_swaps.slots@.take(i as int));
        if holds_back(
            &taker_swaps.slots[i].1,
            outbound_contract_id,
            current_time,
            pending_timeout,
        ) {
            reserved = plus(reserved, taker_swaps.slots[i].1.swap_info.qty_from);
        }
        i = i + 1;
    }
    assert(taker_swaps.slots@.take(i as int) =~= taker_swaps.slots@);
    reserved
}

// ---------------------------------------------------------------------------------------------
// Authorization
// ---------------------------------------------------------------------------------------------

/// A peer's request to swap an asset for the one that it is linked to, one for one.
#[derive(Debug)]
pub struct AuthorizeParams {
    /// The payment hash, where it can be parsed.
    pub payment_hash: Option<Id>,
    pub asset_id: String,
    pub linked_asset_id: String,
    /// The canonical form of the asset's ID, where it can be parsed.
    pub asset_contract_id: Option<String>,
    /// The canonical form of the linked asset's ID, where it can be parsed.
    pub linked_contract_id: Option<String>,
    pub amount: u64,
    pub expiry_sec: u64,
}

/// What the wallet knows of an asset's links.
#[derive(Debug)]
pub struct LinkMetadata {
    pub asset_schema: AssetSchema,
    pub linked_to_asset_id: Option<String>,
    pub linked_from_asset_id: Option<String>,
}

/// What the node found out about a request.
#[derive(Debug)]
pub struct AuthorizeFacts {
    /// Whether the node is still unlocked.
    pub state_available: bool,
    pub asset_metadata: Option<LinkMetadata>,
    pub linked_asset_metadata: Option<LinkMetadata>,
    /// The status of the transfer that made the link; nothing in place of it where the wallet
    /// failed.
    pub link_transfer: Option<Option<TransferStatus>>,
    /// The most that a channel of the node can send of the asset.
    pub max_balance: u64,
    pub now: u64,
    /// How long a swap may be under way.
    pub pending_timeout: u64,
    /// How long an authorization lasts at most.
    pub max_expiry: u64,
}

/// What is wrong with the parameters of a request, if anything.
pub open spec fn params_error(params: AuthorizeParams) -> Option<Seq<char>> {
    if params.payment_hash is None {
        Some("invalid_payment_hash"@)
    } else if params.asset_contract_id is None {
        Some("invalid_asset_id"@)
    } else if params.linked_contract_id is None {
        Some("invalid_linked_asset_id"@)
    } else if params.amount == 0 {
        Some("invalid_amount"@)
    } else if params.expiry_sec == 0 {
        Some("invalid_expiry_sec"@)
    } else {
        None
    }
}

pub open spec fn text_is(a: Option<String>, b: Seq<char>) -> bool {
    a matches Some(s) && s@ == b
}

/// Whether an asset was linked to another, as both sides say.
pub open spec fn is_parent(
    parent: LinkMetadata,
    parent_id: Seq<char>,
    child: LinkMetadata,
    child_id: Seq<char>,
) -> bool {
    text_is(parent.linked_to_asset_id, child_id) && text_is(child.linked_from_asset_id, parent_id)
}

/// The canonical ID of the asset that the link starts from.
pub open spec fn link_parent(
    params: AuthorizeParams,
    asset: LinkMetadata,
    linked: LinkMetadata,
) -> Option<String> {
    if is_parent(asset, params.asset_id@, linked, params.linked_asset_id@) {
        params.asset_contract_id
    } else if is_parent(linked, params.linked_asset_id@, asset, params.asset_id@) {
        params.linked_contract_id
    } else {
        None
    }
}

/// Whether two assets are linked, and may be swapped.
pub open spec fn link_is_good(params: AuthorizeParams, facts: AuthorizeFacts) -> bool {
    &&& link_parent(params, facts.asset_metadata->0, facts.linked_asset_metadata->0) is Some
    &&& facts.asset_metadata->0.asset_schema == AssetSchema::Ifa
    &&& facts.linked_asset_metadata->0.asset_schema == AssetSchema::Ifa
    &&& facts.link_transfer == Some(Some(TransferStatus::Settled))
}

/// Why a request is refused, if it is.
pub open spec fn refusal(
    swaps: Swaps,
    params: AuthorizeParams,
    facts: AuthorizeFacts,
) -> Option<(RpcErrorKind, Seq<char>)> {
    if params_error(params) is Some {
        Some((RpcErrorKind::InvalidParams, params_error(params)->0))
    } else if !facts.state_available {
        Some((RpcErrorKind::InternalError, "asset_link_state_unavailable"@))
    } else if facts.asset_metadata is None || facts.linked_asset_metadata is None {
        Some((RpcErrorKind::UnknownAsset, "unknown_link"@))
    } else if !link_is_good(params, facts) {
        Some((RpcErrorKind::UnknownLink, "unknown_link"@))
    } else if swaps.taker@.dom().contains(params.payment_hash->0) {
        Some((RpcErrorKind::DuplicatePaymentHash, "duplicate_payment_hash"@))
    } else if params.amount + capped(
        reserved_total(
            swaps.taker.slots@,
            params.asset_contract_id->0@,
            facts.now,
            facts.pending_timeout,
        ),
    ) > facts.max_balance {
        Some((RpcErrorKind::InsufficientLiquidity, "insufficient_liquidity"@))
    } else {
        None
    }
}

/// The swap that a request is authorized as.
pub open spec fn authorized_swap(
    params: AuthorizeParams,
    facts: AuthorizeFacts,
    peer: NodeId,
) -> SwapData {
    SwapData {
        swap_info: SwapInfo {
            qty_from: params.amount,
            qty_to: params.amount,
            from_asset: params.asset_contract_id,
            to_asset: params.linked_contract_id,
            expiry: capped(
                (facts.now + if params.expiry_sec <= facts.max_expiry {
                    params.expiry_sec
                } else {
                    facts.max_expiry
                }) as nat,
            ),
        },
        status: SwapStatus::Waiting,
        initiated_at: None,
        completed_at: None,
        pending_intercept_id: None,
        authorized_peer: Some(peer),
    }
}

fn invalid(message: &str) -> (r: RpcError)
    ensures
        is_rpc(r, RpcErrorKind::InvalidParams, message@),
{
    rpc_error(RpcErrorKind::InvalidParams, message)
}

fn check_params(params: &AuthorizeParams) -> (r: Result<(), RpcError>)
    ensures
        match params_error(*params) {
            Some(message) => r is Err && is_rpc(r->Err_0, RpcErrorKind::InvalidParams, message),
            None => r is Ok,
        },
{
    if params.payment_hash.is_none() {
        return Err(invalid("invalid_payment_hash"));
    }
    if params.asset_contract_id.is_none() {
        return Err(invalid("invalid_asset_id"));
    }
    if params.linked_contract_id.is_none() {
        return Err(invalid("invalid_linked_asset_id"));
    }
    if params.amount == 0 {
        return Err(invalid("invalid_amount"));
    }
    if params.expiry_sec == 0 {
        return Err(invalid("invalid_expiry_sec"));
    }
    Ok(())
}

/// The asset that a link starts from, by its canonical ID: that is whose link transfer must have
/// settled.
pub fn parent_contract_id(
    params: &AuthorizeParams,
    asset: &LinkMetadata,
    linked: &LinkMetadata,
) -> (r: Option<String>)
    ensures
        r == link_parent(*params, *asset, *linked),
{
    let asset_id = params.asset_id.as_str();
    let linked_asset_id = params.linked_asset_id.as_str();
    if opt_is(&asset.linked_to_asset_id, linked_asset_id) && opt_is(
        &linked.linked_from_asset_id,
        asset_id,
    ) {
        copy_opt(&params.asset_contract_id)
    } else if opt_is(&linked.linked_to_asset_id, asset_id) && opt_is(
        &asset.linked_from_asset_id,
        linked_asset_id,
    ) {
        copy_opt(&params.linked_contract_id)
    } else {
        None
    }
}

fn check_link(params: &AuthorizeParams, facts: &AuthorizeFacts) -> (r: bool)
    requires
        facts.asset_metadata is Some,
        facts.linked_asset_metadata is Some,
    ensures
        r == link_is_good(*params, *facts),
{
    match (&facts.asset_metadata, &facts.linked_asset_metadata) {
        (Some(asset), Some(linked)) => {
            if parent_contract_id(params, asset, linked).is_none() {
                return false;
            }
            if asset.asset_schema != AssetSchema::Ifa || linked.asset_schema != AssetSchema::Ifa {
                return false;
            }
            match &facts.link_transfer {
                Some(Some(status)) => *status == TransferStatus::Settled,
                _ => false,
            }
        },
        _ => unreached(),
    }
}

impl Swaps {
    /// Authorizes a peer to swap an asset for the one that it is linked to, one for one, as far as
    /// other swaps leave liquidity. The swap is to be stored before the peer gets its answer.
    pub fn authorize_swap(
        &mut self,
        sender_node_id: NodeId,
        params: &AuthorizeParams,
        facts: &AuthorizeFacts,
    ) -> (r: Result<(), RpcError>)
        requires
            old(self).wf(),
        ensures
            final(self).wf(),
            final(self).maker == old(self).maker,
            match refusal(*old(self), *params, *facts) {
                Some(e) => {
                    &&& r is Err && is_rpc(r->Err_0, e.0, e.1)
                    &&& final(self).taker == old(self).taker
                },
                None => {
                    &&& r is Ok
                    &&& final(self).taker@ == old(self).taker@.insert(
                        params.payment_hash->0,
                        authorized_swap(*params, *facts, sender_node_id),
                    )
                    &&& final(self).taker.slots@ == old(self).taker.slots@.push(
                        (params.payment_hash->0, authorized_swap(*params, *facts, sender_node_id)),
                    )
                },
            },
    {
        check_params(params)?;
        if !facts.state_available {
            return Err(rpc_error(RpcErrorKind::InternalError, "asset_link_state_unavailable"));
        }
        if facts.asset_metadata.is_none() || facts.linked_asset_metadata.is_none() {
            return Err(rpc_error(RpcErrorKind::UnknownAsset, "unknown_link"));
        }
        if !check_link(params, facts) {
            return Err(rpc_error(RpcErrorKind::UnknownLink, "unknown_link"));
        }
        let (payment_hash, contract_id) = match (&params.payment_hash, &params.asset_contract_id) {
            (Some(h), Some(c)) => (*h, c),
            _ => unreached(),
        };
        if self.taker.contains(payment_hash) {
            return Err(rpc_error(RpcErrorKind::DuplicatePaymentHash, "duplicate_payment_hash"));
        }
        let reserved: u64 = reserved_outbound_rgb_amount(
            &self.taker,
            contract_id.as_str(),
            facts.now,
            facts.pending_timeout,
        );
        let available: u64 = if reserved <= facts.max_balance {
            facts.max_balance - reserved
        } else {
            0
        };
        if params.amount > available {
            return Err(rpc_error(RpcErrorKind::InsufficientLiquidity, "insufficient_liquidity"));
        }
        let expiry_sec: u64 = if params.expiry_sec <= facts.max_expiry {
            params.expiry_sec
        } else {
            facts.max_expiry
        };
        let swap_info = SwapInfo {
            qty_from: params.amount,
            qty_to: params.amount,
            from_asset: copy_opt(&params.asset_contract_id),
            to_asset: copy_opt(&params.linked_contract_id),
            expiry: plus(facts.now, expiry_sec),
        };
        let swap = SwapData {
            swap_info,
            status: SwapStatus::Waiting,
            initiated_at: None,
            completed_at: None,
            pending_intercept_id: None,
            authorized_peer: Some(sender_node_id),
        };
        self.taker.insert(payment_hash, swap);
        Ok(())
    }

    /// Takes an authorization back that could not be stored, and says so.
    pub fn revoke_authorization(&mut self, payment_hash: Id, write_error: &str) -> (r: RpcError)
        requires
            old(self).wf(),
        ensures
            final(self).wf(),
            final(self).taker@ == old(self).taker@.remove(payment_hash),
            final(self).maker == old(self).maker,
            is_rpc(
                r,
                RpcErrorKind::InternalError,
                "taker_swaps_write_failed: "@ + write_error@,
            ),
    {
        self.taker.remove(payment_hash);
        RpcError {
            kind: RpcErrorKind::InternalError,
            message: join2("taker_swaps_write_failed: ", write_error),
        }
    }
}

// ---------------------------------------------------------------------------------------------
// Intercepted HTLCs
// ---------------------------------------------------------------------------------------------

/// The channel on one side of an intercepted HTLC.
#[derive(Debug)]
pub struct SwapChannel {
    pub peer: NodeId,
    /// The asset of the channel, where it is colored.
    pub contract_id: Option<String>,
}

/// The short IDs under which a channel is known.
#[derive(Clone, Copy, Debug, PartialEq, Eq, Structural)]
pub struct ShortIds {
    pub short_channel_id: Option<u64>,
    pub outbound_scid_alias: Option<u64>,
}

/// Whether a place holds the first channel that an intercepted HTLC can have come over.
pub open spec fn is_inbound(channels: Seq<ShortIds>, alias: u64, i: int) -> bool {
    &&& 0 <= i < channels.len()
    &&& channels[i].outbound_scid_alias == Some(alias)
    &&& forall|j: int| 0 <= j < i ==> (#[trigger] channels[j]).outbound_scid_alias != Some(alias)
}

/// Whether a channel is known under a short ID, its own one or its alias.
pub open spec fn goes_by(channel: ShortIds, scid: u64) -> bool {
    channel.short_channel_id == Some(scid) || channel.outbound_scid_alias == Some(scid)
}

/// Whether a place holds the first channel that an intercepted HTLC can go on over.
pub open spec fn is_outbound(channels: Seq<ShortIds>, scid: u64, i: int) -> bool {
    &&& 0 <= i < channels.len()
    &&& goes_by(channels[i], scid)
    &&& forall|j: int| 0 <= j < i ==> !goes_by(#[trigger] channels[j], scid)
}

/// Whether a result is the place of the channel that an intercepted HTLC came over, if there is one.
pub open spec fn finds_inbound(channels: Seq<ShortIds>, alias: u64, r: Option<usize>) -> bool {
    match r {
        Some(i) => is_inbound(channels, alias, i as int),
        None => forall|j: int|
            0 <= j < channels.len() ==> (#[trigger] channels[j]).outbound_scid_alias != Some(alias),
    }
}

/// Whether a result is the place of the channel that an intercepted HTLC is to go on over, if there is
/// one.
pub open spec fn finds_outbound(channels: Seq<ShortIds>, scid: u64, r: Option<usize>) -> bool {
    match r {
        Some(i) => is_outbound(channels, scid, i as int),
        None => forall|j: int| 0 <= j < channels.len() ==> !goes_by(#[trigger] channels[j], scid),
    }
}

/// The place of the channel that an intercepted HTLC came over: the first with that alias.
pub fn inbound_channel(channels: &Vec<ShortIds>, alias: u64) -> (r: Option<usize>)
    ensures
        finds_inbound(channels@, alias, r),
{
    let mut i: usize = 0;
    while i < channels.len()
        invariant
            i <= channels@.len(),
            forall|j: int|
                0 <= j < i ==> (#[trigger] channels@[j]).outbound_scid_alias != Some(alias),
        decreases channels@.len() - i,
    {
        if channels[i].outbound_scid_alias == Some(alias) {
            return Some(i);
        }
        i = i + 1;
    }
    None
}

/// The place of the channel that an intercepted HTLC is to go on over: the first that is known under
/// the requested short ID.
pub fn outbound_channel(channels: &Vec<ShortIds>, scid: u64) -> (r: Option<usize>)
    ensures
        finds_outbound(channels@, scid, r),
{
    let mut i: usize = 0;
    while i < channels.len()
        invariant
            i <= channels@.len(),
            forall|j: int| 0 <= j < i ==> !goes_by(#[trigger] channels@[j], scid),
        decreases channels@.len() - i,
    {
        let channel = channels[i];
        if channel.short_channel_id == Some(scid) || channel.outbound_scid_alias == Some(scid) {
            return Some(i);
        }
        i = i + 1;
    }
    None
}

/// An HTLC that was intercepted.
#[derive(Debug)]
pub struct InterceptedHtlc {
    pub is_swap: bool,
    pub payment_hash: Id,
    pub intercept_id: Id,
    pub inbound_amount_msat: u64,
    pub expected_outbound_amount_msat: u64,
    pub inbound_rgb_amount: Option<u64>,
    /// The asset and the amount that are to go on.
    pub expected_outbound_rgb_payment: Option<(String, u64)>,
    /// The channel that it came over, if it is known.
    pub inbound_channel: Option<SwapChannel>,
    /// The channel that it is to go on over, if it is known.
    pub outbound_channel: Option<SwapChannel>,
}

/// What is done with an intercepted HTLC.
#[derive(Clone, Copy, Debug, PartialEq, Eq, Structural)]
pub enum InterceptVerdict {
    NotASwap,
    NoInboundChannel,
    NoOutboundChannel,
    NotWhitelisted,
    NotForwardable,
    UnauthorizedPeer,
    Expired,
    Mismatch,
    Forward,
    /// The channel manager did not forward it.
    ForwardFailed,
}

/// The same optional text.
pub open spec fn same_text(a: Option<String>, b: Option<String>) -> bool {
    match (a, b) {
        (Some(x), Some(y)) => x@ == y@,
        (None, None) => true,
        _ => false,
    }
}

/// What goes on is the given amount of the swap's asset.
pub open spec fn pays_out(h: InterceptedHtlc, info: SwapInfo) -> bool {
    match (h.expected_outbound_rgb_payment, info.from_asset) {
        (Some(p), Some(a)) => p.0@ == a@ && p.1 == info.qty_from,
        (None, None) => true,
        _ => false,
    }
}

/// Whether an HTLC keeps to the terms of a swap: for BTC the difference of the two amounts is what
/// is swapped, for an asset the amount on its side; a swap between two assets takes no BTC.
pub open spec fn keeps_terms(h: InterceptedHtlc, info: SwapInfo) -> bool {
    let inbound = h.inbound_channel->0.contract_id;
    let outbound = h.outbound_channel->0.contract_id;
    if info.from_asset is None {
        &&& h.inbound_rgb_amount == Some(info.qty_to)
        &&& same_text(inbound, info.to_asset)
        &&& h.expected_outbound_amount_msat - h.inbound_amount_msat == info.qty_from
    } else if info.to_asset is None {
        &&& pays_out(h, info)
        &&& same_text(outbound, info.from_asset)
        &&& (if h.inbound_amount_msat >= h.expected_outbound_amount_msat {
            h.inbound_amount_msat - h.expected_outbound_amount_msat
        } else {
            0
        }) == info.qty_to
    } else {
        &&& h.inbound_amount_msat == h.expected_outbound_amount_msat
        &&& pays_out(h, info)
        &&& same_text(outbound, info.from_asset)
        &&& h.inbound_rgb_amount == Some(info.qty_to)
        &&& same_text(inbound, info.to_asset)
    }
}

/// What is done with an intercepted HTLC.
pub open spec fn verdict(
    taker: Map<Id, SwapData>,
    h: InterceptedHtlc,
    now: u64,
) -> InterceptVerdict {
    if !h.is_swap {
        InterceptVerdict::NotASwap
    } else if h.inbound_channel is None {
        InterceptVerdict::NoInboundChannel
    } else if h.outbound_channel is None {
        InterceptVerdict::NoOutboundChannel
    } else if !taker.dom().contains(h.payment_hash) {
        InterceptVerdict::NotWhitelisted
    } else {
        let swap = taker[h.payment_hash];
        if !(swap.status is Waiting || (swap.status is Pending && swap.pending_intercept_id == Some(
            h.intercept_id,
        ))) {
            InterceptVerdict::NotForwardable
        } else if swap.authorized_peer is Some && swap.authorized_peer->0
            != h.inbound_channel->0.peer {
            InterceptVerdict::UnauthorizedPeer
        } else if now > swap.swap_info.expiry {
            InterceptVerdict::Expired
        } else if !keeps_terms(h, swap.swap_info) {
            InterceptVerdict::Mismatch
        } else {
            InterceptVerdict::Forward
        }
    }
}

/// What the decision on an intercepted HTLC makes of the taken swaps.
pub open spec fn after_verdict(
    taker: Map<Id, SwapData>,
    h: InterceptedHtlc,
    now: u64,
    r: InterceptVerdict,
) -> Map<Id, SwapData> {
    match r {
        InterceptVerdict::Expired => taker.insert(
            h.payment_hash,
            taker_moved(taker[h.payment_hash], SwapStatus::Expired, now),
        ),
        InterceptVerdict::Mismatch => taker.insert(
            h.payment_hash,
            taker_moved(taker[h.payment_hash], SwapStatus::Failed, now),
        ),
        InterceptVerdict::Forward => taker.insert(
            h.payment_hash,
            SwapData {
                status: SwapStatus::Pending,
                initiated_at: Some(now),
                pending_intercept_id: Some(h.intercept_id),
                ..taker[h.payment_hash]
            },
        ),
        _ => taker,
    }
}

fn equal_text(a: &Option<String>, b: &Option<String>) -> (r: bool)
    ensures
        r == same_text(*a, *b),
{
    match (a, b) {
        (Some(x), Some(y)) => same(x.as_str(), y.as_str()),
        (None, None) => true,
        _ => false,
    }
}

fn is_paid_out(h: &InterceptedHtlc, info: &SwapInfo) -> (r: bool)
    ensures
        r == pays_out(*h, *info),
{
    match (&h.expected_outbound_rgb_payment, &info.from_asset) {
        (Some(p), Some(a)) => same(p.0.as_str(), a.as_str()) && p.1 == info.qty_from,
        (None, None) => true,
        _ => false,
    }
}

fn matches_terms(h: &InterceptedHtlc, info: &SwapInfo) -> (r: bool)
    requires
        h.inbound_channel is Some,
        h.outbound_channel is Some,
    ensures
        r == keeps_terms(*h, *info),
{
    let (inbound, outbound) = match (&h.inbound_channel, &h.outbound_channel) {
        (Some(i), Some(o)) => (&i.contract_id, &o.contract_id),
        _ => unreached(),
    };
    let qty_received = match h.inbound_rgb_amount {
        Some(amount) => amount == info.qty_to,
        None => false,
    };
    if info.from_asset.is_none() {
        qty_received && equal_text(inbound, &info.to_asset) && h.expected_outbound_amount_msat
            >= h.inbound_amount_msat && h.expected_outbound_amount_msat - h.inbound_amount_msat
            == info.qty_from
    } else if info.to_asset.is_none() {
        let net: u64 = if h.inbound_amount_msat >= h.expected_outbound_amount_msat {
            h.inbound_amount_msat - h.expected_outbound_amount_msat
        } else {
            0
        };
        is_paid_out(h, info) && equal_text(outbound, &info.from_asset) && net == info.qty_to
    } else {
        h.inbound_amount_msat == h.expected_outbound_amount_msat && is_paid_out(h, info)
            && equal_text(outbound, &info.from_asset) && qty_received && equal_text(
            inbound,
            &info.to_asset,
        )
    }
}

impl Swaps {
    fn judge(&self, h: &InterceptedHtlc, now: u64) -> (r: InterceptVerdict)
        requires
            self.wf(),
        ensures
            r == verdict(self.taker@, *h, now),
    {
        if !h.is_swap {
            return InterceptVerdict::NotASwap;
        }
        let inbound = match &h.inbound_channel {
            Some(c) => c,
            None => {
                return InterceptVerdict::NoInboundChannel;
            },
        };
        if h.outbound_channel.is_none() {
            return InterceptVerdict::NoOutboundChannel;
        }
        let swap = match self.taker.get(h.payment_hash) {
            Some(s) => s,
            None => {
                return InterceptVerdict::NotWhitelisted;
            },
        };
        let same_htlc = match swap.pending_intercept_id {
            Some(id) => id == h.intercept_id,
            None => false,
        };
        let forwardable = match swap.status {
            SwapStatus::Waiting => true,
            SwapStatus::Pending => same_htlc,
            _ => false,
        };
        if !forwardable {
            return InterceptVerdict::NotForwardable;
        }
        if let Some(authorized_peer) = swap.authorized_peer {
            if inbound.peer != authorized_peer {
                return InterceptVerdict::UnauthorizedPeer;
            }
        }
        if now > swap.swap_info.expiry {
            return InterceptVerdict::Expired;
        }
        if !matches_terms(h, &swap.swap_info) {
            return InterceptVerdict::Mismatch;
        }
        InterceptVerdict::Forward
    }

    /// Decides on an intercepted HTLC, and records the decision: only one that keeps to the terms
    /// of a whitelisted swap goes on.
    pub fn intercept(&mut self, h: &InterceptedHtlc, now: u64) -> (r: InterceptVerdict)
        requires
            old(self).wf(),
        ensures
            final(self).wf(),
            final(self).maker == old(self).maker,
            r == verdict(old(self).taker@, *h, now),
            final(self).taker@ == after_verdict(old(self).taker@, *h, now, r),
    {
        let r = self.judge(h, now);
        match r {
            InterceptVerdict::Expired => {
                self.update_taker_swap_status(h.payment_hash, SwapStatus::Expired, now);
            },
            InterceptVerdict::Mismatch => {
                self.update_taker_swap_status(h.payment_hash, SwapStatus::Failed, now);
            },
            InterceptVerdict::Forward => {
                self.update_taker_swap_pending_intercept(h.payment_hash, h.intercept_id, now);
            },
            _ => {},
        }
        r
    }

    /// Records that the channel manager refused to forward an HTLC of a whitelisted swap: the swap
    /// failed, and the HTLC is failed back.
    pub fn forward_failed(&mut self, payment_hash: Id, now: u64) -> (r: InterceptVerdict)
        requires
            old(self).wf(),
            old(self).taker@.dom().contains(payment_hash),
        ensures
            final(self).wf(),
            final(self).maker == old(self).maker,
            final(self).taker@ == old(self).taker@.insert(
                payment_hash,
                taker_moved(old(self).taker@[payment_hash], SwapStatus::Failed, now),
            ),
            r == InterceptVerdict::ForwardFailed,
    {
        self.update_taker_swap_status(payment_hash, SwapStatus::Failed, now);
        InterceptVerdict::ForwardFailed
    }
}

impl InterceptVerdict {
    /// Whether the HTLC is failed back.
    pub fn is_rejection(self) -> (r: bool)
        ensures
            r == (self != InterceptVerdict::Forward),
    {
        match self {
            InterceptVerdict::Forward => false,
            _ => true,
        }
    }
}

// ---------------------------------------------------------------------------------------------
// Laws
// ---------------------------------------------------------------------------------------------

/// An authorized swap redeems one for one, for the peer that asked and nobody else, and not beyond
/// the longest expiry.
pub proof fn law_authorizations_are_one_to_one(
    params: AuthorizeParams,
    facts: AuthorizeFacts,
    peer: NodeId,
)
    ensures
        ({
            let swap = authorized_swap(params, facts, peer);
            &&& swap.swap_info.qty_from == swap.swap_info.qty_to
            &&& swap.authorized_peer == Some(peer)
            &&& swap.swap_info.expiry <= facts.now + facts.max_expiry
        }),
{
}

/// A granted authorization leaves no more reserved than the node can send.
pub proof fn law_authorizations_stay_within_liquidity(
    swaps: Swaps,
    params: AuthorizeParams,
    facts: AuthorizeFacts,
)
    requires
        refusal(swaps, params, facts) is None,
    ensures
        params.amount + reserved_total(
            swaps.taker.slots@,
            params.asset_contract_id->0@,
            facts.now,
            facts.pending_timeout,
        ) <= facts.max_balance,
{
}

/// A swap forwards one HTLC: once it is under way with one, no other one is forwarded, and once it
/// ended none is.
pub proof fn law_swaps_forward_one_htlc(
    taker: Map<Id, SwapData>,
    h: InterceptedHtlc,
    now: u64,
)
    requires
        taker.dom().contains(h.payment_hash),
        is_final(taker[h.payment_hash].status) || (taker[h.payment_hash].status is Pending
            && taker[h.payment_hash].pending_intercept_id != Some(h.intercept_id)),
    ensures
        verdict(taker, h, now) != InterceptVerdict::Forward,
{
}

/// A swap whose HTLC could not be forwarded is over: no HTLC is forwarded for it again, and those of
/// other swaps are judged as before.
pub proof fn law_failed_forwards_end_the_swap(
    taker: Map<Id, SwapData>,
    payment_hash: Id,
    failed_at: u64,
    h: InterceptedHtlc,
    now: u64,
)
    requires
        taker.dom().contains(payment_hash),
    ensures
        ({
            let after = taker.insert(
                payment_hash,
                taker_moved(taker[payment_hash], SwapStatus::Failed, failed_at),
            );
            &&& h.payment_hash == payment_hash ==> verdict(after, h, now)
                != InterceptVerdict::Forward
            &&& h.payment_hash != payment_hash ==> verdict(after, h, now) == verdict(taker, h, now)
        }),
{
}

/// An HTLC is only forwarded on the terms that were agreed: what goes out is exactly the amount of the
/// asset that the swap gives, over a channel of that asset; what came in is exactly the amount of the
/// asset that the swap takes, over a channel of that asset; and BTC moves only where it is a side of the
/// swap, by the amount agreed.
pub proof fn law_forwarded_htlcs_move_the_agreed_amounts(
    taker: Map<Id, SwapData>,
    h: InterceptedHtlc,
    now: u64,
)
    requires
        verdict(taker, h, now) == InterceptVerdict::Forward,
    ensures
        ({
            let info = taker[h.payment_hash].swap_info;
            &&& info.from_asset matches Some(given) ==> {
                &&& h.expected_outbound_rgb_payment is Some
                &&& (h.expected_outbound_rgb_payment->0).0@ == given@
                &&& (h.expected_outbound_rgb_payment->0).1 == info.qty_from
                &&& h.outbound_channel is Some && h.outbound_channel->0.contract_id is Some
                &&& h.outbound_channel->0.contract_id->0@ == given@
            }
            &&& info.to_asset matches Some(taken) ==> {
                &&& h.inbound_rgb_amount == Some(info.qty_to)
                &&& h.inbound_channel is Some && h.inbound_channel->0.contract_id is Some
                &&& h.inbound_channel->0.contract_id->0@ == taken@
            }
            &&& info.from_asset is None ==> h.expected_outbound_amount_msat == h.inbound_amount_msat
                + info.qty_from
            &&& info.from_asset is Some && info.to_asset is None && info.qty_to > 0
                ==> h.inbound_amount_msat == h.expected_outbound_amount_msat + info.qty_to
            &&& info.from_asset is Some && info.to_asset is None && info.qty_to == 0
                ==> h.inbound_amount_msat <= h.expected_outbound_amount_msat
            &&& info.from_asset is Some && info.to_asset is Some ==> h.inbound_amount_msat
                == h.expected_outbound_amount_msat
        }),
{
}

/// An HTLC is only forwarded for a swap that was agreed to and has not expired, that waits or is under
/// way with this very HTLC, and that came over a channel of the peer that it was authorized for.
pub proof fn law_forwarded_htlcs_belong_to_a_live_swap(
    taker: Map<Id, SwapData>,
    h: InterceptedHtlc,
    now: u64,
)
    requires
        verdict(taker, h, now) == InterceptVerdict::Forward,
    ensures
        h.is_swap,
        h.inbound_channel is Some && h.outbound_channel is Some,
        taker.dom().contains(h.payment_hash),
        now <= taker[h.payment_hash].swap_info.expiry,
        taker[h.payment_hash].status == SwapStatus::Waiting || (taker[h.payment_hash].status
            == SwapStatus::Pending && taker[h.payment_hash].pending_intercept_id == Some(
            h.intercept_id,
        )),
        taker[h.payment_hash].authorized_peer matches Some(peer) ==> h.inbound_channel->0.peer
            == peer,
{
}

/// An HTLC that keeps to the terms of a live swap between two assets is forwarded.
pub proof fn law_agreed_swaps_between_assets_go_on(
    taker: Map<Id, SwapData>,
    h: InterceptedHtlc,
    now: u64,
)
    requires
        h.is_swap,
        h.inbound_channel is Some && h.outbound_channel is Some,
        taker.dom().contains(h.payment_hash),
        now <= taker[h.payment_hash].swap_info.expiry,
        taker[h.payment_hash].status == SwapStatus::Waiting || (taker[h.payment_hash].status
            == SwapStatus::Pending && taker[h.payment_hash].pending_intercept_id == Some(
            h.intercept_id,
        )),
        taker[h.payment_hash].authorized_peer is Some ==> h.inbound_channel->0.peer
            == taker[h.payment_hash].authorized_peer->0,
        taker[h.payment_hash].swap_info.from_asset is Some,
        taker[h.payment_hash].swap_info.to_asset is Some,
        h.inbound_amount_msat == h.expected_outbound_amount_msat,
        h.inbound_rgb_amount == Some(taker[h.payment_hash].swap_info.qty_to),
        h.expected_outbound_rgb_payment is Some,
        (h.expected_outbound_rgb_payment->0).0@ == taker[h.payment_hash].swap_info.from_asset->0@,
        (h.expected_outbound_rgb_payment->0).1 == taker[h.payment_hash].swap_info.qty_from,
        h.outbound_channel->0.contract_id is Some && h.outbound_channel->0.contract_id->0@
            == taker[h.payment_hash].swap_info.from_asset->0@,
        h.inbound_channel->0.contract_id is Some && h.inbound_channel->0.contract_id->0@
            == taker[h.payment_hash].swap_info.to_asset->0@,
    ensures
        verdict(taker, h, now) == InterceptVerdict::Forward,
{
}

/// An HTLC that keeps to the terms of a live swap against BTC is forwarded, whichever side BTC is.
pub proof fn law_agreed_swaps_against_btc_go_on(
    taker: Map<Id, SwapData>,
    h: InterceptedHtlc,
    now: u64,
)
    requires
        h.is_swap,
        h.inbound_channel is Some && h.outbound_channel is Some,
        taker.dom().contains(h.payment_hash),
        now <= taker[h.payment_hash].swap_info.expiry,
        taker[h.payment_hash].status == SwapStatus::Waiting || (taker[h.payment_hash].status
            == SwapStatus::Pending && taker[h.payment_hash].pending_intercept_id == Some(
            h.intercept_id,
        )),
        taker[h.payment_hash].authorized_peer is Some ==> h.inbound_channel->0.peer
            == taker[h.payment_hash].authorized_peer->0,
    ensures
        ({
            let info = taker[h.payment_hash].swap_info;
            &&& info.from_asset is None && info.to_asset is Some && h.inbound_rgb_amount == Some(
                info.qty_to,
            ) && h.inbound_channel->0.contract_id is Some && h.inbound_channel->0.contract_id->0@
                == info.to_asset->0@ && h.expected_outbound_amount_msat == h.inbound_amount_msat
                + info.qty_from ==> verdict(taker, h, now) == InterceptVerdict::Forward
            &&& info.to_asset is None && info.from_asset is Some && h.expected_outbound_rgb_payment is Some
                && (h.expected_outbound_rgb_payment->0).0@ == info.from_asset->0@
                && (h.expected_outbound_rgb_payment->0).1 == info.qty_from
                && h.outbound_channel->0.contract_id is Some && h.outbound_channel->0.contract_id->0@
                == info.from_asset->0@ && h.inbound_amount_msat == h.expected_outbound_amount_msat
                + info.qty_to ==> verdict(taker, h, now) == InterceptVerdict::Forward
        }),
{
}

/// Each refusal of an HTLC has its own reason, which holds of the HTLC and its swap.
pub proof fn law_refused_htlcs_have_a_reason(
    taker: Map<Id, SwapData>,
    h: InterceptedHtlc,
    now: u64,
)
    ensures
        ({
            let r = verdict(taker, h, now);
            let swap = taker[h.payment_hash];
            &&& r == InterceptVerdict::NotASwap <==> !h.is_swap
            &&& r == InterceptVerdict::NoInboundChannel ==> h.inbound_channel is None
            &&& r == InterceptVerdict::NoOutboundChannel ==> h.outbound_channel is None
            &&& r == InterceptVerdict::NotWhitelisted ==> !taker.dom().contains(h.payment_hash)
            &&& r == InterceptVerdict::NotForwardable ==> taker.dom().contains(h.payment_hash)
                && swap.status != SwapStatus::Waiting && (swap.status != SwapStatus::Pending
                || swap.pending_intercept_id != Some(h.intercept_id))
            &&& r == InterceptVerdict::UnauthorizedPeer ==> swap.authorized_peer is Some
                && h.inbound_channel is Some && swap.authorized_peer->0 != h.inbound_channel->0.peer
            &&& r == InterceptVerdict::Expired ==> taker.dom().contains(h.payment_hash) && now
                > swap.swap_info.expiry
            &&& r == InterceptVerdict::Mismatch ==> taker.dom().contains(h.payment_hash) && now
                <= swap.swap_info.expiry
            &&& r != InterceptVerdict::ForwardFailed
        }),
{
}

/// A forwarded HTLC puts its swap under way, dated, with that HTLC and on unchanged terms; the same
/// HTLC is forwarded again as long as the swap has not expired, and no other one is.
pub proof fn law_forwarding_puts_a_swap_under_way(
    taker: Map<Id, SwapData>,
    h: InterceptedHtlc,
    now: u64,
    again: u64,
    other: InterceptedHtlc,
)
    requires
        verdict(taker, h, now) == InterceptVerdict::Forward,
        other.payment_hash == h.payment_hash,
        other.intercept_id != h.intercept_id,
    ensures
        ({
            let after = after_verdict(taker, h, now, InterceptVerdict::Forward);
            let swap = after[h.payment_hash];
            &&& after.dom() == taker.dom()
            &&& swap.status == SwapStatus::Pending
            &&& swap.initiated_at == Some(now)
            &&& swap.pending_intercept_id == Some(h.intercept_id)
            &&& swap.swap_info == taker[h.payment_hash].swap_info
            &&& swap.authorized_peer == taker[h.payment_hash].authorized_peer
            &&& swap.completed_at == taker[h.payment_hash].completed_at
            &&& verdict(after, h, again) == InterceptVerdict::Forward <==> again
                <= taker[h.payment_hash].swap_info.expiry
            &&& verdict(after, other, again) != InterceptVerdict::Forward
        }),
{
    assert(after_verdict(taker, h, now, InterceptVerdict::Forward).dom() =~= taker.dom());
}

/// A swap whose HTLC comes too late expires, and one whose HTLC is off its terms fails: either way the
/// swap ends then, without an HTLC. Any other refusal leaves all swaps as they are, and no decision
/// touches another swap.
pub proof fn law_refused_htlcs_end_only_their_swap(
    taker: Map<Id, SwapData>,
    h: InterceptedHtlc,
    now: u64,
    other: Id,
)
    ensures
        ({
            let r = verdict(taker, h, now);
            let after = after_verdict(taker, h, now, r);
            let ended = after[h.payment_hash];
            &&& r == InterceptVerdict::Expired ==> ended.status == SwapStatus::Expired
            &&& r == InterceptVerdict::Mismatch ==> ended.status == SwapStatus::Failed
            &&& r == InterceptVerdict::Expired || r == InterceptVerdict::Mismatch
                ==> ended.completed_at == Some(now) && ended.pending_intercept_id is None
                && ended.swap_info == taker[h.payment_hash].swap_info && ended.initiated_at
                == taker[h.payment_hash].initiated_at
            &&& r != InterceptVerdict::Expired && r != InterceptVerdict::Mismatch && r
                != InterceptVerdict::Forward ==> after == taker
            &&& other != h.payment_hash ==> after.dom().contains(other) == taker.dom().contains(
                other,
            ) && after[other] == taker[other]
        }),
{
}

/// The end of a swap is dated and final, its terms and its start stay on record, and a taken swap
/// forgets its HTLC then; the start of one is dated too.
pub proof fn law_swaps_are_dated(swap: SwapData, status: SwapStatus, now: u64)
    ensures
        ({
            let made = maker_moved(swap, status, now);
            let taken = taker_moved(swap, status, now);
            &&& made.status == status && taken.status == status
            &&& made.swap_info == swap.swap_info && taken.swap_info == swap.swap_info
            &&& made.authorized_peer == swap.authorized_peer && taken.authorized_peer
                == swap.authorized_peer
            &&& status == SwapStatus::Succeeded || status == SwapStatus::Failed || status
                == SwapStatus::Expired ==> made.completed_at == Some(now) && taken.completed_at
                == Some(now) && made.initiated_at == swap.initiated_at && taken.initiated_at
                == swap.initiated_at && taken.pending_intercept_id is None
                && made.pending_intercept_id == swap.pending_intercept_id
            &&& status == SwapStatus::Pending ==> made.initiated_at == Some(now)
                && taken.initiated_at == Some(now) && made.completed_at == swap.completed_at
                && taken.completed_at == swap.completed_at && taken.pending_intercept_id
                == swap.pending_intercept_id
        }),
{
}

proof fn lemma_reserved_at(
    swaps: Seq<(Id, SwapData)>,
    i: int,
    new: (Id, SwapData),
    asset: Seq<char>,
    now: u64,
    pending_timeout: u64,
)
    requires
        0 <= i < swaps.len(),
    ensures
        reserved_total(swaps.update(i, new), asset, now, pending_timeout) + reserved_total(
            seq![swaps[i]],
            asset,
            now,
            pending_timeout,
        ) == reserved_total(swaps, asset, now, pending_timeout) + reserved_total(
            seq![new],
            asset,
            now,
            pending_timeout,
        ),
        reserved_total(swaps, asset, now, pending_timeout) >= reserved_total(
            seq![swaps[i]],
            asset,
            now,
            pending_timeout,
        ),
    decreases swaps.len(),
{
    let last = swaps.len() - 1;
    assert(seq![swaps[i]].drop_last() =~= Seq::<(Id, SwapData)>::empty());
    assert(seq![new].drop_last() =~= Seq::<(Id, SwapData)>::empty());
    reveal_with_fuel(reserved_total, 3);
    if i == last {
        assert(swaps.update(i, new).drop_last() =~= swaps.drop_last());
    } else {
        assert(swaps.update(i, new).drop_last() =~= swaps.drop_last().update(i, new));
        lemma_reserved_at(swaps.drop_last(), i, new, asset, now, pending_timeout);
    }
}

/// A swap that gives an asset holds back exactly what it gives, as long as it waits and has not
/// expired, or is under way and has not timed out: all of that is part of the total.
pub proof fn law_live_swaps_hold_back_what_they_give(
    swaps: Seq<(Id, SwapData)>,
    i: int,
    asset: Seq<char>,
    now: u64,
    pending_timeout: u64,
)
    requires
        0 <= i < swaps.len(),
        swaps[i].1.swap_info.from_asset is Some,
        swaps[i].1.swap_info.from_asset->0@ == asset,
        (swaps[i].1.status == SwapStatus::Waiting && now <= swaps[i].1.swap_info.expiry) || (
        swaps[i].1.status == SwapStatus::Pending && (swaps[i].1.initiated_at is None || now
            <= swaps[i].1.initiated_at->0 + pending_timeout)),
    ensures
        reserved_total(seq![swaps[i]], asset, now, pending_timeout)
            == swaps[i].1.swap_info.qty_from,
        reserved_total(swaps, asset, now, pending_timeout) >= swaps[i].1.swap_info.qty_from,
{
    assert(seq![swaps[i]].drop_last() =~= Seq::<(Id, SwapData)>::empty());
    reveal_with_fuel(reserved_total, 2);
    lemma_reserved_at(swaps, i, swaps[i], asset, now, pending_timeout);
}

/// A swap holds nothing back that gives another asset or none, that ended, that expired before it was
/// under way, or that timed out.
pub proof fn law_other_swaps_hold_nothing_back(
    entry: (Id, SwapData),
    asset: Seq<char>,
    now: u64,
    pending_timeout: u64,
)
    requires
        entry.1.swap_info.from_asset is None || entry.1.swap_info.from_asset->0@ != asset
            || entry.1.status == SwapStatus::Succeeded || entry.1.status == SwapStatus::Failed
            || entry.1.status == SwapStatus::Expired || (entry.1.status == SwapStatus::Waiting && now
            > entry.1.swap_info.expiry) || (entry.1.status == SwapStatus::Pending
            && entry.1.initiated_at is Some && entry.1.initiated_at->0 + pending_timeout < now),
    ensures
        reserved_total(seq![entry], asset, now, pending_timeout) == 0,
{
    assert(seq![entry].drop_last() =~= Seq::<(Id, SwapData)>::empty());
    reveal_with_fuel(reserved_total, 2);
}

/// What swaps hold back adds up, in whatever order they are kept.
pub proof fn law_reservations_add_up(
    a: Seq<(Id, SwapData)>,
    b: Seq<(Id, SwapData)>,
    asset: Seq<char>,
    now: u64,
    pending_timeout: u64,
)
    ensures
        reserved_total(a + b, asset, now, pending_timeout) == reserved_total(
            a,
            asset,
            now,
            pending_timeout,
        ) + reserved_total(b, asset, now, pending_timeout),
    decreases b.len(),
{
    if b.len() == 0 {
        assert(a + b =~= a);
    } else {
        assert((a + b).drop_last() =~= a + b.drop_last());
        law_reservations_add_up(a, b.drop_last(), asset, now, pending_timeout);
    }
}

/// Forwarding keeps a reservation: a waiting swap that goes under way before it expires holds back
/// what it did, at that time and until it times out; a swap that ends gives up all that it held back.
pub proof fn law_forwarding_keeps_the_reservation(
    swaps: Seq<(Id, SwapData)>,
    i: int,
    intercept_id: Id,
    forwarded: u64,
    now: u64,
    ended: SwapStatus,
    asset: Seq<char>,
    pending_timeout: u64,
)
    requires
        0 <= i < swaps.len(),
        swaps[i].1.status == SwapStatus::Waiting,
        now <= swaps[i].1.swap_info.expiry,
        now <= forwarded + pending_timeout,
        ended == SwapStatus::Succeeded || ended == SwapStatus::Failed || ended
            == SwapStatus::Expired,
    ensures
        ({
            let pending = SwapData {
                status: SwapStatus::Pending,
                initiated_at: Some(forwarded),
                pending_intercept_id: Some(intercept_id),
                ..swaps[i].1
            };
            let held: int = if swaps[i].1.swap_info.from_asset is Some
                && swaps[i].1.swap_info.from_asset->0@ == asset {
                swaps[i].1.swap_info.qty_from as int
            } else {
                0
            };
            &&& reserved_total(swaps.update(i, (swaps[i].0, pending)), asset, now, pending_timeout)
                == reserved_total(swaps, asset, now, pending_timeout)
            &&& reserved_total(
                swaps.update(i, (swaps[i].0, taker_moved(pending, ended, now))),
                asset,
                now,
                pending_timeout,
            ) == reserved_total(swaps, asset, now, pending_timeout) - held
        }),
{
    let pending = SwapData {
        status: SwapStatus::Pending,
        initiated_at: Some(forwarded),
        pending_intercept_id: Some(intercept_id),
        ..swaps[i].1
    };
    let p = (swaps[i].0, pending);
    let e = (swaps[i].0, taker_moved(pending, ended, now));
    assert(seq![swaps[i]].drop_last() =~= Seq::<(Id, SwapData)>::empty());
    assert(seq![p].drop_last() =~= Seq::<(Id, SwapData)>::empty());
    assert(seq![e].drop_last() =~= Seq::<(Id, SwapData)>::empty());
    reveal_with_fuel(reserved_total, 2);
    lemma_reserved_at(swaps, i, p, asset, now, pending_timeout);
    lemma_reserved_at(swaps, i, e, asset, now, pending_timeout);
}

/// An authorized swap holds back what it promises until it expires. So what is promised together never
/// exceeds what a channel can send: after an authorization the total is within the balance, and a
/// second request of the same asset at that time is only granted what is left.
pub proof fn law_promises_never_exceed_the_balance(
    before: Swaps,
    params: AuthorizeParams,
    facts: AuthorizeFacts,
    peer: NodeId,
    after: Swaps,
    next: AuthorizeParams,
    next_facts: AuthorizeFacts,
)
    requires
        refusal(before, params, facts) is None,
        after.taker.slots@ == before.taker.slots@.push(
            (params.payment_hash->0, authorized_swap(params, facts, peer)),
        ),
        refusal(after, next, next_facts) is None,
        next.asset_contract_id->0@ == params.asset_contract_id->0@,
        next_facts.now == facts.now,
        next_facts.pending_timeout == facts.pending_timeout,
    ensures
        reserved_total(
            after.taker.slots@,
            params.asset_contract_id->0@,
            facts.now,
            facts.pending_timeout,
        ) == params.amount + reserved_total(
            before.taker.slots@,
            params.asset_contract_id->0@,
            facts.now,
            facts.pending_timeout,
        ),
        reserved_total(
            after.taker.slots@,
            params.asset_contract_id->0@,
            facts.now,
            facts.pending_timeout,
        ) <= facts.max_balance,
        params.amount + next.amount <= next_facts.max_balance,
{
    assert(after.taker.slots@.drop_last() =~= before.taker.slots@);
}

/// A request is granted only where everything about it is in order: it is whole and asks for
/// something, the node is unlocked, both assets are known and inflatable, each names the other as its
/// link and the transfer that made the link has settled, and its payment is not known yet.
pub proof fn law_granted_requests_are_in_order(
    swaps: Swaps,
    params: AuthorizeParams,
    facts: AuthorizeFacts,
)
    requires
        refusal(swaps, params, facts) is None,
    ensures
        params.payment_hash is Some && params.asset_contract_id is Some
            && params.linked_contract_id is Some,
        params.amount > 0,
        params.expiry_sec > 0,
        facts.state_available,
        facts.asset_metadata is Some && facts.linked_asset_metadata is Some,
        facts.asset_metadata->0.asset_schema == AssetSchema::Ifa,
        facts.linked_asset_metadata->0.asset_schema == AssetSchema::Ifa,
        facts.link_transfer == Some(Some(TransferStatus::Settled)),
        !swaps.taker@.dom().contains(params.payment_hash->0),
        ({
            let asset = facts.asset_metadata->0;
            let linked = facts.linked_asset_metadata->0;
            ||| asset.linked_to_asset_id is Some && asset.linked_to_asset_id->0@
                == params.linked_asset_id@ && linked.linked_from_asset_id is Some
                && linked.linked_from_asset_id->0@ == params.asset_id@
            ||| linked.linked_to_asset_id is Some && linked.linked_to_asset_id->0@
                == params.asset_id@ && asset.linked_from_asset_id is Some
                && asset.linked_from_asset_id->0@ == params.linked_asset_id@
        }),
{
}

/// A request that is in order is granted, as far as other swaps leave of the balance, and refused for
/// want of liquidity beyond that.
pub proof fn law_orderly_requests_are_granted_within_liquidity(
    swaps: Swaps,
    params: AuthorizeParams,
    facts: AuthorizeFacts,
)
    requires
        params.payment_hash is Some,
        params.asset_contract_id is Some,
        params.linked_contract_id is Some,
        params.amount > 0,
        params.expiry_sec > 0,
        facts.state_available,
        facts.asset_metadata is Some && facts.linked_asset_metadata is Some,
        facts.asset_metadata->0.asset_schema == AssetSchema::Ifa,
        facts.linked_asset_metadata->0.asset_schema == AssetSchema::Ifa,
        facts.asset_metadata->0.linked_to_asset_id is Some
            && facts.asset_metadata->0.linked_to_asset_id->0@ == params.linked_asset_id@
            && facts.linked_asset_metadata->0.linked_from_asset_id is Some
            && facts.linked_asset_metadata->0.linked_from_asset_id->0@ == params.asset_id@,
        facts.link_transfer == Some(Some(TransferStatus::Settled)),
        !swaps.taker@.dom().contains(params.payment_hash->0),
        facts.max_balance < u64::MAX,
    ensures
        ({
            let held = reserved_total(
                swaps.taker.slots@,
                params.asset_contract_id->0@,
                facts.now,
                facts.pending_timeout,
            );
            &&& held + params.amount <= facts.max_balance ==> refusal(swaps, params, facts) is None
            &&& held + params.amount > facts.max_balance ==> refusal(swaps, params, facts) == Some(
                (RpcErrorKind::InsufficientLiquidity, "insufficient_liquidity"@),
            )
        }),
{
}

/// The swap that a request becomes gives the asked amount of the asset for the same amount of the
/// linked one, waits, and lasts as long as was asked for, but no longer than is allowed.
pub proof fn law_authorized_swaps_are_as_asked(
    params: AuthorizeParams,
    facts: AuthorizeFacts,
    peer: NodeId,
)
    requires
        facts.now + facts.max_expiry <= u64::MAX,
    ensures
        ({
            let swap = authorized_swap(params, facts, peer);
            &&& swap.swap_info.qty_from == params.amount && swap.swap_info.qty_to == params.amount
            &&& swap.swap_info.from_asset == params.asset_contract_id
            &&& swap.swap_info.to_asset == params.linked_contract_id
            &&& swap.status == SwapStatus::Waiting
            &&& swap.initiated_at is None && swap.completed_at is None
            &&& swap.pending_intercept_id is None
            &&& swap.authorized_peer == Some(peer)
            &&& params.expiry_sec <= facts.max_expiry ==> swap.swap_info.expiry == facts.now
                + params.expiry_sec
            &&& params.expiry_sec > facts.max_expiry ==> swap.swap_info.expiry == facts.now
                + facts.max_expiry
        }),
{
}

/// A total that can be written is told as it is; a larger one is told as the largest amount, so that it
/// never looks smaller than another.
pub proof fn law_totals_are_never_understated(a: nat, b: nat)
    requires
        a <= b,
    ensures
        capped(a) <= capped(b),
        a <= u64::MAX ==> capped(a) == a,
        a > u64::MAX ==> capped(a) == u64::MAX,
{
}

/// An HTLC came over the first channel with the given alias, and goes on over the first one that is known
/// under the requested short ID, be it its own or its alias.
pub proof fn law_channels_are_found_by_their_short_ids(
    channels: Seq<ShortIds>,
    scid: u64,
    i: int,
    j: int,
)
    ensures
        is_inbound(channels, scid, i) && is_inbound(channels, scid, j) ==> i == j,
        is_outbound(channels, scid, i) && is_outbound(channels, scid, j) ==> i == j,
        is_inbound(channels, scid, i) ==> channels[i].outbound_scid_alias == Some(scid),
        is_outbound(channels, scid, i) ==> channels[i].short_channel_id == Some(scid)
            || channels[i].outbound_scid_alias == Some(scid),
        is_inbound(channels, scid, i) && is_outbound(channels, scid, j) ==> j <= i,
        0 <= j < i < channels.len() && is_outbound(channels, scid, i)
            ==> channels[j].short_channel_id != Some(scid) && channels[j].outbound_scid_alias != Some(
            scid,
        ),
{
}

/// The link of two assets starts from the one that names the other as its target, where that one names
/// it as its source in turn; without both there is no link.
pub proof fn law_links_are_told_by_both_sides(
    params: AuthorizeParams,
    asset: LinkMetadata,
    linked: LinkMetadata,
)
    ensures
        ({
            let forward = asset.linked_to_asset_id is Some && asset.linked_to_asset_id->0@
                == params.linked_asset_id@ && linked.linked_from_asset_id is Some
                && linked.linked_from_asset_id->0@ == params.asset_id@;
            let backward = linked.linked_to_asset_id is Some && linked.linked_to_asset_id->0@
                == params.asset_id@ && asset.linked_from_asset_id is Some
                && asset.linked_from_asset_id->0@ == params.linked_asset_id@;
            &&& forward ==> link_parent(params, asset, linked) == params.asset_contract_id
            &&& !forward && backward ==> link_parent(params, asset, linked)
                == params.linked_contract_id
            &&& !forward && !backward ==> link_parent(params, asset, linked) is None
        }),
{
}

/// What is wrong with a request is answered for the first thing that is wrong with it, and each thing
/// has its own answer.
pub proof fn law_refusals_name_what_is_wrong(
    swaps: Swaps,
    params: AuthorizeParams,
    facts: AuthorizeFacts,
)
    ensures
        params.payment_hash is None ==> refusal(swaps, params, facts) == Some(
            (RpcErrorKind::InvalidParams, "invalid_payment_hash"@),
        ),
        params.payment_hash is Some && params.asset_contract_id is Some
            && params.linked_contract_id is Some ==> {
            &&& params.amount == 0 ==> refusal(swaps, params, facts) == Some(
                (RpcErrorKind::InvalidParams, "invalid_amount"@),
            )
            &&& params.amount > 0 && params.expiry_sec == 0 ==> refusal(swaps, params, facts) == Some(
                (RpcErrorKind::InvalidParams, "invalid_expiry_sec"@),
            )
            &&& params.amount > 0 && params.expiry_sec > 0 && !facts.state_available ==> refusal(
                swaps,
                params,
                facts,
            ) == Some((RpcErrorKind::InternalError, "asset_link_state_unavailable"@))
            &&& params.amount > 0 && params.expiry_sec > 0 && facts.state_available && (
            facts.asset_metadata is None || facts.linked_asset_metadata is None) ==> refusal(
                swaps,
                params,
                facts,
            ) == Some((RpcErrorKind::UnknownAsset, "unknown_link"@))
        },
        refusal(swaps, params, facts) matches Some(e) ==> (e.0 == RpcErrorKind::DuplicatePaymentHash
            ==> swaps.taker@.dom().contains(params.payment_hash->0)),
        params.payment_hash is Some && swaps.taker@.dom().contains(params.payment_hash->0) ==> refusal(
            swaps,
            params,
            facts,
        ) is Some,
{
}

/// Where channels go by a short ID, the first of them is found: one that an HTLC came over by its alias
/// alone, one that it is to go on over by its own short ID as well.
pub proof fn law_the_first_channel_of_a_short_id_is_found(
    channels: Seq<ShortIds>,
    scid: u64,
    came: Option<usize>,
    goes: Option<usize>,
    k: int,
)
    requires
        finds_inbound(channels, scid, came),
        finds_outbound(channels, scid, goes),
        0 <= k < channels.len(),
    ensures
        channels[k].outbound_scid_alias == Some(scid) ==> came is Some && came->0 <= k,
        channels[k].outbound_scid_alias == Some(scid) ==> goes is Some && goes->0 <= k,
        channels[k].short_channel_id == Some(scid) ==> goes is Some && goes->0 <= k,
        came matches Some(i) ==> i < channels.len() && channels[i as int].outbound_scid_alias == Some(
            scid,
        ),
        goes matches Some(i) ==> i < channels.len() && (channels[i as int].outbound_scid_alias == Some(
            scid,
        ) || channels[i as int].short_channel_id == Some(scid)),
{
}

} // verus!
