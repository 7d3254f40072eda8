//! What happens, step by step, when a channel becomes ready, is closed or has its funding discarded,
//! and when a payment was forwarded.

use vstd::prelude::*;
use vstd::string::*;

use crate::kv_store::StoreError;
use crate::rgb_payments::{safe_update, safe_update_rgb_channel_amount, SafeUpdate};

verus! {

// ---------------------------------------------------------------------------------------------
// Closed channels
// ---------------------------------------------------------------------------------------------

/// What is to be done next about a closed channel.
#[derive(Clone, Copy, Debug, PartialEq, Eq, Structural)]
pub enum CloseStep {
    /// Remove the stored consignment of the funding transaction.
    RemoveConsignment,
    /// Forget what was staged of the funding transaction.
    ForgetStaged,
    /// Release what is locked for a funding that was never broadcast.
    ReleaseFunding,
    /// Remove the tombstone of a finalized sender funding.
    RemoveTombstone,
    /// Forget the channel's IDs, with the draft of a virtual open that failed.
    ForgetChannel,
    /// Remove the marker under the temporary ID of that draft.
    RemoveDraftMarker,
    /// Remove the marker under the channel's ID.
    RemoveMarker,
    Done,
}

/// The closing of a channel.
#[derive(Clone, Copy, Debug, PartialEq, Eq, Structural)]
pub struct ChannelClosed {
    pub step: CloseStep,
}

/// The step after one, where `draft` tells whether forgetting the channel dropped a draft.
pub open spec fn close_next(step: CloseStep, draft: bool) -> CloseStep {
    match step {
        CloseStep::RemoveConsignment => CloseStep::ForgetStaged,
        CloseStep::ForgetStaged => CloseStep::ReleaseFunding,
        CloseStep::ReleaseFunding => CloseStep::RemoveTombstone,
        CloseStep::RemoveTombstone => CloseStep::ForgetChannel,
        CloseStep::ForgetChannel => if draft {
            CloseStep::RemoveDraftMarker
        } else {
            CloseStep::Done
        },
        CloseStep::RemoveDraftMarker => CloseStep::RemoveMarker,
        CloseStep::RemoveMarker => CloseStep::Done,
        CloseStep::Done => CloseStep::Done,
    }
}

/// Where the closing of a channel starts.
pub open spec fn closes_from(
    funded: bool,
    r: ChannelClosed,
) -> bool {
    &&& r.step == (if funded {
                CloseStep::RemoveConsignment
            } else {
                CloseStep::ReleaseFunding
            })
}

impl ChannelClosed {
    /// Starts with a closed channel, which may have been funded.
    pub fn new(funded: bool) -> (r: Self)
        ensures
            closes_from(funded, r),
    {
        ChannelClosed {
            step: if funded {
                CloseStep::RemoveConsignment
            } else {
                CloseStep::ReleaseFunding
            },
        }
    }

    /// Goes on after a step; none of them can fail in a way that stops the rest.
    pub fn advance(self, draft: bool) -> (r: Self)
        ensures
            r.step == close_next(self.step, draft),
    {
        let step = match self.step {
            CloseStep::RemoveConsignment => CloseStep::ForgetStaged,
            CloseStep::ForgetStaged => CloseStep::ReleaseFunding,
            CloseStep::ReleaseFunding => CloseStep::RemoveTombstone,
            CloseStep::RemoveTombstone => CloseStep::ForgetChannel,
            CloseStep::ForgetChannel => if draft {
                CloseStep::RemoveDraftMarker
            } else {
                CloseStep::Done
            },
            CloseStep::RemoveDraftMarker => CloseStep::RemoveMarker,
            CloseStep::RemoveMarker => CloseStep::Done,
            CloseStep::Done => CloseStep::Done,
        };
        ChannelClosed { step }
    }
}

/// A closed channel is only forgotten once what was locked for its funding has been released, which
/// still needs its IDs.
pub proof fn law_funding_is_released_before_the_channel_is_forgotten(step: CloseStep, draft: bool)
    requires
        close_next(step, draft) == CloseStep::ForgetChannel,
    ensures
        step == CloseStep::RemoveTombstone,
        forall|before: CloseStep, d: bool| #[trigger]
            close_next(before, d) == CloseStep::RemoveTombstone ==> before
                == CloseStep::ReleaseFunding,
{
}

// ---------------------------------------------------------------------------------------------
// Discarded fundings
// ---------------------------------------------------------------------------------------------

/// What is to be done next about a discarded funding.
#[derive(Clone, Copy, Debug, PartialEq, Eq, Structural)]
pub enum DiscardStep {
    /// Release what is locked for the funding.
    ReleaseFunding,
    /// Forget the channel's IDs.
    ForgetChannel,
    /// Remove the marker of a virtual channel.
    RemoveMarker,
    Done,
}

/// The step after one.
pub open spec fn discard_next(step: DiscardStep) -> DiscardStep {
    match step {
        DiscardStep::ReleaseFunding => DiscardStep::ForgetChannel,
        DiscardStep::ForgetChannel => DiscardStep::RemoveMarker,
        DiscardStep::RemoveMarker => DiscardStep::Done,
        DiscardStep::Done => DiscardStep::Done,
    }
}

/// Goes on after a step about a discarded funding, which starts with releasing what is locked.
pub fn advance_discarded(step: DiscardStep) -> (r: DiscardStep)
    ensures
        r == discard_next(step),
{
    match step {
        DiscardStep::ReleaseFunding => DiscardStep::ForgetChannel,
        DiscardStep::ForgetChannel => DiscardStep::RemoveMarker,
        DiscardStep::RemoveMarker => DiscardStep::Done,
        DiscardStep::Done => DiscardStep::Done,
    }
}

// ---------------------------------------------------------------------------------------------
// Channels that are ready
// ---------------------------------------------------------------------------------------------

/// Whether a second refresh follows the first one.
pub open spec fn is_refreshed_again(
    first: Result<(), String>,
    r: bool,
) -> bool {
    &&& r == (first is Ok)
}

/// Whether the wallet is refreshed once more, without syncing, after the first refresh of a channel
/// that became ready. A failure is never more than logged: the channel is ready all the same.
pub fn refresh_again(first: &Result<(), String>) -> (r: bool)
    ensures
        is_refreshed_again(*first, r),
{
    first.is_ok()
}

// ---------------------------------------------------------------------------------------------
// Forwarded payments
// ---------------------------------------------------------------------------------------------

/// What is to be done next about a forwarded payment.
#[derive(Debug)]
pub enum ForwardStep {
    /// Drop the pending records of the payment, inbound or outbound.
    ClearPending { inbound: bool },
    /// Read whether the next channel has RGB metadata.
    ReadNext,
    /// Take the amount out of the next channel.
    UpdateNext,
    /// Read whether the previous channel has RGB metadata.
    ReadPrevious,
    /// Add the amount to the previous channel.
    UpdatePrevious,
    /// Record the payment, as far as it belongs to a swap.
    Record,
    Done,
    /// Have the event delivered again.
    Replay(StoreError),
}

/// A forwarded payment.
#[derive(Debug)]
pub struct Forward {
    pub step: ForwardStep,
    /// The amount that left through the next channel.
    pub outbound_rgb: Option<u64>,
    /// The amount that came in through the previous one.
    pub inbound_rgb: Option<u64>,
}

/// What came of a step.
#[derive(Debug)]
pub enum ForwardReply {
    Done,
    Read(Result<(), StoreError>),
}

/// Whether a reply answers a step.
pub open spec fn forward_fits(step: ForwardStep, reply: ForwardReply) -> bool {
    match step {
        ForwardStep::ReadNext | ForwardStep::ReadPrevious => reply is Read,
        ForwardStep::Done | ForwardStep::Replay(_) => false,
        _ => reply is Done,
    }
}

/// The step once the next channel is dealt with.
pub open spec fn after_next(inbound_rgb: Option<u64>) -> ForwardStep {
    if inbound_rgb is Some {
        ForwardStep::ReadPrevious
    } else {
        ForwardStep::Record
    }
}

/// The step after a reply.
pub open spec fn forward_next(f: Forward, reply: ForwardReply) -> ForwardStep {
    match (f.step, reply) {
        (ForwardStep::ClearPending { inbound: true }, _) => ForwardStep::ClearPending {
            inbound: false,
        },
        (ForwardStep::ClearPending { inbound: false }, _) => if f.outbound_rgb is Some {
            ForwardStep::ReadNext
        } else {
            after_next(f.inbound_rgb)
        },
        (ForwardStep::ReadNext, ForwardReply::Read(read)) => match safe_update(read) {
            SafeUpdate::Apply => ForwardStep::UpdateNext,
            SafeUpdate::Skip => after_next(f.inbound_rgb),
            SafeUpdate::Fail(e) => ForwardStep::Replay(e),
        },
        (ForwardStep::UpdateNext, _) => after_next(f.inbound_rgb),
        (ForwardStep::ReadPrevious, ForwardReply::Read(read)) => match safe_update(read) {
            SafeUpdate::Apply => ForwardStep::UpdatePrevious,
            SafeUpdate::Skip => ForwardStep::Record,
            SafeUpdate::Fail(e) => ForwardStep::Replay(e),
        },
        (ForwardStep::UpdatePrevious, _) => ForwardStep::Record,
        (_, _) => ForwardStep::Done,
    }
}

fn step_after_next(inbound_rgb: Option<u64>) -> (r: ForwardStep)
    ensures
        r == after_next(inbound_rgb),
{
    if inbound_rgb.is_some() {
        ForwardStep::ReadPrevious
    } else {
        ForwardStep::Record
    }
}

/// Where a forwarded payment starts.
pub open spec fn forward_starts(
    outbound_rgb: Option<u64>,
    inbound_rgb: Option<u64>,
    r: Forward,
) -> bool {
    &&& r == (Forward {
                step: ForwardStep::ClearPending { inbound: true },
                outbound_rgb,
                inbound_rgb,
            })
}

impl Forward {
    /// Starts with a forwarded payment.
    pub fn payment_forwarded(outbound_rgb: Option<u64>, inbound_rgb: Option<u64>) -> (r: Self)
        ensures
            forward_starts(outbound_rgb, inbound_rgb, r),
    {
        Forward { step: ForwardStep::ClearPending { inbound: true }, outbound_rgb, inbound_rgb }
    }

    /// Takes the reply to the step that was done. A channel without RGB metadata is passed over;
    /// metadata that cannot be read has the event delivered again.
    pub fn advance(self, reply: ForwardReply) -> (r: Self)
        requires
            forward_fits(self.step, reply),
        ensures
            r == (Forward { step: forward_next(self, reply), ..self }),
    {
        let outbound_rgb = self.outbound_rgb;
        let inbound_rgb = self.inbound_rgb;
        let step = match (self.step, reply) {
            (ForwardStep::ClearPending { inbound }, _) => if inbound {
                ForwardStep::ClearPending { inbound: false }
            } else if outbound_rgb.is_some() {
                ForwardStep::ReadNext
            } else {
                step_after_next(inbound_rgb)
            },
            (ForwardStep::ReadNext, ForwardReply::Read(read)) => match safe_update_rgb_channel_amount(
                read,
            ) {
                SafeUpdate::Apply => ForwardStep::UpdateNext,
                SafeUpdate::Skip => step_after_next(inbound_rgb),
                SafeUpdate::Fail(e) => ForwardStep::Replay(e),
            },
            (ForwardStep::UpdateNext, _) => step_after_next(inbound_rgb),
            (ForwardStep::ReadPrevious, ForwardReply::Read(read)) => match safe_update_rgb_channel_amount(
                read,
            ) {
                SafeUpdate::Apply => ForwardStep::UpdatePrevious,
                SafeUpdate::Skip => ForwardStep::Record,
                SafeUpdate::Fail(e) => ForwardStep::Replay(e),
            },
            (ForwardStep::UpdatePrevious, _) => ForwardStep::Record,
            (_, _) => ForwardStep::Done,
        };
        Forward { step, outbound_rgb, inbound_rgb }
    }
}

/// A forwarded payment is only recorded once the balances of its channels were looked at, and an
/// amount that was forwarded is never passed over because metadata could not be read.
pub proof fn law_forwards_are_recorded_last(f: Forward, reply: ForwardReply)
    requires
        forward_fits(f.step, reply),
    ensures
        forward_next(f, reply) is Record ==> f.step is UpdatePrevious || (f.step is ReadPrevious && (
        reply matches ForwardReply::Read(Err(e)) && e.not_found)) || f.inbound_rgb is None,
        (reply matches ForwardReply::Read(Err(e)) && !e.not_found) ==> forward_next(
            f,
            reply,
        ) is Replay,
{
}

/// The step of a closing after a number of steps.
pub open spec fn close_after(start: CloseStep, draft: bool, n: nat) -> CloseStep
    decreases n,
{
    if n == 0 {
        start
    } else {
        close_next(close_after(start, draft, (n - 1) as nat), draft)
    }
}

/// The closing of any channel releases its funding, removes its tombstone and forgets it, in this order;
/// that of a funded one drops its consignment and what was staged before that; and where a draft went
/// with it both markers are removed after that. Then it is done.
pub proof fn law_closing_leaves_nothing_behind(start: ChannelClosed, funded: bool, draft: bool)
    requires
        closes_from(funded, start),
    ensures
        ({
            let base: nat = if funded {
                2
            } else {
                0
            };
            let end: nat = if draft {
                5
            } else {
                3
            };
            &&& funded ==> close_after(start.step, draft, 0) == CloseStep::RemoveConsignment
            &&& funded ==> close_after(start.step, draft, 1) == CloseStep::ForgetStaged
            &&& close_after(start.step, draft, base) == CloseStep::ReleaseFunding
            &&& close_after(start.step, draft, base + 1) == CloseStep::RemoveTombstone
            &&& close_after(start.step, draft, base + 2) == CloseStep::ForgetChannel
            &&& draft ==> close_after(start.step, draft, base + 3) == CloseStep::RemoveDraftMarker
            &&& draft ==> close_after(start.step, draft, base + 4) == CloseStep::RemoveMarker
            &&& close_after(start.step, draft, base + end) == CloseStep::Done
        }),
{
    reveal_with_fuel(close_after, 9);
}

/// A discarded funding is released before its channel is forgotten, and its marker goes last.
pub proof fn law_discarding_leaves_nothing_behind()
    ensures
        ({
            let second = discard_next(DiscardStep::ReleaseFunding);
            let third = discard_next(second);
            &&& second == DiscardStep::ForgetChannel
            &&& third == DiscardStep::RemoveMarker
            &&& discard_next(third) == DiscardStep::Done
            &&& discard_next(DiscardStep::Done) == DiscardStep::Done
        }),
{
}

/// The wallet is refreshed a second time exactly where the first refresh went through.
pub proof fn law_second_refresh_follows_a_good_first_one(first: Result<(), String>, r: bool)
    requires
        is_refreshed_again(first, r),
    ensures
        r <==> first is Ok,
{
}

/// A run of a forwarded payment: states, each of which follows from the one before by the reply to its
/// step.
pub open spec fn is_forward_run(states: Seq<Forward>, replies: Seq<ForwardReply>) -> bool {
    &&& states.len() == replies.len() + 1
    &&& forall|i: int|
        #![trigger replies[i]]
        0 <= i < replies.len() ==> forward_fits(states[i].step, replies[i]) && states[i + 1] == (
        Forward { step: forward_next(states[i], replies[i]), ..states[i] })
}

spec fn did(states: Seq<Forward>, n: int, step: ForwardStep) -> bool {
    exists|i: int| 0 <= i < n && (#[trigger] states[i]).step == step
}

spec fn looked(states: Seq<Forward>, replies: Seq<ForwardReply>, n: int, next: bool) -> bool {
    exists|i: int|
        0 <= i < n && (#[trigger] states[i]).step == (if next {
            ForwardStep::ReadNext
        } else {
            ForwardStep::ReadPrevious
        }) && (replies[i] matches ForwardReply::Read(read) && match read {
            Ok(_) => did(
                states,
                n,
                if next {
                    ForwardStep::UpdateNext
                } else {
                    ForwardStep::UpdatePrevious
                },
            ),
            Err(e) => e.not_found,
        })
}

spec fn read_well(states: Seq<Forward>, replies: Seq<ForwardReply>, n: int, next: bool) -> bool {
    exists|i: int|
        0 <= i < n && (#[trigger] states[i]).step == (if next {
            ForwardStep::ReadNext
        } else {
            ForwardStep::ReadPrevious
        }) && (replies[i] matches ForwardReply::Read(Ok(_)))
}

spec fn forward_progress(states: Seq<Forward>, replies: Seq<ForwardReply>, n: int) -> bool {
    let f = states[n];
    let cleared = did(states, n, ForwardStep::ClearPending { inbound: true }) && did(
        states,
        n,
        ForwardStep::ClearPending { inbound: false },
    );
    let next_done = f.outbound_rgb is Some ==> looked(states, replies, n, true);
    &&& f.outbound_rgb == states[0].outbound_rgb && f.inbound_rgb == states[0].inbound_rgb
    &&& match f.step {
        ForwardStep::ClearPending { inbound } => !inbound ==> did(
            states,
            n,
            ForwardStep::ClearPending { inbound: true },
        ),
        ForwardStep::ReadNext => cleared && f.outbound_rgb is Some,
        ForwardStep::UpdateNext => cleared && f.outbound_rgb is Some && read_well(
            states,
            replies,
            n,
            true,
        ),
        ForwardStep::ReadPrevious => cleared && next_done && f.inbound_rgb is Some,
        ForwardStep::UpdatePrevious => cleared && next_done && f.inbound_rgb is Some && read_well(
            states,
            replies,
            n,
            false,
        ),
        ForwardStep::Record => cleared && next_done && (f.inbound_rgb is Some ==> looked(
            states,
            replies,
            n,
            false,
        )),
        ForwardStep::Done => did(states, n, ForwardStep::Record),
        ForwardStep::Replay(e) => !e.not_found,
    }
}

proof fn lemma_looked(
    states: Seq<Forward>,
    replies: Seq<ForwardReply>,
    m: int,
    next: bool,
)
    requires
        m >= 0,
        looked(states, replies, m, next),
    ensures
        looked(states, replies, m + 1, next),
{
    let i = choose|i: int|
        0 <= i < m && (#[trigger] states[i]).step == (if next {
            ForwardStep::ReadNext
        } else {
            ForwardStep::ReadPrevious
        }) && (replies[i] matches ForwardReply::Read(read) && match read {
            Ok(_) => did(
                states,
                m,
                if next {
                    ForwardStep::UpdateNext
                } else {
                    ForwardStep::UpdatePrevious
                },
            ),
            Err(e) => e.not_found,
        });
    let update = if next {
        ForwardStep::UpdateNext
    } else {
        ForwardStep::UpdatePrevious
    };
    if did(states, m, update) {
        let j = choose|j: int| 0 <= j < m && (#[trigger] states[j]).step == update;
        assert(states[j].step == update);
        assert(did(states, m + 1, update));
    }
    assert(0 <= i < m + 1);
}

proof fn lemma_forward_progress(states: Seq<Forward>, replies: Seq<ForwardReply>, n: int)
    requires
        is_forward_run(states, replies),
        states[0].step == (ForwardStep::ClearPending { inbound: true }),
        0 <= n < states.len(),
    ensures
        forward_progress(states, replies, n),
    decreases n,
{
    if n > 0 {
        let m = n - 1;
        lemma_forward_progress(states, replies, m);
        let reply = replies[m];
        assert(states[m + 1] == (Forward { step: forward_next(states[m], reply), ..states[m] }));
        if looked(states, replies, m, true) {
            lemma_looked(states, replies, m, true);
        }
        if looked(states, replies, m, false) {
            lemma_looked(states, replies, m, false);
        }
        assert(did(states, n, states[m].step));
        match states[m].step {
            ForwardStep::UpdateNext => {
                let i = choose|i: int|
                    0 <= i < m && (#[trigger] states[i]).step == ForwardStep::ReadNext && (
                    replies[i] matches ForwardReply::Read(Ok(_)));
                assert(did(states, n, ForwardStep::UpdateNext));
                assert(states[i].step == ForwardStep::ReadNext);
                assert(looked(states, replies, n, true));
            },
            ForwardStep::UpdatePrevious => {
                let i = choose|i: int|
                    0 <= i < m && (#[trigger] states[i]).step == ForwardStep::ReadPrevious && (
                    replies[i] matches ForwardReply::Read(Ok(_)));
                assert(did(states, n, ForwardStep::UpdatePrevious));
                assert(states[i].step == ForwardStep::ReadPrevious);
                assert(looked(states, replies, n, false));
            },
            ForwardStep::ReadNext => {
                assert(states[m].step == ForwardStep::ReadNext);
            },
            ForwardStep::ReadPrevious => {
                assert(states[m].step == ForwardStep::ReadPrevious);
            },
            _ => {},
        }
    }
}

/// By the time a forwarded payment is done it was recorded, its pending records were dropped in both
/// directions, and each amount that was forwarded moved the balance of its channel, unless that channel
/// has none. Nothing is moved on a side that forwarded nothing.
pub proof fn law_forwards_move_both_balances(
    states: Seq<Forward>,
    replies: Seq<ForwardReply>,
    n: int,
    i: int,
)
    requires
        is_forward_run(states, replies),
        forward_starts(states[0].outbound_rgb, states[0].inbound_rgb, states[0]),
        0 <= i < n < states.len(),
        states[n].step is Done,
    ensures
        exists|k: int| 0 <= k < n && (#[trigger] states[k]).step is Record,
        exists|k: int|
            0 <= k < n && (#[trigger] states[k]).step == (ForwardStep::ClearPending { inbound: true }),
        exists|k: int|
            0 <= k < n && (#[trigger] states[k]).step == (ForwardStep::ClearPending { inbound: false }),
        states[0].outbound_rgb is Some ==> (exists|k: int|
            0 <= k < n && (#[trigger] states[k]).step is UpdateNext) || (exists|k: int|
            0 <= k < n && (#[trigger] states[k]).step is ReadNext && (
            replies[k] matches ForwardReply::Read(Err(e)) && e.not_found)),
        states[0].inbound_rgb is Some ==> (exists|k: int|
            0 <= k < n && (#[trigger] states[k]).step is UpdatePrevious) || (exists|k: int|
            0 <= k < n && (#[trigger] states[k]).step is ReadPrevious && (
            replies[k] matches ForwardReply::Read(Err(e)) && e.not_found)),
        states[i].step is UpdateNext ==> states[0].outbound_rgb is Some,
        states[i].step is UpdatePrevious ==> states[0].inbound_rgb is Some,
{
    lemma_forward_progress(states, replies, n);
    let r = choose|r: int| 0 <= r < n && (#[trigger] states[r]).step == ForwardStep::Record;
    lemma_forward_progress(states, replies, r);
    lemma_forward_progress(states, replies, i);
    let inbound = choose|k: int|
        0 <= k < r && (#[trigger] states[k]).step == (ForwardStep::ClearPending { inbound: true });
    let outbound = choose|k: int|
        0 <= k < r && (#[trigger] states[k]).step == (ForwardStep::ClearPending { inbound: false });
    assert(states[inbound].step == (ForwardStep::ClearPending { inbound: true }));
    assert(states[outbound].step == (ForwardStep::ClearPending { inbound: false }));
    if states[0].outbound_rgb is Some {
        assert(looked(states, replies, r, true));
        if did(states, r, ForwardStep::UpdateNext) {
            let k = choose|k: int| 0 <= k < r && (#[trigger] states[k]).step == ForwardStep::UpdateNext;
            assert(states[k].step is UpdateNext);
        }
    }
    if states[0].inbound_rgb is Some {
        assert(looked(states, replies, r, false));
        if did(states, r, ForwardStep::UpdatePrevious) {
            let k = choose|k: int|
                0 <= k < r && (#[trigger] states[k]).step == ForwardStep::UpdatePrevious;
            assert(states[k].step is UpdatePrevious);
        }
    }
}

} // verus!
