//! The order in which the fee of a closing channel is bumped: what is stored before what is sent.

use vstd::prelude::*;
use vstd::string::*;

use crate::cpfp::{
    child_in, child_of, constructing_outcome, forgets_package, is_plan, is_registration, is_update,
    package_unavailable_reason, remembers_package, same_keys, takes_over, text_of, tracks,
    unavailable_outcome, unique, Attempt, AttemptOutcome, AttemptPlan, ChannelCloseEvent,
    CpfpState, PackageTx, MAX_TRACKED_CPFP_ATTEMPTS_PER_NODE,
};
use crate::text::text;

verus! {

/// An event that asks for a fee bump.
#[derive(Debug)]
pub enum BumpEvent {
    ChannelClose(ChannelCloseEvent),
    /// Another output needs a fee; the Lightning library sees to it alone.
    Other,
}

/// What is to be done next.
#[derive(Debug)]
pub enum BumpStep {
    /// Leave the event to the Lightning library.
    Delegate,
    /// Store the table in which the attempt is registered.
    Register(Vec<Attempt>),
    /// Broadcast the commitment alone.
    BroadcastCommitment,
    /// Store that the package is under construction.
    WriteConstructing(Vec<Attempt>),
    /// Have the Lightning library build the package.
    Construct,
    /// Submit the package.
    Submit(Vec<PackageTx>),
    /// Store how the attempt went.
    WriteOutcome(Vec<Attempt>),
    Done(Result<(), String>),
}

/// What came of a step.
#[derive(Debug)]
pub enum BumpReply {
    Delegated,
    Written(Result<(), String>),
    Broadcast,
    /// The transactions that the Lightning library built, the commitment first.
    Built(Vec<PackageTx>),
    Submitted(Result<(), String>),
}

/// An attempt to bump the fee of a closing channel.
#[derive(Debug)]
pub struct Bump {
    pub event: BumpEvent,
    pub step: BumpStep,
}

/// Whether a reply can come of a step.
pub open spec fn bump_fits(step: BumpStep, reply: BumpReply) -> bool {
    match step {
        BumpStep::Delegate => reply is Delegated,
        BumpStep::Register(_)
        | BumpStep::WriteConstructing(_)
        | BumpStep::WriteOutcome(_) => reply is Written,
        BumpStep::BroadcastCommitment => reply is Broadcast,
        BumpStep::Construct => reply is Built,
        BumpStep::Submit(_) => reply is Submitted,
        BumpStep::Done(_) => false,
    }
}

/// The step that stores how an attempt went; a failure where the attempt is not tracked.
pub open spec fn stores_outcome(
    step: BumpStep,
    state: CpfpState,
    key: Seq<char>,
    status: Seq<char>,
    child: Option<Seq<char>>,
    error: Option<Seq<char>>,
    now: u64,
) -> bool {
    if tracks(state.records@, key) {
        step matches BumpStep::WriteOutcome(t) && is_update(
            t@,
            state.records@,
            key,
            status,
            child,
            error,
            now,
        )
    } else {
        is_missing(step)
    }
}

/// The failure for an attempt that is not tracked.
pub open spec fn is_missing(step: BumpStep) -> bool {
    step matches BumpStep::Done(Err(e)) && e@ == "CPFP record missing"@
}

/// Whether a step is the first one for an event.
pub open spec fn bump_starts(state: CpfpState, event: BumpEvent, now: u64, step: BumpStep) -> bool {
    match event {
        BumpEvent::Other => step is Delegate,
        BumpEvent::ChannelClose(event) => step matches BumpStep::Register(next) && is_registration(
            next@,
            state.records@,
            state.backend@,
            event,
            now,
        ),
    }
}

/// Whether a registered attempt goes on as planned.
pub open spec fn follows_plan(
    event: ChannelCloseEvent,
    registered: CpfpState,
    now: u64,
    step: BumpStep,
    after: CpfpState,
) -> bool {
    exists|plan: AttemptPlan|
        {
            &&& #[trigger] is_plan(
                registered,
                event.key(),
                event.package_target_feerate_sat_per_1000_weight,
                plan,
            )
            &&& match plan {
                AttemptPlan::BroadcastCommitment => step is BroadcastCommitment && after == registered,
                AttemptPlan::Resubmit(txs) => step == BumpStep::Submit(txs) && after == registered,
                AttemptPlan::Construct => {
                    &&& forgets_package(registered, after, event.key())
                    &&& (step matches BumpStep::WriteConstructing(t) && is_update(
                        t@,
                        after.records@,
                        event.key(),
                        "constructing"@,
                        None,
                        None,
                        now,
                    ))
                },
            }
        }
}

/// Whether a step and a state follow from a reply.
pub open spec fn bump_next(
    event: ChannelCloseEvent,
    step: BumpStep,
    before: CpfpState,
    reply: BumpReply,
    now: u64,
    next: BumpStep,
    after: CpfpState,
) -> bool {
    let key = event.key();
    match (step, reply) {
        (BumpStep::Register(table), BumpReply::Written(written)) => match written {
            Err(e) => next == BumpStep::Done(Err(e)) && after == before,
            Ok(_) => exists|registered: CpfpState| #[trigger]
                takes_over(before, registered, event, table) && follows_plan(
                    event,
                    registered,
                    now,
                    next,
                    after,
                ),
        },
        (BumpStep::BroadcastCommitment, _) => after == before && stores_outcome(
            next,
            before,
            key,
            "unavailable"@,
            None,
            Some(package_unavailable_reason()),
            now,
        ),
        (BumpStep::WriteConstructing(table), BumpReply::Written(written)) => match written {
            Err(e) => next == BumpStep::Done(Err(e)) && after == before,
            Ok(_) => next is Construct && after == (CpfpState { records: table, ..before }),
        },
        (BumpStep::Construct, BumpReply::Built(txs)) => {
            &&& remembers_package(
                before,
                after,
                key,
                event.package_target_feerate_sat_per_1000_weight,
                txs@,
            )
            &&& if txs@.len() > 0 {
                next == BumpStep::Submit(txs)
            } else {
                stores_outcome(
                    next,
                    before,
                    key,
                    "retryable_failure"@,
                    None,
                    Some("LDK did not construct a transaction for the CPFP event"@),
                    now,
                )
            }
        },
        (BumpStep::Submit(txs), BumpReply::Submitted(result)) => match result {
            Ok(_) => forgets_package(before, after, key) && stores_outcome(
                next,
                before,
                key,
                "accepted"@,
                child_in(txs@),
                None,
                now,
            ),
            Err(e) => after == before && stores_outcome(
                next,
                before,
                key,
                "retryable_failure"@,
                child_in(txs@),
                Some(e@),
                now,
            ),
        },
        (BumpStep::WriteOutcome(table), BumpReply::Written(written)) => {
            &&& next == BumpStep::Done(written)
            &&& after == (match written {
                Ok(_) => CpfpState { records: table, ..before },
                Err(_) => before,
            })
        },
        _ => next is Done && next->Done_0 is Ok && after == before,
    }
}

impl Bump {
    /// Whether an attempt can go on with a state: only a channel close is more than passed on, and what
    /// is being stored was made from the state.
    pub open spec fn wf(self, state: CpfpState) -> bool {
        &&& state.wf()
        &&& self.event is Other ==> self.step is Delegate || self.step is Done
        &&& match self.step {
            BumpStep::Delegate => self.event is Other,
            BumpStep::Register(next) => unique(next@) && next@.len()
                <= MAX_TRACKED_CPFP_ATTEMPTS_PER_NODE && tracks(
                next@,
                self.event->ChannelClose_0.key(),
            ),
            BumpStep::WriteConstructing(next) => unique(next@) && same_keys(next@, state.records@),
            BumpStep::WriteOutcome(next) => unique(next@) && same_keys(next@, state.records@),
            _ => true,
        }
    }

    /// Takes the reply to the step that was done.
    pub fn advance(self, state: &mut CpfpState, reply: BumpReply, now: u64) -> (r: Self)
        requires
            self.wf(*old(state)),
            bump_fits(self.step, reply),
        ensures
            r.wf(*final(state)),
            r.event == self.event,
            match self.event {
                BumpEvent::ChannelClose(event) => bump_next(
                    event,
                    self.step,
                    *old(state),
                    reply,
                    now,
                    r.step,
                    *final(state),
                ),
                BumpEvent::Other => r.step == BumpStep::Done(Ok(())) && *final(state) == *old(
                    state,
                ),
            },
    {
        match self.event {
            BumpEvent::Other => Bump { event: self.event, step: BumpStep::Done(Ok(())) },
            BumpEvent::ChannelClose(event) => {
                let step = next_step(&event, self.step, state, reply, now);
                Bump { event: BumpEvent::ChannelClose(event), step }
            },
        }
    }
}

fn next_step(
    event: &ChannelCloseEvent,
    step: BumpStep,
    state: &mut CpfpState,
    reply: BumpReply,
    now: u64,
) -> (r: BumpStep)
    requires
        (Bump { event: BumpEvent::ChannelClose(*event), step }).wf(*old(state)),
        bump_fits(step, reply),
    ensures
        (Bump { event: BumpEvent::ChannelClose(*event), step: r }).wf(*final(state)),
        bump_next(*event, step, *old(state), reply, now, r, *final(state)),
{
    let key = event.attempt();
    let target: u32 = event.package_target_feerate_sat_per_1000_weight;
    let ghost before = *state;
    match (step, reply) {
        (BumpStep::Register(next), BumpReply::Written(written)) => {
            match state.register_event(event, next, written) {
                Err(e) => BumpStep::Done(Err(e)),
                Ok(_) => {
                    assert(takes_over(before, *state, *event, next));
                    after_registration(event, key.as_str(), state, now)
                },
            }
        },
        (BumpStep::BroadcastCommitment, _) => store_outcome(
            state,
            key.as_str(),
            unavailable_outcome(),
            now,
        ),
        (BumpStep::WriteConstructing(next), BumpReply::Written(written)) => {
            match state.update(next, written) {
                Err(e) => BumpStep::Done(Err(e)),
                Ok(_) => BumpStep::Construct,
            }
        },
        (BumpStep::Construct, BumpReply::Built(txs)) => {
            match state.package_built(key.as_str(), target, &txs) {
                Ok(_) => BumpStep::Submit(txs),
                Err(e) => {
                    let outcome = state.package_submitted(key.as_str(), None, Err(e));
                    store_outcome(state, key.as_str(), outcome, now)
                },
            }
        },
        (BumpStep::Submit(txs), BumpReply::Submitted(result)) => {
            let outcome = state.package_submitted(key.as_str(), child_of(&txs), result);
            store_outcome(state, key.as_str(), outcome, now)
        },
        (BumpStep::WriteOutcome(next), BumpReply::Written(written)) => {
            BumpStep::Done(state.update(next, written))
        },
        _ => BumpStep::Done(Ok(())),
    }
}

fn after_registration(
    event: &ChannelCloseEvent,
    key: &str,
    state: &mut CpfpState,
    now: u64,
) -> (r: BumpStep)
    requires
        old(state).wf(),
        key@ == event.key(),
        tracks(old(state).records@, key@),
    ensures
        (Bump { event: BumpEvent::ChannelClose(*event), step: r }).wf(*final(state)),
        follows_plan(*event, *old(state), now, r, *final(state)),
{
    let target: u32 = event.package_target_feerate_sat_per_1000_weight;
    let plan = state.plan_attempt(key, target);
    assert(is_plan(*state, event.key(), target, plan));
    match plan {
        AttemptPlan::BroadcastCommitment => BumpStep::BroadcastCommitment,
        AttemptPlan::Resubmit(txs) => BumpStep::Submit(txs),
        AttemptPlan::Construct => {
            state.forget_package(key);
            let outcome = constructing_outcome();
            match state.propose_update(
                key,
                outcome.status,
                outcome.child_txid,
                outcome.error,
                now,
            ) {
                Some(next) => BumpStep::WriteConstructing(next),
                None => missing(),
            }
        },
    }
}

fn missing() -> (r: BumpStep)
    ensures
        is_missing(r),
{
    BumpStep::Done(Err(text("CPFP record missing")))
}

fn store_outcome(state: &CpfpState, key: &str, outcome: AttemptOutcome, now: u64) -> (r: BumpStep)
    requires
        state.wf(),
    ensures
        stores_outcome(
            r,
            *state,
            key@,
            outcome.status@,
            text_of(outcome.child_txid),
            text_of(outcome.error),
            now,
        ),
        r matches BumpStep::WriteOutcome(t) ==> unique(t@) && same_keys(t@, state.records@),
{
    match state.propose_update(key, outcome.status, outcome.child_txid, outcome.error, now) {
        Some(next) => BumpStep::WriteOutcome(next),
        None => missing(),
    }
}

impl CpfpState {
    /// Begins an attempt.
    pub fn handle_event(&self, event: BumpEvent, now: u64) -> (r: Bump)
        requires
            self.wf(),
        ensures
            r.wf(*self),
            r.event == event,
            bump_starts(*self, event, now, r.step),
    {
        match event {
            BumpEvent::Other => Bump { event, step: BumpStep::Delegate },
            BumpEvent::ChannelClose(event) => {
                let next = self.propose_registration(&event, now);
                Bump { event: BumpEvent::ChannelClose(event), step: BumpStep::Register(next) }
            },
        }
    }
}

// ---------------------------------------------------------------------------------------------
// Laws
// ---------------------------------------------------------------------------------------------

/// Whether a step comes after the attempt was registered.
pub open spec fn is_under_way(step: BumpStep) -> bool {
    !(step is Delegate || step is Register || step is Done)
}

/// How far an attempt has got.
pub open spec fn progress(step: BumpStep) -> nat {
    match step {
        BumpStep::Delegate => 0,
        BumpStep::Register(_) => 0,
        BumpStep::BroadcastCommitment => 1,
        BumpStep::WriteConstructing(_) => 1,
        BumpStep::Construct => 2,
        BumpStep::Submit(_) => 3,
        BumpStep::WriteOutcome(_) => 4,
        BumpStep::Done(_) => 5,
    }
}

/// Nothing is broadcast, built or submitted before the attempt is stored: an attempt begins with
/// storing its record, and only gets under way when that went through. Then the record is the one that
/// was stored.
pub proof fn law_attempts_are_stored_first(
    state: CpfpState,
    event: ChannelCloseEvent,
    started: u64,
    first: BumpStep,
    step: BumpStep,
    before: CpfpState,
    reply: BumpReply,
    now: u64,
    next: BumpStep,
    after: CpfpState,
)
    requires
        bump_starts(state, BumpEvent::ChannelClose(event), started, first),
        (Bump { event: BumpEvent::ChannelClose(event), step }).wf(before),
        bump_fits(step, reply),
        bump_next(event, step, before, reply, now, next, after),
    ensures
        !is_under_way(first),
        is_under_way(next) && !is_under_way(step) ==> (step matches BumpStep::Register(table)
            && (reply matches BumpReply::Written(Ok(_))) && after.records == table && tracks(
            after.records@,
            event.key(),
        )),
        step is Register && (reply matches BumpReply::Written(Err(_))) ==> next is Done && after
            == before,
{
}

/// A package is only built once it is stored that it is being built. What is stored for that is the
/// registered attempt, marked as under construction, without a child or an error.
pub proof fn law_construction_is_stored_first(
    event: ChannelCloseEvent,
    step: BumpStep,
    before: CpfpState,
    reply: BumpReply,
    now: u64,
    next: BumpStep,
    after: CpfpState,
)
    requires
        (Bump { event: BumpEvent::ChannelClose(event), step }).wf(before),
        bump_fits(step, reply),
        bump_next(event, step, before, reply, now, next, after),
    ensures
        next is Construct ==> (step matches BumpStep::WriteConstructing(table) && (
        reply matches BumpReply::Written(Ok(_))) && after.records == table),
        next matches BumpStep::WriteConstructing(table) ==> (step matches BumpStep::Register(
            registered,
        ) && (reply matches BumpReply::Written(Ok(_))) && is_update(
            table@,
            registered@,
            event.key(),
            "constructing"@,
            None,
            None,
            now,
        )),
{
}

/// A package is never forgotten before the backend accepted it: while an attempt is under way, what is
/// at hand only changes with what is built, or goes with an accepted submission.
pub proof fn law_packages_stay_until_accepted(
    event: ChannelCloseEvent,
    step: BumpStep,
    before: CpfpState,
    reply: BumpReply,
    now: u64,
    next: BumpStep,
    after: CpfpState,
)
    requires
        is_under_way(step),
        bump_fits(step, reply),
        bump_next(event, step, before, reply, now, next, after),
        after.pending_packages != before.pending_packages,
    ensures
        step is Construct || (reply matches BumpReply::Submitted(Ok(_))),
{
}

/// Every attempt comes to an end.
pub proof fn law_attempts_come_to_an_end(
    event: ChannelCloseEvent,
    step: BumpStep,
    before: CpfpState,
    reply: BumpReply,
    now: u64,
    next: BumpStep,
    after: CpfpState,
)
    requires
        bump_fits(step, reply),
        bump_next(event, step, before, reply, now, next, after),
    ensures
        progress(next) > progress(step),
{
}

/// A stored attempt goes on by what the backend can do: without packages the commitment is broadcast
/// alone; with them a package at hand for the target is submitted, and otherwise one is built.
pub proof fn law_stored_attempts_go_on_by_the_backend(
    event: ChannelCloseEvent,
    table: Vec<Attempt>,
    before: CpfpState,
    now: u64,
    next: BumpStep,
    after: CpfpState,
)
    requires
        bump_next(
            event,
            BumpStep::Register(table),
            before,
            BumpReply::Written(Ok(())),
            now,
            next,
            after,
        ),
    ensures
        !before.package_capable ==> next is BroadcastCommitment,
        before.package_capable ==> next is Submit || next is WriteConstructing,
        before.package_capable && before.pending_packages@.len() == 0 ==> next is WriteConstructing,
        after.backend == before.backend && after.package_capable == before.package_capable,
{
    reveal(Seq::filter);
}

/// How an attempt went is stored as it went: an accepted package as accepted with its child, a refused
/// one with the error as one to retry, a package that was not built as one to retry, and a commitment
/// that was broadcast alone as unavailable. Nothing is left out of what was built.
pub proof fn law_outcomes_are_stored_as_they_were(
    event: ChannelCloseEvent,
    step: BumpStep,
    before: CpfpState,
    reply: BumpReply,
    now: u64,
    next: BumpStep,
    after: CpfpState,
    i: int,
)
    requires
        (Bump { event: BumpEvent::ChannelClose(event), step }).wf(before),
        bump_fits(step, reply),
        bump_next(event, step, before, reply, now, next, after),
        0 <= i < before.records@.len(),
        before.records@[i].0@ == event.key(),
    ensures
        (step matches BumpStep::Submit(txs) && (reply matches BumpReply::Submitted(Ok(_)))) ==> (
        next matches BumpStep::WriteOutcome(t) && t@[i].1.status@ == "accepted"@
            && t@[i].1.last_error is None && text_of(t@[i].1.child_txid) == child_in(
            step->Submit_0@,
        )),
        (step is Submit && (reply matches BumpReply::Submitted(Err(e)))) ==> (
        next matches BumpStep::WriteOutcome(t) && t@[i].1.status@ == "retryable_failure"@ && text_of(
            t@[i].1.last_error,
        ) == Some(reply->Submitted_0->Err_0@)),
        (step is Construct && (reply matches BumpReply::Built(txs) && txs@.len() > 0)) ==> next
            == BumpStep::Submit(reply->Built_0),
        (step is Construct && (reply matches BumpReply::Built(txs) && txs@.len() == 0)) ==> (
        next matches BumpStep::WriteOutcome(t) && t@[i].1.status@ == "retryable_failure"@),
        step is BroadcastCommitment ==> (next matches BumpStep::WriteOutcome(t) && t@[i].1.status@
            == "unavailable"@ && t@[i].1.child_txid is None && t@[i].1.last_error is Some),
        (step matches BumpStep::WriteOutcome(t) && (reply matches BumpReply::Written(Ok(_))))
            ==> after.records == step->WriteOutcome_0 && (next matches BumpStep::Done(Ok(_))),
        (step is WriteOutcome && (reply matches BumpReply::Written(Err(_)))) ==> after == before && (
        next matches BumpStep::Done(Err(_))),
        (step is WriteConstructing && (reply matches BumpReply::Written(Ok(_)))) ==> next is Construct,
        (step is WriteConstructing && (reply matches BumpReply::Written(Err(_)))) ==> after == before
            && (next matches BumpStep::Done(Err(_))),
{
    assert(tracks(before.records@, event.key()));
    lemma_key_place(before.records@, event.key(), i);
}

proof fn lemma_key_place(s: Seq<Attempt>, key: Seq<char>, i: int)
    requires
        unique(s),
        0 <= i < s.len(),
        s[i].0@ == key,
    ensures
        crate::cpfp::index_of(s, key) == i,
    decreases s.len(),
{
    if s[0].0@ != key {
        let rest = s.drop_first();
        assert forall|a: int, b: int| 0 <= a < b < rest.len() implies (#[trigger] rest[a]).0@ != (
        #[trigger] rest[b]).0@ by {
            assert(s[a + 1].0@ != s[b + 1].0@);
        }
        assert(rest[i - 1] == s[i]);
        lemma_key_place(rest, key, i - 1);
    } else if i > 0 {
        assert(s[0].0@ != s[i].0@);
    }
}

} // verus!
