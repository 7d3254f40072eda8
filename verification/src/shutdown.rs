//! Stopping the node, and handing its remote store over.

use vstd::prelude::*;
use vstd::string::*;

use crate::app_state::AppState;

verus! {

/// How long the background processor may take for its last writes, in milliseconds.
pub const BP_SHUTDOWN_FLUSH_TIMEOUT_MS: u64 = 30_000;

/// How long draining and stopping the stores may take in all, in milliseconds.
pub const VSS_TEARDOWN_TIMEOUT_MS: u64 = 30_000;

/// How long the last drain of queued writes may take of that, in milliseconds.
pub const VSS_TEARDOWN_FLUSH_WINDOW_MS: u64 = 10_000;

/// How long handing the fence over may take, in milliseconds.
pub const VSS_FENCE_RELEASE_TIMEOUT_MS: u64 = 10_000;

/// How long the peer port may take to become free, in milliseconds.
pub const PORT_RELEASE_TIMEOUT_MS: u64 = 10_000;

// ---------------------------------------------------------------------------------------------
// The background services
// ---------------------------------------------------------------------------------------------

/// How the background processor came to its end.
#[derive(Debug)]
pub enum ProcessorExit {
    Clean,
    /// It returned an error.
    Failed(String),
    /// Its task panicked or was cancelled.
    Lost(String),
}

/// What is logged, as an error, of the background processor's end: nothing where it ended cleanly.
pub fn log_bp_shutdown_result(exit: &ProcessorExit) -> (r: Option<&'static str>)
    ensures
        match exit {
            ProcessorExit::Clean => r is None,
            ProcessorExit::Failed(_) => r is Some && r->0@
                == "background processor exited with error during shutdown"@,
            ProcessorExit::Lost(_) => r is Some && r->0@
                == "background processor task join failed"@,
        },
{
    match exit {
        ProcessorExit::Clean => None,
        ProcessorExit::Failed(_) => Some("background processor exited with error during shutdown"),
        ProcessorExit::Lost(_) => Some("background processor task join failed"),
    }
}

/// What is done to stop the background services.
#[derive(Clone, Copy, Debug, PartialEq, Eq, Structural)]
pub struct StopOrders {
    /// Raise the stop flag, stop the gossip sync and disconnect every peer.
    pub stop: bool,
    /// Tell the background processor to end.
    pub signal_exit: bool,
    /// Wait for the background processor.
    pub join: bool,
}

/// How the background services are stopped.
pub open spec fn stop_orders(running: bool, processor_gone: bool, has_handle: bool) -> StopOrders {
    StopOrders {
        stop: running,
        signal_exit: running && !processor_gone,
        join: running && !processor_gone && has_handle,
    }
}

impl AppState {
    /// Decides how the background services are stopped. A processor that is gone is neither told to end
    /// nor waited for.
    pub fn stop_ldk(&self, processor_gone: bool, has_handle: bool) -> (r: StopOrders)
        ensures
            r == stop_orders(self.services_running, processor_gone, has_handle),
    {
        StopOrders {
            stop: self.services_running,
            signal_exit: self.services_running && !processor_gone,
            join: self.services_running && !processor_gone && has_handle,
        }
    }
}

// ---------------------------------------------------------------------------------------------
// The stores
// ---------------------------------------------------------------------------------------------

/// How far the teardown of the stores got.
#[derive(Clone, Copy, Debug, PartialEq, Eq, Structural)]
pub enum VssTeardown {
    /// Everything finished: no further write to the remote store can begin.
    Complete,
    /// Something was given up: a write may still land.
    Abandoned,
}

/// What became of a task with a time limit.
#[derive(Clone, Copy, Debug, PartialEq, Eq, Structural)]
pub enum TaskEnd {
    Finished,
    Failed,
    TimedOut,
}

/// What is to be done next to tear the stores down.
#[derive(Clone, Copy, Debug, PartialEq, Eq, Structural)]
pub enum TeardownStep {
    /// Drain the queued writes until a point in time; wait no longer than the given time.
    Flush { until_ms: u64, within_ms: u64 },
    /// Stop the store; wait no longer than the given time.
    Stop { within_ms: u64 },
    /// Make the monitors' retries give up.
    StopMonitors(VssTeardown),
    Done(VssTeardown),
}

/// What came of a step.
#[derive(Clone, Copy, Debug, PartialEq, Eq, Structural)]
pub enum TeardownReply {
    Task { end: TaskEnd, now_ms: u64 },
    MonitorsStopped,
}

/// The teardown of the stores.
#[derive(Clone, Copy, Debug, PartialEq, Eq, Structural)]
pub struct Teardown {
    pub step: TeardownStep,
    pub deadline_ms: u64,
}

/// The time left until a point, none after it.
pub open spec fn remaining(deadline_ms: u64, now_ms: u64) -> u64 {
    if now_ms < deadline_ms {
        (deadline_ms - now_ms) as u64
    } else {
        0
    }
}

/// The earlier of two points in time.
pub open spec fn earlier(a: int, b: int) -> int {
    if a < b {
        a
    } else {
        b
    }
}

/// Whether a reply answers a step.
pub open spec fn teardown_fits(step: TeardownStep, reply: TeardownReply) -> bool {
    match step {
        TeardownStep::Flush { .. } | TeardownStep::Stop { .. } => reply is Task,
        TeardownStep::StopMonitors(_) => reply is MonitorsStopped,
        TeardownStep::Done(_) => false,
    }
}

/// What a reply makes of the teardown.
pub open spec fn teardown_next(t: Teardown, reply: TeardownReply) -> Teardown {
    let step = match (t.step, reply) {
        (TeardownStep::Flush { .. }, TeardownReply::Task { end, now_ms }) => if end
            == TaskEnd::Finished {
            TeardownStep::Stop { within_ms: remaining(t.deadline_ms, now_ms) }
        } else {
            TeardownStep::StopMonitors(VssTeardown::Abandoned)
        },
        (TeardownStep::Stop { .. }, TeardownReply::Task { end, .. }) => TeardownStep::StopMonitors(
            if end == TaskEnd::Finished {
                VssTeardown::Complete
            } else {
                VssTeardown::Abandoned
            },
        ),
        (TeardownStep::StopMonitors(outcome), _) => TeardownStep::Done(outcome),
        _ => TeardownStep::Done(VssTeardown::Abandoned),
    };
    Teardown { step, deadline_ms: t.deadline_ms }
}

fn time_left(deadline_ms: u64, now_ms: u64) -> (r: u64)
    ensures
        r == remaining(deadline_ms, now_ms),
{
    if now_ms < deadline_ms {
        deadline_ms - now_ms
    } else {
        0
    }
}

/// The start of draining and stopping the stores.
pub open spec fn teardown_start(deadline_ms: u64, now_ms: u64) -> Teardown {
    Teardown {
        step: TeardownStep::Flush {
            until_ms: earlier(
                deadline_ms as int,
                now_ms + VSS_TEARDOWN_FLUSH_WINDOW_MS,
            ) as u64,
            within_ms: remaining(deadline_ms, now_ms),
        },
        deadline_ms,
    }
}

impl Teardown {
    /// Starts draining and stopping the stores; every step is bounded by the deadline.
    pub fn stop_vss_stores(deadline_ms: u64, now_ms: u64) -> (r: Self)
        requires
            now_ms + VSS_TEARDOWN_FLUSH_WINDOW_MS <= u64::MAX,
        ensures
            r == teardown_start(deadline_ms, now_ms),
    {
        let window: u64 = now_ms + VSS_TEARDOWN_FLUSH_WINDOW_MS;
        let until_ms: u64 = if deadline_ms < window {
            deadline_ms
        } else {
            window
        };
        let within_ms = time_left(deadline_ms, now_ms);
        Teardown { step: TeardownStep::Flush { until_ms, within_ms }, deadline_ms }
    }

    /// Takes the reply to the step that was done.
    pub fn advance(self, reply: TeardownReply) -> (r: Self)
        requires
            teardown_fits(self.step, reply),
        ensures
            r == teardown_next(self, reply),
    {
        let step = match (self.step, reply) {
            (TeardownStep::Flush { .. }, TeardownReply::Task { end, now_ms }) => match end {
                TaskEnd::Finished => TeardownStep::Stop {
                    within_ms: time_left(self.deadline_ms, now_ms),
                },
                _ => TeardownStep::StopMonitors(VssTeardown::Abandoned),
            },
            (TeardownStep::Stop { .. }, TeardownReply::Task { end, .. }) => match end {
                TaskEnd::Finished => TeardownStep::StopMonitors(VssTeardown::Complete),
                _ => TeardownStep::StopMonitors(VssTeardown::Abandoned),
            },
            (TeardownStep::StopMonitors(outcome), _) => TeardownStep::Done(outcome),
            _ => TeardownStep::Done(VssTeardown::Abandoned),
        };
        Teardown { step, deadline_ms: self.deadline_ms }
    }
}

/// Whether the fence is given up: only after a complete teardown, since a write still in flight could
/// land on a store that another instance has taken over.
pub fn release_vss_fence(teardown: VssTeardown) -> (r: bool)
    ensures
        r == (teardown == VssTeardown::Complete),
{
    match teardown {
        VssTeardown::Complete => true,
        VssTeardown::Abandoned => false,
    }
}

/// A teardown only counts as complete where the stop finished, and it never ends before the monitors'
/// retries were made to give up.
pub proof fn law_complete_teardowns_finished_everything(t: Teardown, reply: TeardownReply)
    requires
        teardown_fits(t.step, reply),
    ensures
        teardown_next(t, reply).step == TeardownStep::StopMonitors(VssTeardown::Complete) ==> t.step is Stop
            && (reply matches TeardownReply::Task { end, .. } && end == TaskEnd::Finished),
        teardown_next(t, reply).step is Stop ==> t.step is Flush && (reply
            matches TeardownReply::Task { end, .. } && end == TaskEnd::Finished),
        teardown_next(t, reply).step matches TeardownStep::Done(outcome) ==> t.step
            == TeardownStep::StopMonitors(outcome),
{
}

// ---------------------------------------------------------------------------------------------
// The whole shutdown
// ---------------------------------------------------------------------------------------------

/// What is to be done next to stop the node.
#[derive(Clone, Copy, Debug, PartialEq, Eq, Structural)]
pub enum StopStep {
    /// Stop the background services.
    StopServices,
    /// Wait for the background processor, with a time limit.
    Join,
    /// Make the monitors' retries give up, since the last writes took too long.
    AbortRetries,
    /// Wait for the background processor, however long it takes.
    AwaitEnd,
    /// Tear the stores down.
    TearDown,
    /// Give the fence up, with a time limit.
    ReleaseFence,
    /// Connect to the peer port, so that its listener looks at the stop flag.
    PokePort,
    /// Wait a second, then see whether the peer port is free.
    AwaitPort,
    /// The node has stopped, and the peer port is free or still taken.
    Done { port_free: bool },
}

/// What came of a step.
#[derive(Clone, Copy, Debug, PartialEq, Eq, Structural)]
pub enum StopReply {
    /// The services were told to stop; whether the processor is waited for.
    Stopped { join: bool },
    /// The processor ended.
    Ended,
    TimedOut,
    Aborted,
    TornDown(VssTeardown),
    /// The fence was given up, or could not be.
    FenceReleased,
    Poked,
    /// Whether the port is free, and how long it has been waited for.
    Port { free: bool, elapsed_ms: u64 },
}

/// A shutdown.
#[derive(Clone, Copy, Debug, PartialEq, Eq, Structural)]
pub struct Shutdown {
    pub step: StopStep,
    /// Whether the node was unlocked, so that it has stores.
    pub stores: bool,
}

/// Whether a reply answers a step.
pub open spec fn stop_fits(step: StopStep, reply: StopReply) -> bool {
    match step {
        StopStep::StopServices => reply is Stopped,
        StopStep::Join => reply is Ended || reply is TimedOut,
        StopStep::AbortRetries => reply is Aborted,
        StopStep::AwaitEnd => reply is Ended,
        StopStep::TearDown => reply is TornDown,
        StopStep::ReleaseFence => reply is FenceReleased,
        StopStep::PokePort => reply is Poked,
        StopStep::AwaitPort => reply is Port,
        StopStep::Done { .. } => false,
    }
}

/// The step once the background processor is out of the way.
pub open spec fn after_processor(stores: bool) -> StopStep {
    if stores {
        StopStep::TearDown
    } else {
        StopStep::PokePort
    }
}

/// The step after a reply.
pub open spec fn stop_next(step: StopStep, stores: bool, reply: StopReply) -> StopStep {
    match (step, reply) {
        (StopStep::StopServices, StopReply::Stopped { join }) => if join {
            StopStep::Join
        } else {
            after_processor(stores)
        },
        (StopStep::Join, StopReply::TimedOut) => if stores {
            StopStep::AbortRetries
        } else {
            StopStep::AwaitEnd
        },
        (StopStep::Join, _) => after_processor(stores),
        (StopStep::AbortRetries, _) => StopStep::AwaitEnd,
        (StopStep::AwaitEnd, _) => after_processor(stores),
        (StopStep::TearDown, StopReply::TornDown(VssTeardown::Complete)) => StopStep::ReleaseFence,
        (StopStep::TearDown, _) => StopStep::PokePort,
        (StopStep::ReleaseFence, _) => StopStep::PokePort,
        (StopStep::PokePort, _) => StopStep::AwaitPort,
        (StopStep::AwaitPort, StopReply::Port { free, elapsed_ms }) => if free {
            StopStep::Done { port_free: true }
        } else if elapsed_ms > PORT_RELEASE_TIMEOUT_MS {
            StopStep::Done { port_free: false }
        } else {
            StopStep::AwaitPort
        },
        _ => step,
    }
}

fn step_after_processor(stores: bool) -> (r: StopStep)
    ensures
        r == after_processor(stores),
{
    if stores {
        StopStep::TearDown
    } else {
        StopStep::PokePort
    }
}

impl Shutdown {
    /// Starts stopping the node.
    pub fn stop_ldk(stores: bool) -> (r: Self)
        ensures
            r == (Shutdown { step: StopStep::StopServices, stores }),
    {
        Shutdown { step: StopStep::StopServices, stores }
    }

    /// Takes the reply to the step that was done.
    pub fn advance(self, reply: StopReply) -> (r: Self)
        requires
            stop_fits(self.step, reply),
        ensures
            r.stores == self.stores,
            r.step == stop_next(self.step, self.stores, reply),
    {
        let step = match (self.step, reply) {
            (StopStep::StopServices, StopReply::Stopped { join }) => if join {
                StopStep::Join
            } else {
                step_after_processor(self.stores)
            },
            (StopStep::Join, StopReply::TimedOut) => if self.stores {
                StopStep::AbortRetries
            } else {
                StopStep::AwaitEnd
            },
            (StopStep::Join, _) => step_after_processor(self.stores),
            (StopStep::AbortRetries, _) => StopStep::AwaitEnd,
            (StopStep::AwaitEnd, _) => step_after_processor(self.stores),
            (StopStep::TearDown, StopReply::TornDown(teardown)) => if release_vss_fence(teardown) {
                StopStep::ReleaseFence
            } else {
                StopStep::PokePort
            },
            (StopStep::ReleaseFence, _) => StopStep::PokePort,
            (StopStep::PokePort, _) => StopStep::AwaitPort,
            (StopStep::AwaitPort, StopReply::Port { free, elapsed_ms }) => if free {
                StopStep::Done { port_free: true }
            } else if elapsed_ms > PORT_RELEASE_TIMEOUT_MS {
                StopStep::Done { port_free: false }
            } else {
                StopStep::AwaitPort
            },
            (step, _) => step,
        };
        Shutdown { step, stores: self.stores }
    }
}

/// The fence is only given up once the teardown of the stores is complete.
pub proof fn law_fence_outlives_writes_in_flight(step: StopStep, stores: bool, reply: StopReply)
    requires
        stop_fits(step, reply),
        stop_next(step, stores, reply) == StopStep::ReleaseFence,
    ensures
        step == StopStep::TearDown,
        reply == StopReply::TornDown(VssTeardown::Complete),
{
}

/// The stores are only torn down once the background processor has ended, or was not running.
pub proof fn law_stores_outlive_the_processor(step: StopStep, stores: bool, reply: StopReply)
    requires
        stop_fits(step, reply),
        stop_next(step, stores, reply) == StopStep::TearDown,
    ensures
        stores,
        reply == StopReply::Ended || reply == (StopReply::Stopped { join: false }),
{
}

/// Services that run are stopped; their processor is told to end exactly where it is there, and waited
/// for only once it was told.
pub proof fn law_processors_are_told_before_they_are_awaited(
    running: bool,
    processor_gone: bool,
    has_handle: bool,
)
    ensures
        ({
            let orders = stop_orders(running, processor_gone, has_handle);
            &&& orders.stop <==> running
            &&& orders.join ==> orders.signal_exit && has_handle
            &&& orders.signal_exit ==> orders.stop && !processor_gone
            &&& running && !processor_gone ==> orders.signal_exit && (orders.join <==> has_handle)
        }),
{
}

/// Draining ends by the deadline and within its window, and what is left of the time is what the wait is
/// given: a deadline that has passed leaves none.
pub proof fn law_drains_end_by_the_deadline(deadline_ms: u64, now_ms: u64)
    requires
        now_ms + VSS_TEARDOWN_FLUSH_WINDOW_MS <= u64::MAX,
    ensures
        teardown_start(deadline_ms, now_ms).deadline_ms == deadline_ms,
        teardown_start(deadline_ms, now_ms).step matches TeardownStep::Flush { until_ms, within_ms }
            && until_ms <= deadline_ms && until_ms <= now_ms + 10_000 && (until_ms == deadline_ms
            || until_ms == now_ms + 10_000) && (now_ms <= deadline_ms ==> now_ms + within_ms
            == deadline_ms) && (now_ms > deadline_ms ==> within_ms == 0),
{
}

/// What finished goes on: a finished drain stops the store for the rest of the time, a finished stop is a
/// complete teardown, and what failed or took too long is abandoned.
pub proof fn law_finished_teardowns_are_complete(t: Teardown, end: TaskEnd, now_ms: u64)
    requires
        t.step is Flush || t.step is Stop,
    ensures
        ({
            let next = teardown_next(t, TeardownReply::Task { end, now_ms });
            &&& next.deadline_ms == t.deadline_ms
            &&& end != TaskEnd::Finished ==> next.step == TeardownStep::StopMonitors(
                VssTeardown::Abandoned,
            )
            &&& end == TaskEnd::Finished && t.step is Stop ==> next.step
                == TeardownStep::StopMonitors(VssTeardown::Complete)
            &&& end == TaskEnd::Finished && t.step is Flush ==> (next.step
                matches TeardownStep::Stop { within_ms } && (now_ms <= t.deadline_ms ==> now_ms
                + within_ms == t.deadline_ms) && (now_ms > t.deadline_ms ==> within_ms == 0))
        }),
{
}

/// A shutdown skips nothing: a processor that is to be waited for is, one that takes too long is waited
/// for to its end, after the retries were aborted where there are stores; stores are torn down before the
/// port is looked at, and a complete teardown gives the fence up.
pub proof fn law_shutdowns_skip_nothing(step: StopStep, stores: bool, reply: StopReply)
    requires
        stop_fits(step, reply),
    ensures
        ({
            let next = stop_next(step, stores, reply);
            &&& reply == (StopReply::Stopped { join: true }) ==> next == StopStep::Join
            &&& reply == StopReply::TimedOut ==> next == if stores {
                StopStep::AbortRetries
            } else {
                StopStep::AwaitEnd
            }
            &&& next == StopStep::AwaitEnd ==> reply == StopReply::Aborted || reply
                == StopReply::TimedOut
            &&& reply == StopReply::Aborted ==> next == StopStep::AwaitEnd
            &&& stores && reply == StopReply::Ended ==> next == StopStep::TearDown
            &&& stores && reply == (StopReply::Stopped { join: false }) ==> next
                == StopStep::TearDown
            &&& reply == StopReply::TornDown(VssTeardown::Complete) ==> next
                == StopStep::ReleaseFence
            &&& reply == StopReply::TornDown(VssTeardown::Abandoned) ==> next == StopStep::PokePort
            &&& reply == StopReply::FenceReleased ==> next == StopStep::PokePort
            &&& reply == StopReply::Poked ==> next == StopStep::AwaitPort
            &&& !stores && (reply == StopReply::Ended || reply == (StopReply::Stopped {
                join: false,
            })) ==> next == StopStep::PokePort
        }),
{
}

/// A shutdown ends with the port's state as it is: free as soon as it is free, taken only after ten
/// seconds, and looked at again until then.
pub proof fn law_shutdowns_wait_for_the_port(stores: bool, free: bool, elapsed_ms: u64)
    ensures
        ({
            let next = stop_next(StopStep::AwaitPort, stores, StopReply::Port { free, elapsed_ms });
            &&& next == (StopStep::Done { port_free: true }) <==> free
            &&& next == (StopStep::Done { port_free: false }) <==> !free && elapsed_ms > 10_000
            &&& next == StopStep::AwaitPort <==> !free && elapsed_ms <= 10_000
        }),
{
}

} // verus!
