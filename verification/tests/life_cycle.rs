use rgb_lightning_node::app_state::AppState;
use rgb_lightning_node::error::APIError;
use rgb_lightning_node::shutdown::{
    log_bp_shutdown_result, release_vss_fence, ProcessorExit, Shutdown, StopOrders, StopReply,
    StopStep, TaskEnd, Teardown, TeardownReply, TeardownStep, VssTeardown,
    VSS_TEARDOWN_TIMEOUT_MS,
};
use rgb_lightning_node::start::{StageOutcome, Start, StartStage};
use rgb_lightning_node::upkeep::{
    advance_link, supervise_background_processor, LinkEvent, LinkStep, ProcessorEnd,
};

#[test]
fn returns_without_exiting_when_stop_requested() {
    let supervision = supervise_background_processor(
        ProcessorEnd::Returned(Err("aborted at teardown".to_string())),
        true,
    );
    assert!(supervision.result.is_err());
    assert!(supervision.fatal.is_none());
}

#[test]
fn processor_panic_is_fatal_even_while_stopping() {
    for stopping in [false, true] {
        let supervision = supervise_background_processor(
            ProcessorEnd::Panicked(Some("test panic".to_string())),
            stopping,
        );
        assert_eq!(
            supervision.fatal,
            Some("background processor panicked: test panic".to_string())
        );
        assert_eq!(
            supervision.result,
            Err("background processor panicked: test panic".to_string())
        );
    }
    let unknown = supervise_background_processor(ProcessorEnd::Panicked(None), false);
    assert_eq!(
        unknown.fatal,
        Some("background processor panicked: unknown panic".to_string())
    );
}

#[test]
fn unexpected_processor_return_is_fatal() {
    let clean = supervise_background_processor(ProcessorEnd::Returned(Ok(())), false);
    assert_eq!(
        clean.fatal,
        Some("background processor exited unexpectedly".to_string())
    );
    assert_eq!(clean.result, Ok(()));
    let failed =
        supervise_background_processor(ProcessorEnd::Returned(Err("disk full".to_string())), false);
    assert_eq!(
        failed.fatal,
        Some("background processor failed unexpectedly: disk full".to_string())
    );
}

#[test]
fn processor_end_is_logged_unless_clean() {
    assert_eq!(log_bp_shutdown_result(&ProcessorExit::Clean), None);
    assert_eq!(
        log_bp_shutdown_result(&ProcessorExit::Failed("x".to_string())),
        Some("background processor exited with error during shutdown")
    );
    assert_eq!(
        log_bp_shutdown_result(&ProcessorExit::Lost("x".to_string())),
        Some("background processor task join failed")
    );
}

#[test]
fn completed_teardown_releases_the_fence() {
    let teardown = Teardown::stop_vss_stores(5_000, 0)
        .advance(TeardownReply::Task {
            end: TaskEnd::Finished,
            now_ms: 100,
        })
        .advance(TeardownReply::Task {
            end: TaskEnd::Finished,
            now_ms: 200,
        })
        .advance(TeardownReply::MonitorsStopped);

    assert_eq!(teardown.step, TeardownStep::Done(VssTeardown::Complete));
    assert!(release_vss_fence(VssTeardown::Complete));
}

#[test]
fn abandoned_teardown_keeps_the_fence() {
    let teardown = Teardown::stop_vss_stores(100, 0).advance(TeardownReply::Task {
        end: TaskEnd::Finished,
        now_ms: 10,
    });
    assert_eq!(teardown.step, TeardownStep::Stop { within_ms: 90 });
    let teardown = teardown.advance(TeardownReply::Task {
        end: TaskEnd::TimedOut,
        now_ms: 100,
    });
    // the monitor retries are aborted before giving up
    assert_eq!(
        teardown.step,
        TeardownStep::StopMonitors(VssTeardown::Abandoned)
    );
    let teardown = teardown.advance(TeardownReply::MonitorsStopped);
    assert_eq!(teardown.step, TeardownStep::Done(VssTeardown::Abandoned));
    assert!(!release_vss_fence(VssTeardown::Abandoned));
}

#[test]
fn teardown_steps_are_bounded_by_the_deadline() {
    assert_eq!(
        Teardown::stop_vss_stores(1_000 + VSS_TEARDOWN_TIMEOUT_MS, 1_000).step,
        TeardownStep::Flush {
            until_ms: 11_000,
            within_ms: 30_000,
        }
    );
    assert_eq!(
        Teardown::stop_vss_stores(5_000, 1_000).step,
        TeardownStep::Flush {
            until_ms: 5_000,
            within_ms: 4_000,
        }
    );
    for end in [TaskEnd::Failed, TaskEnd::TimedOut] {
        assert_eq!(
            Teardown::stop_vss_stores(5_000, 0)
                .advance(TeardownReply::Task { end, now_ms: 0 })
                .step,
            TeardownStep::StopMonitors(VssTeardown::Abandoned)
        );
    }
    assert_eq!(
        Teardown::stop_vss_stores(5_000, 0)
            .advance(TeardownReply::Task {
                end: TaskEnd::Finished,
                now_ms: 6_000
            })
            .step,
        TeardownStep::Stop { within_ms: 0 }
    );
}

#[test]
fn services_are_only_stopped_where_they_run() {
    let mut state = AppState::new();
    assert_eq!(
        state.stop_ldk(false, true),
        StopOrders {
            stop: false,
            signal_exit: false,
            join: false,
        }
    );
    state.update_ldk_background_services(true);
    assert_eq!(
        state.stop_ldk(false, true),
        StopOrders {
            stop: true,
            signal_exit: true,
            join: true,
        }
    );
    assert_eq!(
        state.stop_ldk(true, true),
        StopOrders {
            stop: true,
            signal_exit: false,
            join: false,
        }
    );
}

#[test]
fn full_shutdown_hands_the_fence_over_before_freeing_the_port() {
    let mut shutdown = Shutdown::stop_ldk(true);
    let script = [
        (StopStep::StopServices, StopReply::Stopped { join: true }),
        (StopStep::Join, StopReply::TimedOut),
        (StopStep::AbortRetries, StopReply::Aborted),
        (StopStep::AwaitEnd, StopReply::Ended),
        (
            StopStep::TearDown,
            StopReply::TornDown(VssTeardown::Complete),
        ),
        (StopStep::ReleaseFence, StopReply::FenceReleased),
        (StopStep::PokePort, StopReply::Poked),
        (
            StopStep::AwaitPort,
            StopReply::Port {
                free: false,
                elapsed_ms: 10_000,
            },
        ),
        (
            StopStep::AwaitPort,
            StopReply::Port {
                free: true,
                elapsed_ms: 11_000,
            },
        ),
    ];
    for (step, reply) in script {
        assert_eq!(shutdown.step, step);
        shutdown = shutdown.advance(reply);
    }
    assert_eq!(shutdown.step, StopStep::Done { port_free: true });
}

#[test]
fn shutdown_without_stores_only_frees_the_port() {
    let shutdown = Shutdown::stop_ldk(false).advance(StopReply::Stopped { join: false });
    assert_eq!(shutdown.step, StopStep::PokePort);
    let shutdown = shutdown.advance(StopReply::Poked).advance(StopReply::Port {
        free: false,
        elapsed_ms: 10_001,
    });
    assert_eq!(shutdown.step, StopStep::Done { port_free: false });
    let abandoned = Shutdown {
        step: StopStep::TearDown,
        stores: true,
    }
    .advance(StopReply::TornDown(VssTeardown::Abandoned));
    assert_eq!(abandoned.step, StopStep::PokePort);
}

/// The outcome of a stage that goes well.
fn well(stage: StartStage) -> StageOutcome {
    if stage == StartStage::VssRestore {
        StageOutcome::Restored(4)
    } else {
        StageOutcome::Done
    }
}

/// A start that went well up to a stage.
fn started(vss: bool, stage: StartStage) -> Start {
    let mut start = Start::start_ldk(vss);
    while start.stage != stage {
        let outcome = well(start.stage);
        start = start.advance(outcome);
    }
    start
}

fn stages(vss: bool) -> Vec<StartStage> {
    let mut start = Start::start_ldk(vss);
    let mut stages = vec![start.stage];
    while start.stage != StartStage::Running {
        let outcome = well(start.stage);
        start = start.advance(outcome);
        stages.push(start.stage);
    }
    assert_eq!(start.fence_held, vss);
    stages
}

#[test]
fn start_runs_through_its_stages() {
    let alone = stages(false);
    assert_eq!(alone.len(), 20);
    assert!(!alone.contains(&StartStage::VssFence));

    let stages = stages(true);
    assert_eq!(stages.len(), 26);
    assert!(!stages.contains(&StartStage::DropManager));
    let place = |stage| stages.iter().position(|s| *s == stage).unwrap();
    assert!(place(StartStage::FundingRecovery) < place(StartStage::Peers));
    assert!(place(StartStage::RestoreCheck) < place(StartStage::RgbWallet));
}

#[test]
fn failed_start_gives_the_fence_up() {
    let start = started(true, StartStage::Indexer)
        .advance(StageOutcome::Failed(APIError::MissingIndexerUrl));
    assert_eq!(start.stage, StartStage::ReleaseFence);
    let start = start.advance(StageOutcome::Done);
    assert_eq!(start.stage, StartStage::Failed);
    assert!(!start.fence_held);
    assert_eq!(start.error, Some(APIError::MissingIndexerUrl));

    let early =
        Start::start_ldk(true).advance(StageOutcome::Failed(APIError::NotInitialized));
    assert_eq!(early.stage, StartStage::Failed);
}

#[test]
fn refused_restores_drop_the_manager_before_the_fence() {
    let start = started(true, StartStage::RestoreCheck);
    assert_eq!(start.restored_keys, 4);
    let start = start.advance(StageOutcome::Failed(APIError::LockedNode));
    assert_eq!(start.stage, StartStage::DropManager);
    assert!(start.fence_held);
    let start = start.advance(StageOutcome::Done);
    assert_eq!(start.stage, StartStage::ReleaseFence);
    let start = start.advance(StageOutcome::Done);
    assert_eq!(start.stage, StartStage::Failed);
    assert_eq!(start.error, Some(APIError::LockedNode));
}

#[test]
fn signer_link_is_only_driven_around_outages() {
    let woken = |changed, connected, stopping| LinkEvent::Woken {
        changed,
        connected,
        stopping,
    };
    assert_eq!(
        advance_link(LinkStep::Idle, woken(false, true, false)),
        LinkStep::Idle
    );
    assert_eq!(
        advance_link(LinkStep::Idle, woken(true, true, false)),
        LinkStep::RetryOnce
    );
    assert_eq!(
        advance_link(LinkStep::RetryOnce, LinkEvent::Retried { connected: false }),
        LinkStep::Idle
    );
    assert_eq!(
        advance_link(LinkStep::Idle, woken(false, false, false)),
        LinkStep::Outage
    );
    assert_eq!(
        advance_link(LinkStep::Outage, woken(false, true, false)),
        LinkStep::Retry
    );
    assert_eq!(
        advance_link(LinkStep::Retry, LinkEvent::Retried { connected: false }),
        LinkStep::Outage
    );
    assert_eq!(
        advance_link(LinkStep::Retry, LinkEvent::Retried { connected: true }),
        LinkStep::Idle
    );
    for step in [LinkStep::Idle, LinkStep::Outage] {
        assert_eq!(
            advance_link(step, woken(true, true, true)),
            LinkStep::Stopped
        );
    }
}

#[test]
fn requests_are_admitted_by_the_state_of_the_node() {
    let mut state = AppState::new();
    assert_eq!(state.check_locked(), Ok(()));
    assert_eq!(state.check_unlocked(), Err(APIError::LockedNode));
    state.update_unlocked_app_state(true);
    assert_eq!(state.check_locked(), Err(APIError::UnlockedNode));
    assert_eq!(state.check_unlocked(), Ok(()));
    state.update_changing_state(true);
    assert_eq!(state.check_changing_state(), Err(APIError::ChangingState));
    assert_eq!(state.check_locked(), Err(APIError::ChangingState));
    assert_eq!(state.check_unlocked(), Err(APIError::ChangingState));
}
