use rusty_rails::scheduler::{
    REFRESH_INTERVAL_SECS, Scheduler, SchedulerAction, SchedulerEvent, SchedulerState,
};

#[test]
fn refresh_interval_is_fifteen_seconds() {
    assert_eq!(REFRESH_INTERVAL_SECS, 15);
}

#[test]
fn scheduler_starts_idle() {
    let scheduler = Scheduler::new();
    assert_eq!(scheduler.state, SchedulerState::Idle);
    assert_eq!(scheduler.fetches, 0);
    assert_eq!(scheduler.cleanups, 0);
}

/// Runs one complete fetch cycle after the fetch has been started.
fn complete_cycle(scheduler: &mut Scheduler, ok: bool) {
    if ok {
        assert_eq!(
            scheduler.step(SchedulerEvent::FetchSucceeded),
            SchedulerAction::Render
        );
        assert_eq!(
            scheduler.step(SchedulerEvent::Rendered),
            SchedulerAction::AwaitEvents
        );
    } else {
        assert_eq!(
            scheduler.step(SchedulerEvent::FetchFailed),
            SchedulerAction::ReportError
        );
    }
    assert_eq!(scheduler.state, SchedulerState::Waiting);
}

#[test]
fn three_ticks_mean_four_fetch_cycles() {
    let mut scheduler = Scheduler::new();
    assert_eq!(
        scheduler.step(SchedulerEvent::Start),
        SchedulerAction::StartFetch
    );
    complete_cycle(&mut scheduler, true);
    for _ in 0..3 {
        assert_eq!(
            scheduler.step(SchedulerEvent::Tick),
            SchedulerAction::StartFetch
        );
        complete_cycle(&mut scheduler, true);
    }
    assert_eq!(scheduler.fetches, 4);
    assert_eq!(scheduler.cleanups, 0);
    assert_eq!(scheduler.state, SchedulerState::Waiting);
}

#[test]
fn a_failed_cycle_does_not_stop_the_loop() {
    let mut scheduler = Scheduler::new();
    scheduler.step(SchedulerEvent::Start);
    complete_cycle(&mut scheduler, false);
    assert_eq!(
        scheduler.step(SchedulerEvent::Tick),
        SchedulerAction::StartFetch
    );
    complete_cycle(&mut scheduler, true);
    assert_eq!(scheduler.fetches, 2);
    assert_eq!(scheduler.state, SchedulerState::Waiting);
}

#[test]
fn cancel_before_first_tick_means_one_fetch_and_one_cleanup() {
    let mut scheduler = Scheduler::new();
    assert_eq!(
        scheduler.step(SchedulerEvent::Start),
        SchedulerAction::StartFetch
    );
    complete_cycle(&mut scheduler, true);
    assert_eq!(
        scheduler.step(SchedulerEvent::Cancel),
        SchedulerAction::Cleanup
    );
    assert_eq!(scheduler.state, SchedulerState::Cancelled);
    assert_eq!(scheduler.fetches, 1);
    assert_eq!(scheduler.cleanups, 1);
}
