//! The refresh scheduler: a state machine that drives the fetch, render
//! and wait cycle of one running board.
//!
//! The host loop owns the clock, the network and the cancellation signal;
//! every decision is made here. The host feeds one event at a time into
//! [`Scheduler::step`] and performs the action handed back: fetch, render,
//! report a failed cycle, wait on the timer and the cancellation signal, or
//! clean up and exit. One fetch cycle runs immediately on start, a new one
//! on every timer tick, and the timer and the cancellation signal are only
//! consulted between cycles, so at most one fetch is ever in flight.

use vstd::prelude::*;

verus! {

/// The fixed refresh interval: how many seconds pass between timer ticks.
pub const REFRESH_INTERVAL_SECS: u64 = 15;

/// Where the refresh loop stands.
#[derive(Clone, Copy, Debug, PartialEq, Eq, Structural)]
pub enum SchedulerState {
    /// Not started yet.
    Idle,
    /// A fetch is in flight.
    Fetching,
    /// A fetched board is being rendered.
    Rendering,
    /// Between cycles, waiting on the timer and the cancellation signal.
    Waiting,
    /// Cancelled; terminal.
    Cancelled,
}

/// What the host reports to the scheduler.
#[derive(Clone, Copy, Debug, PartialEq, Eq, Structural)]
pub enum SchedulerEvent {
    /// The loop is entered.
    Start,
    /// The fetch in flight produced a board.
    FetchSucceeded,
    /// The fetch in flight failed; the failure has been reported.
    FetchFailed,
    /// The fetched board has been handed to the presentation sink.
    Rendered,
    /// The periodic timer fired at the wait point.
    Tick,
    /// The cancellation signal arrived at the wait point.
    Cancel,
}

/// What the scheduler asks the host to do next.
#[derive(Clone, Copy, Debug, PartialEq, Eq, Structural)]
pub enum SchedulerAction {
    /// Fetch the board, then report `FetchSucceeded` or `FetchFailed`.
    StartFetch,
    /// Hand the fetched board to the presentation sink, then report
    /// `Rendered`.
    Render,
    /// The cycle failed; leave the last rendered board standing and wait
    /// for the next `Tick` or `Cancel`.
    ReportError,
    /// Wait for the next `Tick` or `Cancel`.
    AwaitEvents,
    /// Run the cleanup exactly once and exit the loop.
    Cleanup,
}

/// The refresh scheduler: the loop's state and its two counters, the number
/// of fetch cycles started and the number of cleanups run.
#[derive(Clone, Copy, Debug, PartialEq, Eq, Structural)]
pub struct Scheduler {
    /// Where the loop stands.
    pub state: SchedulerState,
    /// How many fetch cycles have been started.
    pub fetches: u64,
    /// How many times the cleanup has run; never more than once.
    pub cleanups: u64,
}

/// The scheduler as it is before the loop is entered.
pub open spec fn initial_scheduler() -> Scheduler {
    Scheduler { state: SchedulerState::Idle, fetches: 0, cleanups: 0 }
}

/// Which events the host may deliver in which state: completion events only
/// for the stage that is running, and the timer and the cancellation signal
/// only at the wait point between cycles. Nothing follows `Cancelled`.
pub open spec fn event_fits(state: SchedulerState, event: SchedulerEvent) -> bool {
    match (state, event) {
        (SchedulerState::Idle, SchedulerEvent::Start) => true,
        (SchedulerState::Fetching, SchedulerEvent::FetchSucceeded) => true,
        (SchedulerState::Fetching, SchedulerEvent::FetchFailed) => true,
        (SchedulerState::Rendering, SchedulerEvent::Rendered) => true,
        (SchedulerState::Waiting, SchedulerEvent::Tick) => true,
        (SchedulerState::Waiting, SchedulerEvent::Cancel) => true,
        _ => false,
    }
}

/// The transition relation: the scheduler after an event, and the action
/// the host is to perform next. On events that do not fit the state it
/// changes nothing and asks the host to keep waiting.
pub open spec fn spec_step(s: Scheduler, event: SchedulerEvent) -> (Scheduler, SchedulerAction) {
    match (s.state, event) {
        (SchedulerState::Idle, SchedulerEvent::Start) => (
            Scheduler { state: SchedulerState::Fetching, fetches: (s.fetches + 1) as u64, ..s },
            SchedulerAction::StartFetch,
        ),
        (SchedulerState::Fetching, SchedulerEvent::FetchSucceeded) => (
            Scheduler { state: SchedulerState::Rendering, ..s },
            SchedulerAction::Render,
        ),
        (SchedulerState::Fetching, SchedulerEvent::FetchFailed) => (
            Scheduler { state: SchedulerState::Waiting, ..s },
            SchedulerAction::ReportError,
        ),
        (SchedulerState::Rendering, SchedulerEvent::Rendered) => (
            Scheduler { state: SchedulerState::Waiting, ..s },
            SchedulerAction::AwaitEvents,
        ),
        (SchedulerState::Waiting, SchedulerEvent::Tick) => (
            Scheduler { state: SchedulerState::Fetching, fetches: (s.fetches + 1) as u64, ..s },
            SchedulerAction::StartFetch,
        ),
        (SchedulerState::Waiting, SchedulerEvent::Cancel) => (
            Scheduler { state: SchedulerState::Cancelled, cleanups: (s.cleanups + 1) as u64, ..s },
            SchedulerAction::Cleanup,
        ),
        _ => (s, SchedulerAction::AwaitEvents),
    }
}

impl Scheduler {
    /// A scheduler that has not started: no fetch yet, no cleanup yet.
    pub fn new() -> (r: Scheduler)
        ensures
            r == initial_scheduler(),
    {
        Scheduler { state: SchedulerState::Idle, fetches: 0, cleanups: 0 }
    }

    /// Feeds one event in and hands back the action to perform next. The
    /// event must fit the current state; the counters must have room, which
    /// every run that fits in memory has.
    pub fn step(&mut self, event: SchedulerEvent) -> (action: SchedulerAction)
        requires
            event_fits(old(self).state, event),
            old(self).fetches < u64::MAX,
            old(self).cleanups < u64::MAX,
        ensures
            *final(self) == spec_step(*old(self), event).0,
            action == spec_step(*old(self), event).1,
    {
        match (self.state, event) {
            (SchedulerState::Idle, SchedulerEvent::Start) => {
                self.state = SchedulerState::Fetching;
                self.fetches = self.fetches + 1;
                SchedulerAction::StartFetch
            },
            (SchedulerState::Fetching, SchedulerEvent::FetchSucceeded) => {
                self.state = SchedulerState::Rendering;
                SchedulerAction::Render
            },
            (SchedulerState::Fetching, SchedulerEvent::FetchFailed) => {
                self.state = SchedulerState::Waiting;
                SchedulerAction::ReportError
            },
            (SchedulerState::Rendering, SchedulerEvent::Rendered) => {
                self.state = SchedulerState::Waiting;
                SchedulerAction::AwaitEvents
            },
            (SchedulerState::Waiting, SchedulerEvent::Tick) => {
                self.state = SchedulerState::Fetching;
                self.fetches = self.fetches + 1;
                SchedulerAction::StartFetch
            },
            (SchedulerState::Waiting, SchedulerEvent::Cancel) => {
                self.state = SchedulerState::Cancelled;
                self.cleanups = self.cleanups + 1;
                SchedulerAction::Cleanup
            },
            _ => SchedulerAction::AwaitEvents,
        }
    }
}

/// The scheduler after a whole sequence of events, first event first.
pub open spec fn run_steps(s: Scheduler, events: Seq<SchedulerEvent>) -> Scheduler
    decreases events.len(),
{
    if events.len() == 0 {
        s
    } else {
        run_steps(spec_step(s, events[0]).0, events.drop_first())
    }
}

/// Whether every event of the sequence fits the state it meets.
pub open spec fn trace_fits(s: Scheduler, events: Seq<SchedulerEvent>) -> bool
    decreases events.len(),
{
    events.len() == 0 || (event_fits(s.state, events[0]) && trace_fits(
        spec_step(s, events[0]).0,
        events.drop_first(),
    ))
}

/// Running a concatenated trace runs its parts in order, and the whole
/// trace fits exactly when each part fits where it starts.
pub proof fn lemma_run_steps_concat(s: Scheduler, a: Seq<SchedulerEvent>, b: Seq<SchedulerEvent>)
    ensures
        run_steps(s, a + b) == run_steps(run_steps(s, a), b),
        trace_fits(s, a + b) <==> (trace_fits(s, a) && trace_fits(run_steps(s, a), b)),
    decreases a.len(),
{
    if a.len() == 0 {
        assert(a + b =~= b);
    } else {
        assert((a + b).drop_first() =~= a.drop_first() + b);
        lemma_run_steps_concat(spec_step(s, a[0]).0, a.drop_first(), b);
    }
}

/// The events of one complete fetch cycle after the fetch has started: a
/// successful fetch is rendered; a failed one is only reported.
pub open spec fn cycle_events(ok: bool) -> Seq<SchedulerEvent> {
    if ok {
        seq![SchedulerEvent::FetchSucceeded, SchedulerEvent::Rendered]
    } else {
        seq![SchedulerEvent::FetchFailed]
    }
}

/// The events of a run of refresh rounds: each timer tick is followed by
/// the completion of the cycle it started, with the given outcome.
pub open spec fn refresh_rounds(outcomes: Seq<bool>) -> Seq<SchedulerEvent>
    decreases outcomes.len(),
{
    if outcomes.len() == 0 {
        Seq::empty()
    } else {
        seq![SchedulerEvent::Tick] + cycle_events(outcomes[0]) + refresh_rounds(
            outcomes.drop_first(),
        )
    }
}

/// The events of a whole uncancelled run: start, the immediate first cycle
/// with outcome `first`, then one refresh round per timer tick.
pub open spec fn poll_trace(first: bool, refreshes: Seq<bool>) -> Seq<SchedulerEvent> {
    seq![SchedulerEvent::Start] + cycle_events(first) + refresh_rounds(refreshes)
}

/// Running a single event in front of a trace takes one step and then the
/// rest of the trace.
proof fn lemma_step_one(s: Scheduler, event: SchedulerEvent, rest: Seq<SchedulerEvent>)
    ensures
        run_steps(s, seq![event] + rest) == run_steps(spec_step(s, event).0, rest),
        trace_fits(s, seq![event] + rest) <==> (event_fits(s.state, event) && trace_fits(
            spec_step(s, event).0,
            rest,
        )),
{
    let whole = seq![event] + rest;
    assert(whole[0] == event);
    assert(whole.drop_first() =~= rest);
}

/// One cycle's completion, begun in `Fetching`, ends at the wait point and
/// touches no counter.
proof fn lemma_cycle(s: Scheduler, ok: bool)
    requires
        s.state == SchedulerState::Fetching,
    ensures
        trace_fits(s, cycle_events(ok)),
        run_steps(s, cycle_events(ok)) == (Scheduler { state: SchedulerState::Waiting, ..s }),
{
    let none = Seq::<SchedulerEvent>::empty();
    if ok {
        let s1 = spec_step(s, SchedulerEvent::FetchSucceeded).0;
        assert(cycle_events(ok) =~= seq![SchedulerEvent::FetchSucceeded] + seq![
            SchedulerEvent::Rendered,
        ]);
        lemma_step_one(s, SchedulerEvent::FetchSucceeded, seq![SchedulerEvent::Rendered]);
        assert(seq![SchedulerEvent::Rendered] =~= seq![SchedulerEvent::Rendered] + none);
        lemma_step_one(s1, SchedulerEvent::Rendered, none);
    } else {
        assert(cycle_events(ok) =~= seq![SchedulerEvent::FetchFailed] + none);
        lemma_step_one(s, SchedulerEvent::FetchFailed, none);
    }
}

/// Refresh rounds from the wait point: each tick starts exactly one more
/// fetch cycle, the run ends back at the wait point, and no cleanup runs.
proof fn lemma_refresh_rounds(s: Scheduler, outcomes: Seq<bool>)
    requires
        s.state == SchedulerState::Waiting,
        s.fetches + outcomes.len() <= u64::MAX,
    ensures
        trace_fits(s, refresh_rounds(outcomes)),
        run_steps(s, refresh_rounds(outcomes)) == (Scheduler {
            state: SchedulerState::Waiting,
            fetches: (s.fetches + outcomes.len()) as u64,
            cleanups: s.cleanups,
        }),
    decreases outcomes.len(),
{
    if outcomes.len() == 0 {
        assert(run_steps(s, refresh_rounds(outcomes)) =~= s);
    } else {
        let cycle = cycle_events(outcomes[0]);
        let rest = refresh_rounds(outcomes.drop_first());
        assert(refresh_rounds(outcomes) =~= seq![SchedulerEvent::Tick] + (cycle + rest));
        lemma_step_one(s, SchedulerEvent::Tick, cycle + rest);
        let s1 = spec_step(s, SchedulerEvent::Tick).0;
        lemma_run_steps_concat(s1, cycle, rest);
        lemma_cycle(s1, outcomes[0]);
        let s2 = run_steps(s1, cycle);
        lemma_refresh_rounds(s2, outcomes.drop_first());
    }
}

/// Ticks drive fetch cycles one for one: a run that starts, completes its
/// immediate first cycle and then sees `N` timer ticks, each followed by
/// its cycle's completion and none by a cancellation, performs exactly
/// `N + 1` fetch cycles, ends at the wait point, and never runs cleanup.
pub proof fn lemma_ticks_drive_fetches(first: bool, refreshes: Seq<bool>)
    requires
        refreshes.len() + 1 <= u64::MAX,
    ensures
        trace_fits(initial_scheduler(), poll_trace(first, refreshes)),
        run_steps(initial_scheduler(), poll_trace(first, refreshes)) == (Scheduler {
            state: SchedulerState::Waiting,
            fetches: (refreshes.len() + 1) as u64,
            cleanups: 0,
        }),
{
    let s0 = initial_scheduler();
    let cycle = cycle_events(first);
    let rounds = refresh_rounds(refreshes);
    assert(poll_trace(first, refreshes) =~= seq![SchedulerEvent::Start] + (cycle + rounds));
    lemma_step_one(s0, SchedulerEvent::Start, cycle + rounds);
    let s1 = spec_step(s0, SchedulerEvent::Start).0;
    lemma_run_steps_concat(s1, cycle, rounds);
    lemma_cycle(s1, first);
    let s2 = run_steps(s1, cycle);
    lemma_refresh_rounds(s2, refreshes);
}

/// A cancellation that arrives strictly before the first timer tick ends
/// the loop after exactly one fetch cycle, with the cleanup run exactly
/// once.
pub proof fn lemma_cancel_before_first_tick(first: bool)
    ensures
        trace_fits(
            initial_scheduler(),
            poll_trace(first, Seq::empty()) + seq![SchedulerEvent::Cancel],
        ),
        run_steps(
            initial_scheduler(),
            poll_trace(first, Seq::empty()) + seq![SchedulerEvent::Cancel],
        ) == (Scheduler { state: SchedulerState::Cancelled, fetches: 1, cleanups: 1 }),
{
    let s0 = initial_scheduler();
    let trace = poll_trace(first, Seq::empty());
    lemma_ticks_drive_fetches(first, Seq::empty());
    lemma_run_steps_concat(s0, trace, seq![SchedulerEvent::Cancel]);
    let s1 = run_steps(s0, trace);
    assert(seq![SchedulerEvent::Cancel] =~= seq![SchedulerEvent::Cancel]
        + Seq::<SchedulerEvent>::empty());
    lemma_step_one(s1, SchedulerEvent::Cancel, Seq::empty());
}

/// The cleanup runs at most once in any run that respects the event
/// protocol, and has run exactly when the scheduler is cancelled: the
/// cancellation transition is the only one that touches the counter, and
/// nothing follows the terminal state.
pub proof fn lemma_cleanup_exactly_once_on_cancel(events: Seq<SchedulerEvent>)
    requires
        trace_fits(initial_scheduler(), events),
    ensures
        run_steps(initial_scheduler(), events).cleanups <= 1,
        run_steps(initial_scheduler(), events).cleanups == 1 <==> run_steps(
            initial_scheduler(),
            events,
        ).state == SchedulerState::Cancelled,
{
    lemma_cleanup_invariant(initial_scheduler(), events);
}

/// Helper induction for the cleanup invariant: from any state that has
/// cleaned up exactly once if and only if it is cancelled, a fitting trace
/// keeps that property.
proof fn lemma_cleanup_invariant(s: Scheduler, events: Seq<SchedulerEvent>)
    requires
        trace_fits(s, events),
        s.state == SchedulerState::Cancelled ==> s.cleanups == 1,
        s.state != SchedulerState::Cancelled ==> s.cleanups == 0,
    ensures
        run_steps(s, events).state == SchedulerState::Cancelled ==> run_steps(
            s,
            events,
        ).cleanups == 1,
        run_steps(s, events).state != SchedulerState::Cancelled ==> run_steps(
            s,
            events,
        ).cleanups == 0,
    decreases events.len(),
{
    if events.len() > 0 {
        lemma_cleanup_invariant(spec_step(s, events[0]).0, events.drop_first());
    }
}

} // verus!

