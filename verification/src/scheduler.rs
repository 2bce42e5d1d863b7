//! The scheduler loop: a two-state machine (`Idle` waiting for the timer,
//! `Running` while the tick handler executes) together with the arithmetic
//! of its fixed-period schedule.
//!
//! Failure isolation is the loop's one invariant worth the name: a handler
//! completion — whatever its outcome — always returns the loop to `Idle`,
//! so the next timer fire always starts the handler again. Only a broken
//! timer primitive may stop the process. Delivery acknowledgements from the
//! broker arrive asynchronously, possibly long after the tick that enqueued
//! the message; they are logged and change nothing of the loop's state.
//!
//! Ticks are serialized: the loop takes the next timer fire only once the
//! running handler has completed, so `TimerFired` is never delivered in the
//! `Running` state.

use vstd::prelude::*;

use vstd::arithmetic::div_mod::{lemma_fundamental_div_mod, lemma_mod_division_less_than_divisor};
use vstd::arithmetic::mul::lemma_mul_inequality;

use crate::errors::{FatalSchedulerError, PublishError, TickOutcome};

verus! {

/// The loop's state: waiting for the timer, or running the tick handler.
#[derive(Clone, Copy, Debug, PartialEq, Eq, Structural)]
pub enum SchedState {
    Idle,
    Running,
}

/// What the surrounding process reports to the loop.
#[derive(Debug)]
#[allow(inconsistent_fields)]
pub enum SchedEvent {
    /// The interval timer fired.
    TimerFired,
    /// The tick handler completed, successfully or not.
    HandlerFinished { outcome: TickOutcome },
    /// A delivery acknowledgement (or its failure) arrived from the broker,
    /// possibly for a message enqueued ticks ago.
    DeliveryReport { result: Result<(), PublishError> },
    /// The timer primitive itself broke while the loop was waiting on it.
    TimerFailed { error: FatalSchedulerError },
}

/// What the loop orders the surrounding process to do.
#[derive(Debug)]
#[allow(inconsistent_fields)]
pub enum SchedAction {
    /// Start one tick of the handler: fetch, persist, publish.
    RunHandler,
    /// Log the finished tick's outcome and wait for the next timer fire.
    LogOutcome { outcome: TickOutcome },
    /// Log the delivery report; a failure in it is contained here.
    LogDelivery { result: Result<(), PublishError> },
    /// Flush what is in flight and end the process: the one fatal path.
    StopFatal { error: FatalSchedulerError },
}

/// Which events a state accepts. A timer fire is only taken while idle
/// (ticks are serialized); a handler completion only while running; a
/// delivery report at any time; a timer failure only while waiting on the
/// timer.
pub open spec fn sched_event_fits(s: SchedState, ev: SchedEvent) -> bool {
    match (s, ev) {
        (SchedState::Idle, SchedEvent::TimerFired) => true,
        (SchedState::Running, SchedEvent::HandlerFinished { .. }) => true,
        (_, SchedEvent::DeliveryReport { .. }) => true,
        (SchedState::Idle, SchedEvent::TimerFailed { .. }) => true,
        _ => false,
    }
}

/// The loop's transition function: `Idle` to `Running` on a timer fire,
/// `Running` back to `Idle` on handler completion whatever the outcome;
/// nothing else moves the state.
pub open spec fn sched_next_state(s: SchedState, ev: SchedEvent) -> SchedState {
    match (s, ev) {
        (SchedState::Idle, SchedEvent::TimerFired) => SchedState::Running,
        (SchedState::Running, SchedEvent::HandlerFinished { .. }) => SchedState::Idle,
        _ => s,
    }
}

/// The action owed after the transition.
pub open spec fn sched_next_action(s: SchedState, ev: SchedEvent) -> SchedAction {
    match (s, ev) {
        (SchedState::Idle, SchedEvent::TimerFired) => SchedAction::RunHandler,
        (SchedState::Running, SchedEvent::HandlerFinished { outcome }) => SchedAction::LogOutcome {
            outcome,
        },
        (_, SchedEvent::DeliveryReport { result }) => SchedAction::LogDelivery { result },
        (_, SchedEvent::TimerFailed { error }) => SchedAction::StopFatal { error },
        _ => SchedAction::RunHandler,
    }
}

/// A fresh loop, idle until the first — immediate — timer fire.
pub fn sched_start() -> (r: SchedState)
    ensures
        r == SchedState::Idle,
{
    SchedState::Idle
}

/// Take one event: returns the next state together with the action owed.
pub fn sched_step(s: SchedState, ev: SchedEvent) -> (r: (SchedState, SchedAction))
    requires
        sched_event_fits(s, ev),
    ensures
        r.0 == sched_next_state(s, ev),
        r.1 == sched_next_action(s, ev),
{
    match (s, ev) {
        (SchedState::Idle, SchedEvent::TimerFired) => (SchedState::Running,
            SchedAction::RunHandler),
        (SchedState::Running, SchedEvent::HandlerFinished { outcome }) => (SchedState::Idle,
            SchedAction::LogOutcome { outcome }),
        (s2, SchedEvent::DeliveryReport { result }) => (s2, SchedAction::LogDelivery { result }),
        (s2, SchedEvent::TimerFailed { error }) => (s2, SchedAction::StopFatal { error }),
        (s2, _) => (s2, SchedAction::RunHandler),
    }
}

/// Law: one tick's failure never prevents the next tick's handler run.
/// After a handler completion with any outcome — a fetch error included —
/// the loop is idle again, and the very next timer fire starts the handler.
pub proof fn lemma_failure_isolation(outcome: TickOutcome)
    ensures
        sched_next_state(SchedState::Running, SchedEvent::HandlerFinished { outcome })
            == SchedState::Idle,
        sched_next_state(SchedState::Idle, SchedEvent::TimerFired) == SchedState::Running,
        sched_next_action(SchedState::Idle, SchedEvent::TimerFired) == SchedAction::RunHandler,
{
}

/// Law: the loop does not look at the outcome — a failed tick and a
/// successful one transition identically.
pub proof fn lemma_outcome_irrelevant_to_loop(o1: TickOutcome, o2: TickOutcome)
    ensures
        sched_next_state(SchedState::Running, SchedEvent::HandlerFinished { outcome: o1 })
            == sched_next_state(SchedState::Running, SchedEvent::HandlerFinished { outcome: o2 }),
{
}

/// Law: a delivery report — a failed acknowledgement included — arriving in
/// any state is logged and leaves the loop exactly where it was; it is
/// never the fatal action.
pub proof fn lemma_delivery_report_harmless(s: SchedState, result: Result<(), PublishError>)
    ensures
        sched_event_fits(s, SchedEvent::DeliveryReport { result }),
        sched_next_state(s, SchedEvent::DeliveryReport { result }) == s,
        sched_next_action(s, SchedEvent::DeliveryReport { result }) matches
            SchedAction::LogDelivery { result: r } && r == result,
{
}

/// Whether every event of a run fits the state at which it arrives.
pub open spec fn run_fits(s: SchedState, evs: Seq<SchedEvent>) -> bool
    decreases evs.len(),
{
    evs.len() == 0 || (sched_event_fits(s, evs[0]) && run_fits(
        sched_next_state(s, evs[0]),
        evs.drop_first(),
    ))
}

/// How many timer fires a run of events contains.
pub open spec fn timer_fires(evs: Seq<SchedEvent>) -> nat
    decreases evs.len(),
{
    if evs.len() == 0 {
        0
    } else {
        (if evs[0] is TimerFired {
            1nat
        } else {
            0nat
        }) + timer_fires(evs.drop_first())
    }
}

/// How many handler starts the loop orders along a run of events.
pub open spec fn handler_runs(s: SchedState, evs: Seq<SchedEvent>) -> nat
    decreases evs.len(),
{
    if evs.len() == 0 {
        0
    } else {
        (if sched_next_action(s, evs[0]) is RunHandler {
            1nat
        } else {
            0nat
        }) + handler_runs(sched_next_state(s, evs[0]), evs.drop_first())
    }
}

/// Law: over any run of events the loop accepts, the handler is started
/// exactly once per timer fire — however many failed outcomes or failed
/// delivery reports the run contains, none of them suppresses (or
/// duplicates) a handler start anywhere in the run.
pub proof fn lemma_every_fire_starts_the_handler(s: SchedState, evs: Seq<SchedEvent>)
    requires
        run_fits(s, evs),
    ensures
        handler_runs(s, evs) == timer_fires(evs),
    decreases evs.len(),
{
    if evs.len() > 0 {
        lemma_every_fire_starts_the_handler(sched_next_state(s, evs[0]), evs.drop_first());
    }
}

/// When tick number `i` of the schedule fires, measured from the first,
/// immediate fire: `i` whole periods after the start.
pub open spec fn fire_time(i: nat, d: nat) -> nat {
    i * d
}

/// How many handler runs the schedule starts within `elapsed` of the first:
/// the immediate one, plus one per whole period elapsed.
pub open spec fn runs_within(elapsed: nat, d: nat) -> nat
    recommends
        d > 0,
{
    elapsed / d + 1
}

/// Law: for every period `d > 0`, the handler is started once immediately
/// (fire time zero) and at least `elapsed / d` further times within any
/// elapsed duration — and no more: the next fire after those lies strictly
/// beyond `elapsed`.
pub proof fn lemma_tick_schedule(elapsed: nat, d: nat)
    requires
        d > 0,
    ensures
        runs_within(elapsed, d) >= 1,
        fire_time(0, d) == 0,
        forall|i: nat| i < runs_within(elapsed, d) ==> #[trigger] fire_time(i, d) <= elapsed,
        elapsed < fire_time(runs_within(elapsed, d), d),
{
    let e = elapsed as int;
    let dd = d as int;
    let q = e / dd;
    lemma_fundamental_div_mod(e, dd);
    lemma_mod_division_less_than_divisor(e, dd);
    assert(dd * q <= e);
    assert forall|i: nat| i < runs_within(elapsed, d) implies #[trigger] fire_time(i, d)
        <= elapsed by {
        lemma_mul_inequality(i as int, q, dd);
        assert(i as int * dd <= q * dd);
        assert(q * dd == dd * q) by (nonlinear_arith);
    }
    assert((q + 1) * dd == dd * q + dd) by (nonlinear_arith);
    assert(e < (q + 1) * dd);
}

/// How many handler runs are due within `elapsed_ms` of the first,
/// immediate one, for a tick period of `interval_ms`.
pub fn runs_due(elapsed_ms: u64, interval_ms: u64) -> (r: u64)
    requires
        interval_ms > 0,
        elapsed_ms < u64::MAX,
    ensures
        r == runs_within(elapsed_ms as nat, interval_ms as nat),
{
    proof {
        assert(elapsed_ms as int / interval_ms as int <= elapsed_ms as int) by (nonlinear_arith)
            requires
                interval_ms >= 1,
                elapsed_ms >= 0,
        ;
    }
    elapsed_ms / interval_ms + 1
}

} // verus!
