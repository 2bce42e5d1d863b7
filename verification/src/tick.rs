//! One tick of the relay as a state machine: fetch, then persist, then
//! publish, each step's result fed back in as an event by the surrounding
//! process, which performs the actual I/O.
//!
//! The steps are serialized within the tick (persist before publish), and
//! both sinks act on the one payload the tick fetched. Failure of one sink
//! never cancels the other: a failed persist still goes on to the publish
//! step, and a failed publish leaves the recorded persist result untouched.
//! A failed fetch ends the tick at once — there is then no payload, so
//! neither sink is attempted.

use vstd::prelude::*;

use crate::errors::{FetchError, PersistError, PublishError, TickOutcome};

verus! {

/// Where a tick stands: which step's result it is waiting for, or the
/// outcome it finished with.
#[derive(Debug)]
pub enum TickState {
    /// Waiting for the HTTP fetch to resolve.
    Fetching,
    /// Holding the fetched payload, waiting for the file write to resolve.
    Persisting { payload: Vec<u8> },
    /// Holding the payload and the recorded persist result, waiting for the
    /// broker enqueue to resolve.
    Publishing { payload: Vec<u8>, persist: Result<(), PersistError> },
    /// The tick is over; the outcome is kept for logging only.
    Done { outcome: TickOutcome },
}

/// What the surrounding process reports back to the tick.
#[derive(Debug)]
#[allow(inconsistent_fields)]
pub enum TickEvent {
    /// The fetch resolved with the response body as the tick's payload.
    FetchSucceeded { payload: Vec<u8> },
    /// The fetch failed: network error, bad status, or unreadable body.
    FetchFailed { error: FetchError },
    /// The payload was written to the destination file in full.
    PersistSucceeded,
    /// The file write failed.
    PersistFailed { error: PersistError },
    /// The payload was handed to the broker client's send queue. The
    /// delivery acknowledgement is *not* awaited here: it arrives later as
    /// a scheduler event.
    PublishEnqueued,
    /// The payload could not be enqueued.
    PublishRejected { error: PublishError },
}

/// What the surrounding process must do next.
#[derive(Clone, Copy, Debug, PartialEq, Eq, Structural)]
pub enum TickAction {
    /// Write the payload held by the tick state to the destination file.
    Persist,
    /// Enqueue the payload held by the tick state to the topic.
    Publish,
    /// The tick is over: log its outcome and wait for the next timer fire.
    Finish,
}

/// Which events a state accepts: exactly the result of the step that the
/// state is waiting for.
pub open spec fn event_fits(s: TickState, ev: TickEvent) -> bool {
    match (s, ev) {
        (TickState::Fetching, TickEvent::FetchSucceeded { .. }) => true,
        (TickState::Fetching, TickEvent::FetchFailed { .. }) => true,
        (TickState::Persisting { .. }, TickEvent::PersistSucceeded) => true,
        (TickState::Persisting { .. }, TickEvent::PersistFailed { .. }) => true,
        (TickState::Publishing { .. }, TickEvent::PublishEnqueued) => true,
        (TickState::Publishing { .. }, TickEvent::PublishRejected { .. }) => true,
        _ => false,
    }
}

/// The tick's transition function: the state after taking an event.
pub open spec fn next_state(s: TickState, ev: TickEvent) -> TickState {
    match (s, ev) {
        (TickState::Fetching, TickEvent::FetchSucceeded { payload }) => TickState::Persisting {
            payload,
        },
        (TickState::Fetching, TickEvent::FetchFailed { error }) => TickState::Done {
            outcome: TickOutcome { fetch: Err(error), persist: None, publish: None },
        },
        (TickState::Persisting { payload }, TickEvent::PersistSucceeded) => TickState::Publishing {
            payload,
            persist: Ok(()),
        },
        (
            TickState::Persisting { payload },
            TickEvent::PersistFailed { error },
        ) => TickState::Publishing { payload, persist: Err(error) },
        (TickState::Publishing { payload, persist }, TickEvent::PublishEnqueued) => TickState::Done {
            outcome: TickOutcome { fetch: Ok(()), persist: Some(persist), publish: Some(Ok(())) },
        },
        (
            TickState::Publishing { payload, persist },
            TickEvent::PublishRejected { error },
        ) => TickState::Done {
            outcome: TickOutcome {
                fetch: Ok(()),
                persist: Some(persist),
                publish: Some(Err(error)),
            },
        },
        _ => s,
    }
}

/// The action the surrounding process owes after the transition.
pub open spec fn next_action(s: TickState, ev: TickEvent) -> TickAction {
    match (s, ev) {
        (TickState::Fetching, TickEvent::FetchSucceeded { .. }) => TickAction::Persist,
        (TickState::Fetching, TickEvent::FetchFailed { .. }) => TickAction::Finish,
        (TickState::Persisting { .. }, TickEvent::PersistSucceeded) => TickAction::Publish,
        (TickState::Persisting { .. }, TickEvent::PersistFailed { .. }) => TickAction::Publish,
        (TickState::Publishing { .. }, TickEvent::PublishEnqueued) => TickAction::Finish,
        (TickState::Publishing { .. }, TickEvent::PublishRejected { .. }) => TickAction::Finish,
        _ => TickAction::Finish,
    }
}

/// A fresh tick, about to issue its fetch.
pub fn tick_start() -> (r: TickState)
    ensures
        r is Fetching,
{
    TickState::Fetching
}

/// Take one event: returns the next state together with the action owed.
/// The caller must only report the result of the step the state is waiting
/// for.
pub fn tick_step(s: TickState, ev: TickEvent) -> (r: (TickState, TickAction))
    requires
        event_fits(s, ev),
    ensures
        r.0 == next_state(s, ev),
        r.1 == next_action(s, ev),
{
    match (s, ev) {
        (TickState::Fetching, TickEvent::FetchSucceeded { payload }) => (
            TickState::Persisting { payload },
            TickAction::Persist,
        ),
        (TickState::Fetching, TickEvent::FetchFailed { error }) => (
            TickState::Done {
                outcome: TickOutcome { fetch: Err(error), persist: None, publish: None },
            },
            TickAction::Finish,
        ),
        (TickState::Persisting { payload }, TickEvent::PersistSucceeded) => (
            TickState::Publishing { payload, persist: Ok(()) },
            TickAction::Publish,
        ),
        (TickState::Persisting { payload }, TickEvent::PersistFailed { error }) => (
            TickState::Publishing { payload, persist: Err(error) },
            TickAction::Publish,
        ),
        (TickState::Publishing { payload: _, persist }, TickEvent::PublishEnqueued) => (
            TickState::Done {
                outcome: TickOutcome {
                    fetch: Ok(()),
                    persist: Some(persist),
                    publish: Some(Ok(())),
                },
            },
            TickAction::Finish,
        ),
        (TickState::Publishing { payload: _, persist }, TickEvent::PublishRejected { error }) => (
            TickState::Done {
                outcome: TickOutcome {
                    fetch: Ok(()),
                    persist: Some(persist),
                    publish: Some(Err(error)),
                },
            },
            TickAction::Finish,
        ),
        (s2, _) => (s2, TickAction::Finish),
    }
}

/// The persist result a sink event reports: the error it carries, or
/// success.
pub open spec fn persist_result_of(ev: TickEvent) -> Result<(), PersistError>
    recommends
        ev is PersistSucceeded || ev is PersistFailed,
{
    match ev {
        TickEvent::PersistFailed { error } => Err(error),
        _ => Ok(()),
    }
}

/// The publish result a sink event reports: the error it carries, or a
/// successful enqueue.
pub open spec fn publish_result_of(ev: TickEvent) -> Result<(), PublishError>
    recommends
        ev is PublishEnqueued || ev is PublishRejected,
{
    match ev {
        TickEvent::PublishRejected { error } => Err(error),
        _ => Ok(()),
    }
}

/// Law: the whole tick after a successful fetch. The tick accepts the
/// persist step's result, then the publish step's result, then is done; the
/// outcome records the fetch success and each sink's result exactly as it
/// was reported, each independent of the other.
pub proof fn lemma_tick_trajectory(payload: Vec<u8>, persist_ev: TickEvent, publish_ev: TickEvent)
    requires
        persist_ev is PersistSucceeded || persist_ev is PersistFailed,
        publish_ev is PublishEnqueued || publish_ev is PublishRejected,
    ensures
        ({
            let s1 = next_state(TickState::Fetching, TickEvent::FetchSucceeded { payload });
            let s2 = next_state(s1, persist_ev);
            let s3 = next_state(s2, publish_ev);
            &&& event_fits(TickState::Fetching, TickEvent::FetchSucceeded { payload })
            &&& event_fits(s1, persist_ev)
            &&& event_fits(s2, publish_ev)
            &&& s3 matches TickState::Done { outcome } && outcome.fetch is Ok && outcome.persist
                == Some(persist_result_of(persist_ev)) && outcome.publish == Some(
                publish_result_of(publish_ev),
            )
        }),
{
}

/// Law: a persist failure does not prevent the publish attempt of the same
/// tick — after any persist result, good or bad, the next action is the
/// publish of the very payload the tick fetched.
pub proof fn lemma_publish_attempted_despite_persist_error(payload: Vec<u8>, e: PersistError)
    ensures
        next_action(TickState::Persisting { payload }, TickEvent::PersistFailed { error: e })
            == TickAction::Publish,
        next_state(TickState::Persisting { payload }, TickEvent::PersistFailed { error: e })
            matches TickState::Publishing { payload: p, persist } && p == payload && persist
            == Err::<(), PersistError>(e),
{
}

/// Law: a publish failure does not change the persist result recorded for
/// the tick — whatever the publish step reports, the outcome carries the
/// persist result already in hand.
pub proof fn lemma_persist_outcome_independent_of_publish(
    payload: Vec<u8>,
    persist: Result<(), PersistError>,
    ev: TickEvent,
)
    requires
        ev is PublishEnqueued || ev is PublishRejected,
    ensures
        next_state(TickState::Publishing { payload, persist }, ev) matches TickState::Done {
            outcome,
        } && outcome.persist == Some(persist),
{
}

/// Law: a failed fetch ends the tick at once — no file write and no publish
/// is attempted, and the outcome records the fetch error alone.
pub proof fn lemma_fetch_error_skips_sinks(e: FetchError)
    ensures
        next_action(TickState::Fetching, TickEvent::FetchFailed { error: e })
            == TickAction::Finish,
        next_state(TickState::Fetching, TickEvent::FetchFailed { error: e }) matches
            TickState::Done { outcome } && outcome.fetch == Err::<(), FetchError>(e)
            && outcome.persist is None && outcome.publish is None,
{
}

/// Law: the publish step resolves on enqueue alone — the tick completes,
/// with its publish recorded as successful, without any delivery
/// acknowledgement event; the acknowledgement arrives later, as an event
/// of the scheduler loop, and is only logged there.
pub proof fn lemma_publish_resolves_on_enqueue(
    payload: Vec<u8>,
    persist: Result<(), PersistError>,
)
    ensures
        next_state(TickState::Publishing { payload, persist }, TickEvent::PublishEnqueued)
            matches TickState::Done { outcome } && outcome.publish matches Some(p) && p is Ok,
        next_action(TickState::Publishing { payload, persist }, TickEvent::PublishEnqueued)
            == TickAction::Finish,
{
}

/// Law: every outcome a tick can finish with is well formed — persist and
/// publish were each attempted exactly when the fetch succeeded.
pub proof fn lemma_tick_outcome_wf(s: TickState, ev: TickEvent)
    requires
        event_fits(s, ev),
    ensures
        next_state(s, ev) matches TickState::Done { outcome } ==> outcome.wf(),
{
}

} // verus!
