//! Whole-tick scenarios: the tick and scheduler machines driven together
//! with the file-store model standing in for the destination file, and a
//! count of broker enqueues standing in for the producer.

use snapshot_relay::config::Config;
use snapshot_relay::errors::PublishError;
use snapshot_relay::fetch::fetch_result;
use snapshot_relay::scheduler::{runs_due, sched_start, sched_step, SchedAction, SchedEvent, SchedState};
use snapshot_relay::store::FileStore;
use snapshot_relay::tick::{tick_start, tick_step, TickAction, TickEvent, TickState};

fn sixty_second_config() -> Config {
    Config::new(
        String::from("localhost:9092"),
        String::from("snapshots"),
        String::from("http://camera.local/shot.png"),
        60000,
        String::from("image.png"),
    )
    .expect("valid configuration")
}

/// Drive one whole tick: feed it the fetch result, satisfy each ordered
/// action against the store (persist always succeeds here) and count the
/// enqueues; return the finished state.
fn drive_tick(
    store: &mut FileStore,
    enqueues: &mut u32,
    fetch: Result<Vec<u8>, snapshot_relay::errors::FetchError>,
) -> TickState {
    let first = match fetch {
        Ok(payload) => TickEvent::FetchSucceeded { payload },
        Err(error) => TickEvent::FetchFailed { error },
    };
    let mut state = tick_start();
    let mut event = first;
    loop {
        let (next, action) = tick_step(state, event);
        state = next;
        match action {
            TickAction::Persist => {
                let payload = match &state {
                    TickState::Persisting { payload } => payload.clone(),
                    _ => panic!("persist ordered without a payload"),
                };
                store.save(payload);
                event = TickEvent::PersistSucceeded;
            }
            TickAction::Publish => {
                *enqueues += 1;
                event = TickEvent::PublishEnqueued;
            }
            TickAction::Finish => return state,
        }
    }
}

#[test]
fn one_tick_writes_file_and_enqueues_once() {
    let config = sixty_second_config();
    assert_eq!(config.interval_ms, 60000);
    let mut store = FileStore::new();
    let mut enqueues: u32 = 0;
    let body = vec![0x50u8; 10240];
    let fetch = fetch_result(200, Ok(body.clone()));
    let state = drive_tick(&mut store, &mut enqueues, fetch);
    let saved = store.read().expect("the destination file exists after the tick");
    assert_eq!(saved.len(), 10240);
    assert_eq!(saved, &body);
    assert_eq!(enqueues, 1, "exactly one publish is enqueued per successful tick");
    match state {
        TickState::Done { outcome } => assert!(outcome.is_all_ok()),
        _ => panic!("tick should be done"),
    }
}

#[test]
fn http_500_writes_nothing_and_next_tick_fires() {
    let mut store = FileStore::new();
    let mut enqueues: u32 = 0;
    let fetch = fetch_result(500, Ok(vec![1u8, 2, 3]));
    let state = drive_tick(&mut store, &mut enqueues, fetch);
    let outcome = match state {
        TickState::Done { outcome } => outcome,
        _ => panic!("tick should be done"),
    };
    assert!(matches!(
        outcome.fetch,
        Err(snapshot_relay::errors::FetchError::HttpStatus { status: 500 })
    ));
    assert!(store.read().is_none(), "no file write on a failed fetch");
    assert_eq!(enqueues, 0, "no publish on a failed fetch");

    let loop_state = sched_start();
    let (loop_state, _) = sched_step(loop_state, SchedEvent::TimerFired);
    let (loop_state, _) = sched_step(loop_state, SchedEvent::HandlerFinished { outcome });
    let (loop_state, action) = sched_step(loop_state, SchedEvent::TimerFired);
    assert!(matches!(action, SchedAction::RunHandler), "the next tick still fires on schedule");
    assert_eq!(loop_state, SchedState::Running);
}

#[test]
fn ack_timeout_logged_while_file_write_stands() {
    let mut store = FileStore::new();
    let mut enqueues: u32 = 0;
    let body = vec![7u8; 1024];
    let fetch = fetch_result(200, Ok(body.clone()));
    let state = drive_tick(&mut store, &mut enqueues, fetch);
    let outcome = match state {
        TickState::Done { outcome } => outcome,
        _ => panic!("tick should be done"),
    };
    assert!(matches!(outcome.persist, Some(Ok(()))));

    // The acknowledgement times out long after the tick resolved.
    let report = SchedEvent::DeliveryReport {
        result: Err(PublishError::AckTimeout { timeout_ms: 5000 }),
    };
    let (loop_state, action) = sched_step(SchedState::Idle, report);
    match action {
        SchedAction::LogDelivery { result } => {
            assert!(matches!(result, Err(PublishError::AckTimeout { timeout_ms: 5000 })));
        }
        _ => panic!("the late failure must be logged, nothing more"),
    }
    assert_eq!(loop_state, SchedState::Idle, "the loop survives the late failure");
    assert_eq!(store.read().expect("file still present"), &body);
}

#[test]
fn three_periods_mean_four_handler_runs() {
    let config = sixty_second_config();
    assert_eq!(runs_due(3 * config.interval_ms, config.interval_ms), 4);
}
