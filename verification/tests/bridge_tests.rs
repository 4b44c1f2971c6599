use workshop_cache::bridge_step;
use workshop_cache::filter_fetched;
use workshop_cache::worker_poll_step;
use workshop_cache::BridgeAction;
use workshop_cache::BridgeEvent;
use workshop_cache::BridgeState;
use workshop_cache::Classification;
use workshop_cache::ItemRecord;
use workshop_cache::WorkerStep;
use workshop_cache::FETCH_TIMEOUT_MS;

fn record(id: u64, classification: Classification) -> ItemRecord {
    ItemRecord {
        published_file_id: id,
        title: format!("item {}", id),
        owner_id: id * 10,
        classification,
        time_created: 1,
        time_updated: 2,
    }
}

#[test]
fn test_worker_times_out_only_after_deadline() {
    assert!(matches!(worker_poll_step(None, 0), WorkerStep::KeepPolling));
    assert!(matches!(worker_poll_step(None, FETCH_TIMEOUT_MS), WorkerStep::KeepPolling));
    assert!(matches!(worker_poll_step(None, FETCH_TIMEOUT_MS + 1), WorkerStep::Expire));
    assert!(matches!(worker_poll_step(None, u64::MAX), WorkerStep::Expire));
}

#[test]
fn test_worker_delivers_response_even_past_deadline() {
    let step = worker_poll_step(Some(Ok(vec![Some(record(1, Classification::Community))])), FETCH_TIMEOUT_MS + 500);
    match step {
        WorkerStep::Deliver(Ok(items)) => {
            assert_eq!(items.len(), 1);
            assert_eq!(items[0].as_ref().unwrap().published_file_id, 1);
        }
        _ => panic!("expected a delivery"),
    }
}

#[test]
fn test_filter_keeps_only_community_records() {
    let fetched = vec![
        Some(record(1, Classification::Community)),
        None,
        Some(record(2, Classification::Other)),
        Some(record(3, Classification::Community)),
    ];
    let kept = filter_fetched(fetched);
    let ids: Vec<u64> = kept.iter().map(|r| r.published_file_id).collect();
    assert_eq!(ids, vec![1, 3]);
}

#[test]
fn test_bridge_happy_path() {
    let (state, action) = bridge_step(BridgeState::Idle, BridgeEvent::FetchRequested);
    assert!(matches!(state, BridgeState::Fetching));
    assert_eq!(action, BridgeAction::SpawnWorker);

    let (state, action) = bridge_step(state, BridgeEvent::PumpSignal);
    assert!(matches!(state, BridgeState::Fetching));
    assert_eq!(action, BridgeAction::Pump);

    let response = Ok(vec![
        Some(record(1, Classification::Community)),
        Some(record(2, Classification::Other)),
        None,
    ]);
    let (state, action) = bridge_step(state, BridgeEvent::WorkerDelivered(response));
    assert_eq!(action, BridgeAction::Ignore);
    match state {
        BridgeState::Completed(items) => {
            let ids: Vec<u64> = items.iter().map(|r| r.published_file_id).collect();
            assert_eq!(ids, vec![1]);
        }
        _ => panic!("expected completion"),
    }
}

#[test]
fn test_bridge_timeout_is_terminal_and_distinct() {
    let (state, _) = bridge_step(BridgeState::Fetching, BridgeEvent::WorkerExpired);
    assert!(matches!(state, BridgeState::TimedOut));

    // A late completion is discarded, not acted on.
    let late = Ok(vec![Some(record(9, Classification::Community))]);
    let (state, action) = bridge_step(state, BridgeEvent::WorkerDelivered(late));
    assert!(matches!(state, BridgeState::TimedOut));
    assert_eq!(action, BridgeAction::Ignore);

    let (state, action) = bridge_step(state, BridgeEvent::PumpSignal);
    assert!(matches!(state, BridgeState::TimedOut));
    assert_eq!(action, BridgeAction::Ignore);
}

#[test]
fn test_bridge_failure_kinds_stay_distinct() {
    let (state, _) = bridge_step(
        BridgeState::Fetching,
        BridgeEvent::WorkerDelivered(Err("platform said no".to_string())),
    );
    match state {
        BridgeState::Failed(message) => assert_eq!(message, "platform said no"),
        _ => panic!("expected a platform failure"),
    }

    let (state, _) = bridge_step(
        BridgeState::Fetching,
        BridgeEvent::WorkerFault("worker panicked".to_string()),
    );
    match state {
        BridgeState::InternalTaskError(message) => assert_eq!(message, "worker panicked"),
        _ => panic!("expected an internal fault"),
    }
}

#[test]
fn test_idle_absorbs_everything_but_a_request() {
    let (state, action) = bridge_step(BridgeState::Idle, BridgeEvent::PumpSignal);
    assert!(matches!(state, BridgeState::Idle));
    assert_eq!(action, BridgeAction::Ignore);
}
