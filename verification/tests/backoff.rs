use aperture_grpc_client::{
    ReconnectAction, ReconnectConfig, ReconnectState, StreamEvent,
};
use std::time::Duration;

fn policy(min_ms: u64, max_ms: u64, max_attempts: Option<u32>) -> ReconnectConfig {
    ReconnectConfig {
        enabled: true,
        min_delay: Duration::from_millis(min_ms),
        max_delay: Duration::from_millis(max_ms),
        max_attempts,
    }
}

#[test]
fn default_reconnect_policy_is_forever_from_100ms_to_5s() {
    let reconnect = ReconnectConfig::default();
    assert!(reconnect.enabled);
    assert_eq!(reconnect.min_delay, Duration::from_millis(100));
    assert_eq!(reconnect.max_delay, Duration::from_secs(5));
    assert_eq!(reconnect.max_attempts, None);
}

#[test]
fn backoff_doubles_then_caps() {
    let reconnect = ReconnectConfig::default();
    assert_eq!(reconnect.delay_for_attempt(0), Duration::from_millis(100));
    assert_eq!(reconnect.delay_for_attempt(1), Duration::from_millis(100));
    assert_eq!(reconnect.delay_for_attempt(2), Duration::from_millis(200));
    assert_eq!(reconnect.delay_for_attempt(3), Duration::from_millis(400));
    assert_eq!(reconnect.delay_for_attempt(6), Duration::from_millis(3200));
    assert_eq!(reconnect.delay_for_attempt(7), Duration::from_secs(5));
    assert_eq!(reconnect.delay_for_attempt(u32::MAX), Duration::from_secs(5));
}

#[test]
fn backoff_stops_growing_after_ten_doublings() {
    let reconnect = policy(1, 10_000_000, None);
    assert_eq!(reconnect.delay_for_attempt(11), Duration::from_millis(1024));
    assert_eq!(reconnect.delay_for_attempt(12), Duration::from_millis(1024));
    assert_eq!(reconnect.delay_for_attempt(1000), Duration::from_millis(1024));
}

#[test]
fn backoff_is_monotone_and_capped() {
    let reconnect = policy(3, 700, None);
    let mut previous = Duration::ZERO;
    for attempt in 0..40u32 {
        let delay = reconnect.delay_for_attempt(attempt);
        assert!(delay >= previous);
        assert!(delay <= Duration::from_millis(700));
        previous = delay;
    }
}

#[test]
fn backoff_saturates_at_the_largest_duration() {
    let reconnect = ReconnectConfig {
        enabled: true,
        min_delay: Duration::MAX,
        max_delay: Duration::MAX,
        max_attempts: None,
    };
    assert_eq!(reconnect.delay_for_attempt(5), Duration::MAX);
    let capped = ReconnectConfig {
        max_delay: Duration::from_secs(1),
        ..reconnect
    };
    assert_eq!(capped.delay_for_attempt(5), Duration::from_secs(1));
}

#[test]
fn backoff_with_max_below_min_waits_max() {
    let reconnect = policy(500, 200, None);
    assert_eq!(reconnect.delay_for_attempt(1), Duration::from_millis(200));
    assert_eq!(reconnect.delay_for_attempt(9), Duration::from_millis(200));
}

#[test]
fn opened_stream_is_read_and_resets_attempts() {
    let reconnect = policy(100, 5000, Some(3));
    let (state, action) = reconnect.on_event(ReconnectState { attempt: 2 }, StreamEvent::Subscribed);
    assert_eq!(state.attempt, 0);
    assert_eq!(action, ReconnectAction::ReadNext);
}

#[test]
fn received_item_is_delivered_and_resets_attempts() {
    let reconnect = policy(100, 5000, Some(3));
    let (state, action) = reconnect.on_event(ReconnectState { attempt: 3 }, StreamEvent::Received);
    assert_eq!(state.attempt, 0);
    assert_eq!(action, ReconnectAction::Deliver);
}

#[test]
fn disconnect_retries_with_backoff() {
    let reconnect = policy(100, 5000, None);
    let (state, action) = reconnect.on_event(ReconnectState::new(), StreamEvent::Ended);
    assert_eq!(state.attempt, 1);
    assert_eq!(
        action,
        ReconnectAction::Retry { attempt: 1, delay: Duration::from_millis(100) }
    );
    let (state, action) = reconnect.on_event(state, StreamEvent::StreamFailed);
    assert_eq!(state.attempt, 2);
    assert_eq!(
        action,
        ReconnectAction::Retry { attempt: 2, delay: Duration::from_millis(200) }
    );
    let (state, action) = reconnect.on_event(state, StreamEvent::SubscribeFailed);
    assert_eq!(state.attempt, 3);
    assert_eq!(
        action,
        ReconnectAction::Retry { attempt: 3, delay: Duration::from_millis(400) }
    );
}

#[test]
fn gives_up_after_max_attempts() {
    let reconnect = policy(100, 5000, Some(2));
    let mut state = ReconnectState::new();
    let mut retries = 0;
    loop {
        let (next, action) = reconnect.on_event(state, StreamEvent::SubscribeFailed);
        state = next;
        match action {
            ReconnectAction::Retry { attempt, .. } => {
                retries += 1;
                assert_eq!(attempt, retries);
            }
            ReconnectAction::GiveUp { attempts } => {
                assert_eq!(attempts, 2);
                break;
            }
            other => panic!("unexpected action {:?}", other),
        }
    }
    assert_eq!(retries, 2);
}

#[test]
fn zero_max_attempts_gives_up_at_first_disconnect() {
    let reconnect = policy(100, 5000, Some(0));
    let (_, action) = reconnect.on_event(ReconnectState::new(), StreamEvent::Ended);
    assert_eq!(action, ReconnectAction::GiveUp { attempts: 0 });
}

#[test]
fn progress_between_failures_restarts_the_count() {
    let reconnect = policy(100, 5000, Some(1));
    let (state, action) = reconnect.on_event(ReconnectState::new(), StreamEvent::StreamFailed);
    assert!(matches!(action, ReconnectAction::Retry { attempt: 1, .. }));
    let (state, _) = reconnect.on_event(state, StreamEvent::Subscribed);
    let (state, _) = reconnect.on_event(state, StreamEvent::Received);
    let (_, action) = reconnect.on_event(state, StreamEvent::StreamFailed);
    assert!(matches!(action, ReconnectAction::Retry { attempt: 1, .. }));
}

#[test]
fn disabled_reconnect_fails_or_stops() {
    let reconnect = ReconnectConfig { enabled: false, ..ReconnectConfig::default() };
    let start = ReconnectState { attempt: 4 };
    assert_eq!(reconnect.on_event(start, StreamEvent::SubscribeFailed), (start, ReconnectAction::Fail));
    assert_eq!(reconnect.on_event(start, StreamEvent::StreamFailed), (start, ReconnectAction::Fail));
    assert_eq!(reconnect.on_event(start, StreamEvent::Ended), (start, ReconnectAction::Stop));
}

#[test]
fn attempt_count_saturates_without_limit() {
    let reconnect = policy(100, 5000, None);
    let (state, action) = reconnect.on_event(ReconnectState { attempt: u32::MAX }, StreamEvent::Ended);
    assert_eq!(state.attempt, u32::MAX);
    assert_eq!(
        action,
        ReconnectAction::Retry { attempt: u32::MAX, delay: Duration::from_secs(5) }
    );
}
