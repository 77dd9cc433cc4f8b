use rs_rabbitmq::{
    AcquireAction, AcquireEvent, AcquireState, BrokerError, ConfigProblem, RabbitConnectionManager,
    RetryPolicy, DEFAULT_RETRY_DELAY_MS,
};

fn local_manager() -> RabbitConnectionManager {
    RabbitConnectionManager::new(
        "localhost".to_string(),
        5672,
        "guest".to_string(),
        "guest".to_string(),
    )
}

/// Drives one acquisition: `outcomes[i]` tells whether attempt `i` opens.
/// Returns the final state, the total wait in milliseconds and the last action.
fn drive(
    manager: &RabbitConnectionManager,
    outcomes: &[bool],
) -> (AcquireState, u64, AcquireAction) {
    let (mut state, mut action) = manager.advance(AcquireState::Disconnected, AcquireEvent::Begin);
    let mut waited: u64 = 0;
    for &opened in outcomes {
        match action {
            AcquireAction::Open | AcquireAction::WaitThenOpen { .. } => {}
            _ => break,
        }
        if let AcquireAction::WaitThenOpen { delay_ms } = action {
            waited += delay_ms;
        }
        let event = if opened { AcquireEvent::Opened } else { AcquireEvent::OpenFailed };
        let (s, a) = manager.advance(state, event);
        state = s;
        action = a;
    }
    (state, waited, action)
}

#[test]
fn new_keeps_parameters_and_defaults() {
    let m = local_manager();
    assert_eq!(m.host(), "localhost");
    assert_eq!(m.port(), 5672);
    assert_eq!(m.username(), "guest");
    assert_eq!(m.password(), "guest");
    assert_eq!(m.virtual_host(), "/");
    assert_eq!(m.retry_policy(), RetryPolicy { max_attempts: None, delay_ms: 2000 });
    assert_eq!(DEFAULT_RETRY_DELAY_MS, 2000);
}

#[test]
fn builders_replace_one_field() {
    let m = local_manager()
        .with_virtual_host("staging".to_string())
        .with_retry_policy(RetryPolicy::bounded(5, 100));
    assert_eq!(m.virtual_host(), "staging");
    assert_eq!(m.retry_policy(), RetryPolicy { max_attempts: Some(5), delay_ms: 100 });
    assert_eq!(m.host(), "localhost");
    assert_eq!(m.port(), 5672);
}

#[test]
fn local_broker_config_acquires_and_opens_channel() {
    let m = local_manager();
    assert_eq!(m.validate(), Ok(()));
    let (s, a) = m.advance(AcquireState::Disconnected, AcquireEvent::Begin);
    assert_eq!(s, AcquireState::Connecting { failures: 0 });
    assert_eq!(a, AcquireAction::Open);
    let (s, a) = m.advance(s, AcquireEvent::Opened);
    assert_eq!(s, AcquireState::Connected { failures: 0 });
    assert_eq!(a, AcquireAction::Deliver);
    assert_eq!(RabbitConnectionManager::channel_outcome::<u16>(Ok(1)), Ok(1));
}

#[test]
fn repeated_acquisitions_each_connect() {
    let m = local_manager();
    for _ in 0..3 {
        let (s, waited, a) = drive(&m, &[true]);
        assert_eq!(s, AcquireState::Connected { failures: 0 });
        assert_eq!(waited, 0);
        assert_eq!(a, AcquireAction::Deliver);
    }
}

#[test]
fn unbounded_retry_recovers_after_failures() {
    let m = local_manager();
    let (s, waited, a) = drive(&m, &[false, false, false, true]);
    assert_eq!(s, AcquireState::Connected { failures: 3 });
    assert_eq!(waited, 3 * 2000);
    assert_eq!(a, AcquireAction::Deliver);
}

#[test]
fn failed_attempt_waits_two_seconds() {
    let m = local_manager();
    let (s, a) = m.advance(AcquireState::Connecting { failures: 0 }, AcquireEvent::OpenFailed);
    assert_eq!(s, AcquireState::Connecting { failures: 1 });
    assert_eq!(a, AcquireAction::WaitThenOpen { delay_ms: 2000 });
}

#[test]
fn bounded_retry_gives_up_at_the_maximum() {
    let m = local_manager().with_retry_policy(RetryPolicy::bounded(3, 50));
    let (s, waited, a) = drive(&m, &[false, false, false, true, true]);
    assert_eq!(s, AcquireState::Failed { failures: 3 });
    assert_eq!(waited, 2 * 50);
    assert_eq!(a, AcquireAction::Surface(BrokerError::TransientConnectivity { attempts: 3 }));
}

#[test]
fn bounded_retry_connects_before_the_maximum() {
    let m = local_manager().with_retry_policy(RetryPolicy::bounded(3, 50));
    let (s, waited, a) = drive(&m, &[false, false, true]);
    assert_eq!(s, AcquireState::Connected { failures: 2 });
    assert_eq!(waited, 100);
    assert_eq!(a, AcquireAction::Deliver);
}

#[test]
fn zero_maximum_still_makes_one_attempt() {
    let m = local_manager().with_retry_policy(RetryPolicy::bounded(0, 50));
    let (s, a) = m.advance(AcquireState::Disconnected, AcquireEvent::Begin);
    assert_eq!(a, AcquireAction::Open);
    let (s, a) = m.advance(s, AcquireEvent::OpenFailed);
    assert_eq!(s, AcquireState::Failed { failures: 1 });
    assert_eq!(a, AcquireAction::Surface(BrokerError::TransientConnectivity { attempts: 1 }));
}

#[test]
fn failure_count_saturates() {
    let m = local_manager();
    let (s, a) = m.advance(AcquireState::Connecting { failures: u64::MAX }, AcquireEvent::OpenFailed);
    assert_eq!(s, AcquireState::Connecting { failures: u64::MAX });
    assert_eq!(a, AcquireAction::WaitThenOpen { delay_ms: 2000 });
}

#[test]
fn empty_host_is_a_configuration_error() {
    let m = RabbitConnectionManager::new(String::new(), 5672, "guest".to_string(), "guest".to_string());
    assert_eq!(m.validate(), Err(ConfigProblem::EmptyHost));
    let (s, a) = m.advance(AcquireState::Disconnected, AcquireEvent::Begin);
    assert_eq!(s, AcquireState::Failed { failures: 0 });
    assert_eq!(a, AcquireAction::Surface(BrokerError::Configuration(ConfigProblem::EmptyHost)));
}

#[test]
fn zero_port_is_a_configuration_error() {
    let m = RabbitConnectionManager::new("localhost".to_string(), 0, "guest".to_string(), "guest".to_string());
    assert_eq!(m.validate(), Err(ConfigProblem::ZeroPort));
    let (_, a) = m.advance(AcquireState::Disconnected, AcquireEvent::Begin);
    assert_eq!(a, AcquireAction::Surface(BrokerError::Configuration(ConfigProblem::ZeroPort)));
}

#[test]
fn highest_port_is_valid() {
    let m = RabbitConnectionManager::new("h".to_string(), 65535, String::new(), String::new());
    assert_eq!(m.validate(), Ok(()));
}

#[test]
fn events_out_of_place_are_ignored() {
    let m = local_manager();
    let connected = AcquireState::Connected { failures: 2 };
    for e in [AcquireEvent::Begin, AcquireEvent::Opened, AcquireEvent::OpenFailed] {
        assert_eq!(m.advance(connected, e), (connected, AcquireAction::Ignore));
    }
    let (s, a) = m.advance(AcquireState::Disconnected, AcquireEvent::Opened);
    assert_eq!(s, AcquireState::Disconnected);
    assert_eq!(a, AcquireAction::Ignore);
    let failed = AcquireState::Failed { failures: 4 };
    assert_eq!(m.advance(failed, AcquireEvent::Opened), (failed, AcquireAction::Ignore));
}

#[test]
fn channel_failure_is_surfaced_as_negotiation_failure() {
    let r = RabbitConnectionManager::channel_outcome::<u16>(Err("channel closed".to_string()));
    assert_eq!(r, Err(BrokerError::ChannelNegotiation { cause: "channel closed".to_string() }));
}
