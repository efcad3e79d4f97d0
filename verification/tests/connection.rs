use aranet_cli::backoff::{BackoffPolicy, BackoffState};
use aranet_cli::connection::{ConnectStep, ConnectionSupervisor, Ensured};

fn backoff() -> BackoffState {
    BackoffState::new(BackoffPolicy::standard())
}

#[test]
fn supervisor_connects_when_it_holds_nothing() {
    let supervisor: ConnectionSupervisor<&str> = ConnectionSupervisor::new();
    assert!(!supervisor.is_connected());
    assert!(supervisor.handle().is_none());
    assert_eq!(supervisor.next_step(), ConnectStep::Connect);
}

#[test]
fn supervisor_stores_a_new_handle_and_resets_the_backoff() {
    let mut supervisor = ConnectionSupervisor::new();
    let mut backoff = backoff();
    backoff.on_failure();
    backoff.on_failure();
    match supervisor.on_connect(Some("a"), &mut backoff) {
        Ensured::Connected { replaced } => assert_eq!(replaced, None),
        Ensured::RetryAfter { .. } => panic!("a handle was offered"),
    }
    assert_eq!(supervisor.handle(), Some(&"a"));
    assert_eq!(backoff.current_delay(), 2);
    assert_eq!(supervisor.next_step(), ConnectStep::Probe);
}

#[test]
fn supervisor_announces_growing_delays_on_failure() {
    let mut supervisor: ConnectionSupervisor<&str> = ConnectionSupervisor::new();
    let mut backoff = backoff();
    for expected in [2, 4, 8] {
        match supervisor.on_connect(None, &mut backoff) {
            Ensured::RetryAfter { delay, discarded } => {
                assert_eq!(delay, expected);
                assert_eq!(discarded, None);
            }
            Ensured::Connected { .. } => panic!("no handle was offered"),
        }
        assert!(!supervisor.is_connected());
    }
}

#[test]
fn supervisor_keeps_a_live_handle_unchanged() {
    let mut supervisor = ConnectionSupervisor::new();
    let mut backoff = backoff();
    supervisor.on_connect(Some("a"), &mut backoff);
    backoff.on_failure();
    assert!(supervisor.on_probe(true, &mut backoff));
    assert_eq!(supervisor.handle(), Some(&"a"));
    assert_eq!(backoff.current_delay(), 2);
}

#[test]
fn supervisor_discards_a_dead_handle_with_the_attempt() {
    let mut supervisor = ConnectionSupervisor::new();
    let mut backoff = backoff();
    supervisor.on_connect(Some("a"), &mut backoff);
    assert!(!supervisor.on_probe(false, &mut backoff));
    assert_eq!(supervisor.next_step(), ConnectStep::Connect);
    assert!(!supervisor.on_probe(true, &mut backoff));
    assert!(supervisor.is_connected());
    match supervisor.on_connect(None, &mut backoff) {
        Ensured::RetryAfter { delay, discarded } => {
            assert_eq!(delay, 2);
            assert_eq!(discarded, Some("a"));
        }
        Ensured::Connected { .. } => panic!("no handle was offered"),
    }
    assert!(!supervisor.is_connected());

    let mut supervisor = ConnectionSupervisor::new();
    supervisor.on_connect(Some("a"), &mut backoff);
    supervisor.on_probe(false, &mut backoff);
    match supervisor.on_connect(Some("b"), &mut backoff) {
        Ensured::Connected { replaced } => assert_eq!(replaced, Some("a")),
        Ensured::RetryAfter { .. } => panic!("a handle was offered"),
    }
    assert_eq!(supervisor.handle(), Some(&"b"));
}

#[test]
fn supervisor_probe_without_a_handle_is_not_usable() {
    let mut supervisor: ConnectionSupervisor<&str> = ConnectionSupervisor::new();
    let mut backoff = backoff();
    backoff.on_failure();
    assert!(!supervisor.on_probe(true, &mut backoff));
    assert_eq!(backoff.current_delay(), 4);
    assert!(!supervisor.is_connected());
}

#[test]
fn supervisor_gives_up_the_handle_after_a_read_failure() {
    let mut supervisor = ConnectionSupervisor::new();
    let mut backoff = backoff();
    supervisor.on_connect(Some("a"), &mut backoff);
    assert_eq!(supervisor.report_read_failure(), Some("a"));
    assert!(!supervisor.is_connected());
    assert_eq!(supervisor.next_step(), ConnectStep::Connect);
    assert_eq!(supervisor.report_read_failure(), None);
}

#[test]
fn supervisor_shutdown_is_idempotent() {
    let mut supervisor = ConnectionSupervisor::new();
    let mut backoff = backoff();
    supervisor.on_connect(Some("a"), &mut backoff);
    assert_eq!(supervisor.shutdown(), Some("a"));
    assert_eq!(supervisor.shutdown(), None);
    assert_eq!(supervisor.shutdown(), None);
    assert!(!supervisor.is_connected());
}
