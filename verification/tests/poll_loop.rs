use aranet_cli::backoff::BackoffPolicy;
use aranet_cli::notice::Notice;
use aranet_cli::poll_loop::{
    Directive, EmitState, Event, Phase, PollLoop, ProgressCounters, Release, Request,
    Termination,
};
use aranet_cli::session::{OutputFormat, SessionError, WatchSession};

fn session(interval: u64, count: u32) -> WatchSession {
    WatchSession::new("AA:BB:CC:DD:EE:FF".to_string(), interval, count, 10_000).unwrap()
}

fn csv_loop(interval: u64, count: u32, no_header: bool) -> PollLoop<u32> {
    PollLoop::new(session(interval, count), OutputFormat::Csv, no_header)
}

fn accept(poll_loop: &mut PollLoop<u32>, event: Event<u32>) -> Directive<u32> {
    match poll_loop.step(event) {
        Ok(directive) => directive,
        Err(_) => panic!("the event was not admitted"),
    }
}

fn released(release: &Release<u32>) -> Option<(bool, u32)> {
    match release {
        Release::Nothing => None,
        Release::Disconnect(h) => Some((true, *h)),
        Release::Discard(h) => Some((false, *h)),
    }
}

#[test]
fn session_rejects_zero_durations() {
    assert_eq!(
        WatchSession::new("x".to_string(), 0, 0, 1).err(),
        Some(SessionError::ZeroInterval)
    );
    assert_eq!(
        WatchSession::new("x".to_string(), 0, 0, 0).err(),
        Some(SessionError::ZeroInterval)
    );
    assert_eq!(
        WatchSession::new("x".to_string(), 1, 0, 0).err(),
        Some(SessionError::ZeroTimeout)
    );
    let ok = WatchSession::new("x".to_string(), 5, 3, 10_000).unwrap();
    assert_eq!(ok.identifier(), "x");
    assert_eq!(ok.poll_interval_secs(), 5);
    assert_eq!(ok.count_limit(), 3);
    assert_eq!(ok.connect_timeout_ms(), 10_000);
}

#[test]
fn session_limit_is_reached_only_when_bounded() {
    let unbounded = session(5, 0);
    assert!(!unbounded.limit_reached(0));
    assert!(!unbounded.limit_reached(u64::MAX));
    let bounded = session(5, 3);
    assert!(!bounded.limit_reached(2));
    assert!(bounded.limit_reached(3));
    assert!(bounded.limit_reached(4));
}

#[test]
fn loop_starts_disconnected_and_asks_to_connect() {
    let poll_loop = csv_loop(5, 0, false);
    assert_eq!(poll_loop.phase(), Phase::AwaitingConnection);
    assert_eq!(poll_loop.pending(), Request::Connect);
    assert_eq!(poll_loop.readings_taken(), 0);
    assert!(!poll_loop.header_written());
    assert!(!poll_loop.is_connected());
    assert!(poll_loop.handle().is_none());
    assert!(!poll_loop.is_terminated());
    assert_eq!(poll_loop.backoff_delay(), 2);
    assert_eq!(poll_loop.format(), OutputFormat::Csv);
    assert_eq!(poll_loop.session().poll_interval_secs(), 5);
    assert!(csv_loop(5, 0, true).header_written());
}

#[test]
fn scenario_two_failures_four_reads_then_cancel() {
    let mut poll_loop: PollLoop<u32> =
        PollLoop::new(session(5, 0), OutputFormat::Csv, false);
    let mut waits = Vec::new();
    let mut headers = Vec::new();

    for _ in 0..2 {
        assert_eq!(poll_loop.pending(), Request::Connect);
        let d = accept(&mut poll_loop, Event::ConnectFailed);
        match d.request {
            Request::Wait { secs } => waits.push(secs),
            other => panic!("expected a wait, got {:?}", other),
        }
        assert_eq!(d.notice, Some(Notice::ConnectFailed { retry_in: *waits.last().unwrap() }));
        let d = accept(&mut poll_loop, Event::WaitElapsed);
        assert_eq!(d.request, Request::Connect);
    }
    assert_eq!(waits, vec![2, 4]);

    let d = accept(&mut poll_loop, Event::Connected(1));
    assert_eq!(d.request, Request::Read { with_header: true });
    assert_eq!(poll_loop.backoff_delay(), 2);
    assert_eq!(poll_loop.handle(), Some(&1));

    for n in 0..3 {
        match poll_loop.pending() {
            Request::Read { with_header } => headers.push(with_header),
            other => panic!("expected a read, got {:?}", other),
        }
        let d = accept(&mut poll_loop, Event::Emitted);
        assert_eq!(d.request, Request::Wait { secs: 5 });
        assert_eq!(poll_loop.readings_taken(), n + 1);
        let d = accept(&mut poll_loop, Event::WaitElapsed);
        assert_eq!(d.request, Request::Probe);
        let d = accept(&mut poll_loop, Event::Probed { alive: true });
        assert!(matches!(d.request, Request::Read { .. }));
    }

    let d = accept(&mut poll_loop, Event::ReadFailed);
    assert_eq!(d.notice, Some(Notice::ReadFailed));
    assert_eq!(released(&d.release), Some((true, 1)));
    assert_eq!(d.request, Request::Connect);
    assert_eq!(poll_loop.readings_taken(), 3);

    let d = accept(&mut poll_loop, Event::Connected(2));
    assert_eq!(d.request, Request::Read { with_header: false });
    headers.push(false);
    let d = accept(&mut poll_loop, Event::Emitted);
    assert_eq!(d.request, Request::Wait { secs: 5 });

    let d = accept(&mut poll_loop, Event::Cancelled);
    assert_eq!(d.request, Request::Stop(Termination::Cancelled));
    assert_eq!(d.notice, Some(Notice::ShuttingDown));
    assert_eq!(released(&d.release), Some((true, 2)));

    assert_eq!(poll_loop.readings_taken(), 4);
    assert_eq!(headers, vec![true, false, false, false]);
    assert_eq!(poll_loop.phase(), Phase::Terminated(Termination::Cancelled));
    assert!(poll_loop.is_terminated());
    assert!(!poll_loop.is_connected());
    assert!(poll_loop.step(Event::Emitted).is_err());
    assert!(poll_loop.step(Event::WaitElapsed).is_err());
    assert!(poll_loop.step(Event::Connected(3)).is_err());
    assert_eq!(poll_loop.readings_taken(), 4);
    assert_eq!(poll_loop.pending(), Request::Stop(Termination::Cancelled));
}

#[test]
fn consecutive_failures_wait_two_four_eight_up_to_three_hundred() {
    let mut poll_loop = csv_loop(5, 0, false);
    let mut waits = Vec::new();
    for _ in 0..10 {
        let d = accept(&mut poll_loop, Event::ConnectFailed);
        match d.request {
            Request::Wait { secs } => {
                assert_eq!(poll_loop.phase(), Phase::BackoffWait { delay: secs });
                waits.push(secs)
            }
            other => panic!("expected a wait, got {:?}", other),
        }
        accept(&mut poll_loop, Event::WaitElapsed);
    }
    assert_eq!(waits, vec![2, 4, 8, 16, 32, 64, 128, 256, 300, 300]);
    accept(&mut poll_loop, Event::Connected(7));
    accept(&mut poll_loop, Event::ReadFailed);
    let d = accept(&mut poll_loop, Event::ConnectFailed);
    assert_eq!(d.request, Request::Wait { secs: 2 });
}

#[test]
fn custom_policy_sets_the_delays() {
    let policy = BackoffPolicy::new(3, 20).unwrap();
    let mut poll_loop: PollLoop<u32> =
        PollLoop::with_policy(session(1, 0), OutputFormat::Text, policy, false);
    let mut waits = Vec::new();
    for _ in 0..5 {
        if let Request::Wait { secs } = accept(&mut poll_loop, Event::ConnectFailed).request {
            waits.push(secs);
        }
        accept(&mut poll_loop, Event::WaitElapsed);
    }
    assert_eq!(waits, vec![3, 6, 12, 20, 20]);
}

#[test]
fn count_limit_ends_the_loop_after_exactly_that_many_reads() {
    let mut poll_loop = csv_loop(5, 2, false);
    accept(&mut poll_loop, Event::ConnectFailed);
    accept(&mut poll_loop, Event::WaitElapsed);
    accept(&mut poll_loop, Event::Connected(1));
    accept(&mut poll_loop, Event::ReadFailed);
    accept(&mut poll_loop, Event::Connected(2));
    let d = accept(&mut poll_loop, Event::Emitted);
    assert_eq!(d.request, Request::Wait { secs: 5 });
    accept(&mut poll_loop, Event::WaitElapsed);
    accept(&mut poll_loop, Event::Probed { alive: true });
    let d = accept(&mut poll_loop, Event::Emitted);
    assert_eq!(d.request, Request::Stop(Termination::Completed));
    assert_eq!(d.notice, Some(Notice::Completed { readings: 2 }));
    assert_eq!(released(&d.release), Some((true, 2)));
    assert_eq!(poll_loop.readings_taken(), 2);
    assert_eq!(poll_loop.phase(), Phase::Terminated(Termination::Completed));
    for event in [
        Event::Connected(9),
        Event::ConnectFailed,
        Event::Probed { alive: true },
        Event::ReadFailed,
        Event::Emitted,
        Event::EmitFailed,
        Event::WaitElapsed,
        Event::Cancelled,
    ] {
        assert!(poll_loop.step(event).is_err());
    }
    assert_eq!(poll_loop.readings_taken(), 2);
}

#[test]
fn count_limit_of_one_stops_without_an_interval_wait() {
    let mut poll_loop = csv_loop(60, 1, false);
    accept(&mut poll_loop, Event::Connected(1));
    let d = accept(&mut poll_loop, Event::Emitted);
    assert_eq!(d.request, Request::Stop(Termination::Completed));
    assert_eq!(d.notice, Some(Notice::Completed { readings: 1 }));
}

#[test]
fn header_is_written_once_across_reconnects() {
    let mut poll_loop = csv_loop(5, 0, false);
    accept(&mut poll_loop, Event::Connected(1));
    assert_eq!(poll_loop.pending(), Request::Read { with_header: true });
    accept(&mut poll_loop, Event::ReadFailed);
    assert!(!poll_loop.header_written());
    let d = accept(&mut poll_loop, Event::Connected(2));
    assert_eq!(d.request, Request::Read { with_header: true });
    accept(&mut poll_loop, Event::Emitted);
    assert!(poll_loop.header_written());
    accept(&mut poll_loop, Event::WaitElapsed);
    accept(&mut poll_loop, Event::Probed { alive: false });
    let d = accept(&mut poll_loop, Event::Connected(3));
    assert_eq!(d.request, Request::Read { with_header: false });
    accept(&mut poll_loop, Event::Emitted);
    accept(&mut poll_loop, Event::WaitElapsed);
    let d = accept(&mut poll_loop, Event::Probed { alive: true });
    assert_eq!(d.request, Request::Read { with_header: false });
}

#[test]
fn header_is_never_asked_for_when_suppressed_or_not_csv() {
    let mut suppressed = csv_loop(5, 0, true);
    let d = accept(&mut suppressed, Event::Connected(1));
    assert_eq!(d.request, Request::Read { with_header: false });

    for format in [OutputFormat::Text, OutputFormat::Json] {
        let mut poll_loop: PollLoop<u32> = PollLoop::new(session(5, 0), format, false);
        let d = accept(&mut poll_loop, Event::Connected(1));
        assert_eq!(d.request, Request::Read { with_header: false });
        accept(&mut poll_loop, Event::Emitted);
        assert!(!poll_loop.header_written());
    }
}

#[test]
fn cancellation_during_backoff_wait_terminates_at_once() {
    let mut poll_loop = csv_loop(5, 0, false);
    accept(&mut poll_loop, Event::ConnectFailed);
    let d = accept(&mut poll_loop, Event::Cancelled);
    assert_eq!(d.request, Request::Stop(Termination::Cancelled));
    assert_eq!(released(&d.release), None);
    assert!(poll_loop.is_terminated());
    assert!(poll_loop.step(Event::WaitElapsed).is_err());
}

#[test]
fn cancellation_during_interval_wait_disconnects() {
    let mut poll_loop = csv_loop(5, 0, false);
    accept(&mut poll_loop, Event::Connected(4));
    accept(&mut poll_loop, Event::Emitted);
    let d = accept(&mut poll_loop, Event::Cancelled);
    assert_eq!(d.request, Request::Stop(Termination::Cancelled));
    assert_eq!(released(&d.release), Some((true, 4)));
    assert!(!poll_loop.is_connected());
}

#[test]
fn cancellation_before_a_connection_attempt_is_honoured() {
    let mut poll_loop = csv_loop(5, 0, false);
    let d = accept(&mut poll_loop, Event::Cancelled);
    assert_eq!(d.request, Request::Stop(Termination::Cancelled));
    assert_eq!(released(&d.release), None);

    let mut poll_loop = csv_loop(5, 0, false);
    accept(&mut poll_loop, Event::Connected(4));
    accept(&mut poll_loop, Event::Emitted);
    accept(&mut poll_loop, Event::WaitElapsed);
    accept(&mut poll_loop, Event::Probed { alive: false });
    let d = accept(&mut poll_loop, Event::Cancelled);
    assert_eq!(released(&d.release), Some((true, 4)));
}

#[test]
fn cancellation_does_not_interrupt_a_read() {
    let mut poll_loop = csv_loop(5, 0, false);
    accept(&mut poll_loop, Event::Connected(4));
    assert!(matches!(poll_loop.step(Event::Cancelled), Err(Event::Cancelled)));
    assert_eq!(poll_loop.phase(), Phase::Reading);
    assert!(poll_loop.is_connected());
}

#[test]
fn read_failure_is_not_counted_and_forces_a_new_connection() {
    let mut poll_loop = csv_loop(5, 0, false);
    accept(&mut poll_loop, Event::Connected(1));
    accept(&mut poll_loop, Event::Emitted);
    accept(&mut poll_loop, Event::WaitElapsed);
    accept(&mut poll_loop, Event::Probed { alive: true });
    let d = accept(&mut poll_loop, Event::ReadFailed);
    assert_eq!(poll_loop.readings_taken(), 1);
    assert_eq!(released(&d.release), Some((true, 1)));
    assert_eq!(d.request, Request::Connect);
    assert_eq!(poll_loop.phase(), Phase::AwaitingConnection);
    assert!(!poll_loop.is_connected());
    assert!(poll_loop.step(Event::Probed { alive: true }).is_err());
    assert!(poll_loop.step(Event::Emitted).is_err());
    assert_eq!(poll_loop.pending(), Request::Connect);
}

#[test]
fn dead_handle_is_kept_until_the_attempt_is_over() {
    let mut poll_loop = csv_loop(5, 0, false);
    accept(&mut poll_loop, Event::Connected(1));
    accept(&mut poll_loop, Event::Emitted);
    accept(&mut poll_loop, Event::WaitElapsed);
    let d = accept(&mut poll_loop, Event::Probed { alive: false });
    assert_eq!(d.notice, Some(Notice::ConnectionLost));
    assert_eq!(d.request, Request::Connect);
    assert_eq!(released(&d.release), None);
    assert!(poll_loop.is_connected());
    assert!(poll_loop.step(Event::Probed { alive: true }).is_err());
    let d = accept(&mut poll_loop, Event::ConnectFailed);
    assert_eq!(released(&d.release), Some((false, 1)));
    assert_eq!(d.request, Request::Wait { secs: 2 });
    assert!(!poll_loop.is_connected());

    let mut poll_loop = csv_loop(5, 0, false);
    accept(&mut poll_loop, Event::Connected(1));
    accept(&mut poll_loop, Event::Emitted);
    accept(&mut poll_loop, Event::WaitElapsed);
    accept(&mut poll_loop, Event::Probed { alive: false });
    let d = accept(&mut poll_loop, Event::Connected(2));
    assert_eq!(released(&d.release), Some((false, 1)));
    assert_eq!(poll_loop.handle(), Some(&2));
}

#[test]
fn live_probe_resets_the_backoff_and_keeps_the_handle() {
    let mut poll_loop = csv_loop(5, 0, false);
    accept(&mut poll_loop, Event::ConnectFailed);
    accept(&mut poll_loop, Event::WaitElapsed);
    assert_eq!(poll_loop.backoff_delay(), 4);
    accept(&mut poll_loop, Event::Connected(1));
    assert_eq!(poll_loop.backoff_delay(), 2);
    accept(&mut poll_loop, Event::Emitted);
    accept(&mut poll_loop, Event::WaitElapsed);
    let d = accept(&mut poll_loop, Event::Probed { alive: true });
    assert_eq!(d.notice, None);
    assert_eq!(released(&d.release), None);
    assert_eq!(poll_loop.handle(), Some(&1));
    assert_eq!(poll_loop.backoff_delay(), 2);
}

#[test]
fn failure_to_write_a_record_is_fatal_and_disconnects() {
    let mut poll_loop = csv_loop(5, 0, false);
    accept(&mut poll_loop, Event::Connected(1));
    let d = accept(&mut poll_loop, Event::EmitFailed);
    assert_eq!(d.request, Request::Stop(Termination::Failed));
    assert_eq!(d.notice, None);
    assert_eq!(released(&d.release), Some((true, 1)));
    assert_eq!(poll_loop.phase(), Phase::Terminated(Termination::Failed));
    assert_eq!(poll_loop.readings_taken(), 1);
}

#[test]
fn events_of_another_phase_are_handed_back_unchanged() {
    let mut poll_loop = csv_loop(5, 0, false);
    assert!(matches!(poll_loop.step(Event::Emitted), Err(Event::Emitted)));
    assert!(matches!(poll_loop.step(Event::WaitElapsed), Err(Event::WaitElapsed)));
    assert!(matches!(
        poll_loop.step(Event::Probed { alive: true }),
        Err(Event::Probed { alive: true })
    ));
    assert_eq!(poll_loop.phase(), Phase::AwaitingConnection);
    accept(&mut poll_loop, Event::Connected(1));
    assert!(matches!(poll_loop.step(Event::Connected(2)), Err(Event::Connected(2))));
    assert!(matches!(poll_loop.step(Event::ConnectFailed), Err(Event::ConnectFailed)));
    assert_eq!(poll_loop.handle(), Some(&1));
    assert_eq!(poll_loop.phase(), Phase::Reading);
}

#[test]
fn transition_of_one_state_refuses_the_others() {
    let mut poll_loop = csv_loop(5, 0, false);
    assert!(poll_loop.on_reading(Event::Emitted).is_err());
    assert!(poll_loop.on_backoff_wait(Event::WaitElapsed).is_err());
    assert!(poll_loop.on_interval_wait(Event::WaitElapsed).is_err());
    assert!(poll_loop.on_awaiting_connection(Event::ConnectFailed).is_ok());
    assert!(poll_loop.on_awaiting_connection(Event::Cancelled).is_err());
    assert!(poll_loop.on_interval_wait(Event::WaitElapsed).is_err());
    assert!(poll_loop.on_backoff_wait(Event::WaitElapsed).is_ok());
    assert!(poll_loop.on_awaiting_connection(Event::Connected(1)).is_ok());
    assert!(poll_loop.on_reading(Event::Emitted).is_ok());
    assert!(poll_loop.on_backoff_wait(Event::WaitElapsed).is_err());
    assert!(poll_loop.on_interval_wait(Event::Cancelled).is_ok());
    assert!(poll_loop.is_terminated());
}

#[test]
fn progress_counts_up_from_zero() {
    let mut progress = ProgressCounters::new();
    assert_eq!(progress.readings_taken(), 0);
    progress.record_read();
    progress.record_read();
    assert_eq!(progress.readings_taken(), 2);
}

#[test]
fn emit_state_flips_once_and_only_for_csv() {
    let mut emit = EmitState::new(false);
    assert!(!emit.header_written());
    assert!(emit.with_header(OutputFormat::Csv));
    assert!(!emit.with_header(OutputFormat::Text));
    assert!(!emit.with_header(OutputFormat::Json));
    emit.record_emitted(OutputFormat::Text);
    emit.record_emitted(OutputFormat::Json);
    assert!(!emit.header_written());
    emit.record_emitted(OutputFormat::Csv);
    assert!(emit.header_written());
    assert!(!emit.with_header(OutputFormat::Csv));
    emit.record_emitted(OutputFormat::Csv);
    assert!(emit.header_written());

    let suppressed = EmitState::new(true);
    assert!(suppressed.header_written());
    assert!(!suppressed.with_header(OutputFormat::Csv));
}
