use schema_migrate::config::parse_timeout_secs;
use schema_migrate::controller::{RunController, RunEvent, RunOutcome, RunState};
use schema_migrate::errors::MigrationError;

#[test]
fn signal_cancels_running_run() {
    let mut c = RunController::new();
    assert_eq!(c.state, RunState::Idle);
    c.start();
    assert_eq!(c.state, RunState::Running);
    let decided = c.on_event(RunEvent::SignalReceived);
    assert_eq!(decided, Some(RunOutcome::Cancelled));
    assert_eq!(c.outcome(), Some(RunOutcome::Cancelled));
}

#[test]
fn late_events_are_discarded() {
    let mut c = RunController::new();
    c.start();
    assert_eq!(c.on_event(RunEvent::SignalReceived), Some(RunOutcome::Cancelled));
    // The losing branches fire late; the decided outcome stands.
    assert_eq!(c.on_event(RunEvent::TimeoutFired), None);
    assert_eq!(c.on_event(RunEvent::ChainFinished(Ok(()))), None);
    assert_eq!(c.outcome(), Some(RunOutcome::Cancelled));
}

#[test]
fn timeout_ends_run_timed_out() {
    let mut c = RunController::new();
    c.start();
    assert_eq!(c.on_event(RunEvent::TimeoutFired), Some(RunOutcome::TimedOut));
    assert_eq!(c.outcome(), Some(RunOutcome::TimedOut));
}

#[test]
fn chain_result_completes_run() {
    let mut c = RunController::new();
    c.start();
    assert_eq!(c.on_event(RunEvent::ChainFinished(Ok(()))), Some(RunOutcome::Completed));

    let mut c = RunController::new();
    c.start();
    assert_eq!(
        c.on_event(RunEvent::ChainFinished(Err(MigrationError::Insert))),
        Some(RunOutcome::CompletedWithError(MigrationError::Insert)),
    );
}

#[test]
fn events_before_start_decide_nothing() {
    let mut c = RunController::new();
    assert_eq!(c.on_event(RunEvent::TimeoutFired), None);
    assert_eq!(c.state, RunState::Idle);
    assert_eq!(c.outcome(), None);
}

#[test]
fn timeout_parsing_accepts_positive_seconds() {
    assert_eq!(parse_timeout_secs(&b"30".to_vec()), Some(30));
    assert_eq!(parse_timeout_secs(&b"1".to_vec()), Some(1));
    assert_eq!(parse_timeout_secs(&b"007".to_vec()), Some(7));
    assert_eq!(parse_timeout_secs(&b"18446744073709551615".to_vec()), Some(u64::MAX));
}

#[test]
fn timeout_parsing_rejects_everything_else() {
    assert_eq!(parse_timeout_secs(&b"0".to_vec()), None);
    assert_eq!(parse_timeout_secs(&b"".to_vec()), None);
    assert_eq!(parse_timeout_secs(&b"abc".to_vec()), None);
    assert_eq!(parse_timeout_secs(&b"-5".to_vec()), None);
    assert_eq!(parse_timeout_secs(&b"30s".to_vec()), None);
    assert_eq!(parse_timeout_secs(&b"18446744073709551616".to_vec()), None);
}
