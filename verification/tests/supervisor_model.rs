use runner::sink::IoError;
use runner::supervisor::{
    cancel_send_result, exit_outcome, resolve_stream, run_outcome, CancelSignalOutcome, RunError,
    StdioMode, Supervision,
};

#[test]
fn supervision_protocol_reports_exit_code() {
    let mut sup = Supervision::begin();
    sup.child_waited(Some(3));
    sup.cancel_sent(CancelSignalOutcome::Delivered);
    let report = sup.workers_joined(Ok(()), Ok(()), Ok(()));
    assert_eq!(report.outcome, Ok(3));
    assert!(!report.stream_failure);
}

#[test]
fn supervision_protocol_reports_signal_termination() {
    let mut sup = Supervision::begin();
    sup.child_waited(None);
    sup.cancel_sent(CancelSignalOutcome::Disconnected);
    let report = sup.workers_joined(Ok(()), Ok(()), Ok(()));
    assert_eq!(report.outcome, Err(RunError::TerminatedBySignal));
}

#[test]
fn supervision_phases_advance_in_order() {
    // Wait, cancel, join, report — the join resolves the run, and a
    // worker failure rides along without displacing the exit code.
    let mut sup = Supervision::begin();
    sup.child_waited(Some(0));
    sup.cancel_sent(CancelSignalOutcome::Delivered);
    let report = sup.workers_joined(Ok(()), Err(IoError), Ok(()));
    assert_eq!(report.outcome, Ok(0));
    assert!(report.stream_failure);
}

#[test]
fn resolve_without_log_passes_through() {
    let (mode, sinks) = resolve_stream("terminal", None);
    assert_eq!(mode, StdioMode::Inherit);
    assert_eq!(sinks, vec!["terminal"]);
}

#[test]
fn resolve_with_log_orders_inherited_first() {
    let (mode, sinks) = resolve_stream("terminal", Some("log file"));
    assert_eq!(mode, StdioMode::Piped);
    assert_eq!(sinks, vec!["terminal", "log file"]);
}

#[test]
fn exit_code_is_reported_as_given() {
    assert_eq!(exit_outcome(Some(0)), Ok(0));
    assert_eq!(exit_outcome(Some(3)), Ok(3));
}

#[test]
fn signal_termination_is_distinct_from_every_exit_code() {
    assert_eq!(exit_outcome(None), Err(RunError::TerminatedBySignal));
}

#[test]
fn cancel_after_consumer_stopped_is_no_error() {
    assert_eq!(cancel_send_result(CancelSignalOutcome::Disconnected), Ok(()));
    assert_eq!(cancel_send_result(CancelSignalOutcome::Delivered), Ok(()));
    assert_eq!(
        cancel_send_result(CancelSignalOutcome::Full),
        Err(RunError::CancelLost)
    );
}

#[test]
fn run_outcome_reports_exit_code() {
    let report = run_outcome(Some(3), CancelSignalOutcome::Delivered, Ok(()), Ok(()), Ok(()));
    assert_eq!(report.outcome, Ok(3));
    assert!(!report.stream_failure);
}

#[test]
fn run_outcome_signal_takes_precedence() {
    let report = run_outcome(None, CancelSignalOutcome::Full, Ok(()), Ok(()), Ok(()));
    assert_eq!(report.outcome, Err(RunError::TerminatedBySignal));
}

#[test]
fn run_outcome_surfaces_stream_failure_beside_exit_code() {
    let report = run_outcome(
        Some(0),
        CancelSignalOutcome::Disconnected,
        Ok(()),
        Err(IoError),
        Ok(()),
    );
    assert_eq!(report.outcome, Ok(0));
    assert!(report.stream_failure);
}

#[test]
fn run_outcome_lost_cancel_is_a_failure() {
    let report = run_outcome(Some(0), CancelSignalOutcome::Full, Ok(()), Ok(()), Ok(()));
    assert_eq!(report.outcome, Err(RunError::CancelLost));
}
