use ham::probe::{outcome_score, ProbeOutcome, ProbeStyle};
use ham::session::{session_step, SessionError, SessionEvent, SessionPhase};

#[test]
fn full_lifecycle() {
    let mut p = SessionPhase::Idle;
    for (ev, want) in [
        (SessionEvent::Start, SessionPhase::Initializing),
        (SessionEvent::TerminalAcquired, SessionPhase::Running),
        (SessionEvent::DashboardExited, SessionPhase::Stopping),
        (SessionEvent::TerminalRestored, SessionPhase::Idle),
    ] {
        p = session_step(p, ev).unwrap();
        assert_eq!(p, want);
    }
}

#[test]
fn terminal_failure_is_fatal() {
    assert_eq!(
        session_step(SessionPhase::Initializing, SessionEvent::TerminalFailed),
        Err(SessionError::TerminalUnavailable)
    );
}

#[test]
fn events_out_of_order_are_refused() {
    assert_eq!(
        session_step(SessionPhase::Idle, SessionEvent::DashboardExited),
        Err(SessionError::OutOfOrder)
    );
    assert_eq!(
        session_step(SessionPhase::Running, SessionEvent::Start),
        Err(SessionError::OutOfOrder)
    );
}

#[test]
fn outcome_scores() {
    assert_eq!(outcome_score(ProbeStyle::Connection, ProbeOutcome::Success), 10);
    assert_eq!(outcome_score(ProbeStyle::Request, ProbeOutcome::Success), 10);
    assert_eq!(outcome_score(ProbeStyle::Request, ProbeOutcome::Degraded), 5);
    assert_eq!(outcome_score(ProbeStyle::Connection, ProbeOutcome::Failure), 0);
    assert_eq!(outcome_score(ProbeStyle::Connection, ProbeOutcome::Timeout), 2);
    assert_eq!(outcome_score(ProbeStyle::Request, ProbeOutcome::Timeout), 1);
}
