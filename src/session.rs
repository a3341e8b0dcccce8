use vstd::prelude::*;

verus! {

/// The lifecycle of one live scan.
#[derive(Clone, Copy, Debug, PartialEq, Eq, Structural)]
pub enum SessionPhase {
    Idle,
    Initializing,
    Running,
    Stopping,
}

/// What the supervisor observes.
#[derive(Clone, Copy, Debug, PartialEq, Eq, Structural)]
pub enum SessionEvent {
    /// A scan was asked for.
    Start,
    /// Raw terminal mode was entered.
    TerminalAcquired,
    /// Raw terminal mode could not be entered.
    TerminalFailed,
    /// The dashboard left its loop.
    DashboardExited,
    /// The terminal is back in normal mode.
    TerminalRestored,
}

#[derive(Clone, Copy, Debug, PartialEq, Eq, Structural)]
pub enum SessionError {
    /// The terminal could not be acquired; the session never runs.
    TerminalUnavailable,
    /// The event cannot happen in the current phase.
    OutOfOrder,
}

pub open spec fn spec_session_step(phase: SessionPhase, event: SessionEvent) -> Result<
    SessionPhase,
    SessionError,
> {
    match (phase, event) {
        (SessionPhase::Idle, SessionEvent::Start) => Ok(SessionPhase::Initializing),
        (SessionPhase::Initializing, SessionEvent::TerminalAcquired) => Ok(SessionPhase::Running),
        (SessionPhase::Initializing, SessionEvent::TerminalFailed) => Err(
            SessionError::TerminalUnavailable,
        ),
        (SessionPhase::Running, SessionEvent::DashboardExited) => Ok(SessionPhase::Stopping),
        (SessionPhase::Stopping, SessionEvent::TerminalRestored) => Ok(SessionPhase::Idle),
        _ => Err(SessionError::OutOfOrder),
    }
}

/// One transition of `Idle -> Initializing -> Running -> Stopping -> Idle`.
/// Failing to acquire the terminal is fatal before anything runs.
pub fn session_step(phase: SessionPhase, event: SessionEvent) -> (r: Result<SessionPhase, SessionError>)
    ensures
        r == spec_session_step(phase, event),
{
    match (phase, event) {
        (SessionPhase::Idle, SessionEvent::Start) => Ok(SessionPhase::Initializing),
        (SessionPhase::Initializing, SessionEvent::TerminalAcquired) => Ok(SessionPhase::Running),
        (SessionPhase::Initializing, SessionEvent::TerminalFailed) => Err(
            SessionError::TerminalUnavailable,
        ),
        (SessionPhase::Running, SessionEvent::DashboardExited) => Ok(SessionPhase::Stopping),
        (SessionPhase::Stopping, SessionEvent::TerminalRestored) => Ok(SessionPhase::Idle),
        _ => Err(SessionError::OutOfOrder),
    }
}

/// The running phase is reached only from initialisation, after the terminal
/// was acquired; leaving it always passes through stopping.
pub proof fn lemma_running_needs_terminal(phase: SessionPhase, event: SessionEvent)
    ensures
        spec_session_step(phase, event) == Ok::<SessionPhase, SessionError>(SessionPhase::Running)
            <==> phase == SessionPhase::Initializing && event == SessionEvent::TerminalAcquired,
        phase == SessionPhase::Running && spec_session_step(phase, event) is Ok
            ==> spec_session_step(phase, event) == Ok::<SessionPhase, SessionError>(
            SessionPhase::Stopping,
        ),
{
}

} // verus!
