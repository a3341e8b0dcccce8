use vstd::prelude::*;

verus! {

/// How a probe reaches its endpoint; it decides the score of a timeout.
#[derive(Clone, Copy, Debug, PartialEq, Eq, Structural)]
pub enum ProbeStyle {
    /// A connection or resolution attempt.
    Connection,
    /// A request that expects a response.
    Request,
}

/// How a single probe ended.
#[derive(Clone, Copy, Debug, PartialEq, Eq, Structural)]
pub enum ProbeOutcome {
    /// Connected or resolved.
    Success,
    /// Answered, but not with a success.
    Degraded,
    /// Refused, unresolved or a non-zero exit.
    Failure,
    /// No answer before the probe's own deadline.
    Timeout,
}

pub open spec fn spec_outcome_score(style: ProbeStyle, outcome: ProbeOutcome) -> u8 {
    match outcome {
        ProbeOutcome::Success => 10,
        ProbeOutcome::Degraded => 5,
        ProbeOutcome::Failure => 0,
        ProbeOutcome::Timeout => match style {
            ProbeStyle::Connection => 2,
            ProbeStyle::Request => 1,
        },
    }
}

/// The health score of a probe outcome. A timeout scores low but above an
/// explicit failure, so that silence and refusal stay apart.
pub fn outcome_score(style: ProbeStyle, outcome: ProbeOutcome) -> (r: u8)
    ensures
        r == spec_outcome_score(style, outcome),
        r <= 10,
        outcome == ProbeOutcome::Timeout ==> 0 < r <= 2,
{
    match outcome {
        ProbeOutcome::Success => 10,
        ProbeOutcome::Degraded => 5,
        ProbeOutcome::Failure => 0,
        ProbeOutcome::Timeout => match style {
            ProbeStyle::Connection => 2,
            ProbeStyle::Request => 1,
        },
    }
}

} // verus!
