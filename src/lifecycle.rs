//! The execution lifecycle of one benchmark, as a state machine: prepare,
//! then measure, then clean up. A runner performs each step the current
//! phase asks for and hands its outcome back.

use crate::result::{BenchmarkResult, BenchmarkStatus};
use vstd::prelude::*;

verus! {

/// Where the execution of one benchmark stands.
pub enum Phase {
    /// The benchmark's preparation is to be run.
    Preparing,
    /// The timed measurement is to be run.
    Measuring,
    /// The measurement produced this result; cleanup is to be run.
    CleaningUp(BenchmarkResult),
    /// The execution is over with this result.
    Finished(BenchmarkResult),
}

/// The outcome of the step that a phase asked for.
pub enum Outcome {
    /// Preparation finished, or failed with this message.
    Prepared(Result<(), String>),
    /// The measurement produced this result.
    Measured(BenchmarkResult),
    /// Cleanup finished, or failed with this message.
    CleanedUp(Result<(), String>),
}

/// The phase after a step, and a warning to log, if any.
pub struct Transition {
    pub next: Phase,
    pub warning: Option<String>,
}

/// The error text of a result whose preparation failed with `cause`.
pub open spec fn setup_failure_text(cause: Seq<char>) -> Seq<char> {
    "Setup failed: "@ + cause
}

/// The warning logged when cleanup of `id` failed with `cause`.
pub open spec fn teardown_warning_text(id: Seq<char>, cause: Seq<char>) -> Seq<char> {
    "Teardown failed for "@ + id + ": "@ + cause
}

/// The result of a benchmark whose preparation failed: `Failed`, with the
/// cause in its error text.
pub open spec fn is_setup_failure(r: BenchmarkResult, id: Seq<char>, cause: Seq<char>) -> bool {
    &&& r.wf()
    &&& r.target_id@ == id
    &&& r.status == BenchmarkStatus::Failed
    &&& r.error matches Some(e) && e@ == setup_failure_text(cause)
    &&& r.metrics.duration_us == 0
    &&& r.metrics.error_count == Some(1u64)
}

/// Advances the execution of benchmark `id` by one step. A failed
/// preparation ends the execution with a failed result and no measurement;
/// a measurement always leads to cleanup; a failed cleanup only yields a
/// warning and leaves the measured result as it is. An outcome that does
/// not answer the phase's step leaves the phase unchanged.
pub fn advance(id: &str, phase: Phase, outcome: Outcome) -> (t: Transition)
    ensures
        match (phase, outcome) {
            (Phase::Preparing, Outcome::Prepared(Ok(()))) => t.next is Measuring && t.warning is None,
            (Phase::Preparing, Outcome::Prepared(Err(e))) => t.warning is None && (t.next matches Phase::Finished(
                r,
            ) && is_setup_failure(r, id@, e@)),
            (Phase::Measuring, Outcome::Measured(r)) => t.next == Phase::CleaningUp(r)
                && t.warning is None,
            (Phase::CleaningUp(r), Outcome::CleanedUp(Ok(()))) => t.next == Phase::Finished(r)
                && t.warning is None,
            (Phase::CleaningUp(r), Outcome::CleanedUp(Err(e))) => t.next == Phase::Finished(r)
                && (t.warning matches Some(w) && w@ == teardown_warning_text(id@, e@)),
            _ => t.next == phase && t.warning is None,
        },
{
    match (phase, outcome) {
        (Phase::Preparing, Outcome::Prepared(Ok(()))) => Transition {
            next: Phase::Measuring,
            warning: None,
        },
        (Phase::Preparing, Outcome::Prepared(Err(e))) => {
            let mut msg = String::from_str("Setup failed: ");
            msg.append(e.as_str());
            Transition { next: Phase::Finished(BenchmarkResult::failed(id, msg.as_str())), warning: None }
        },
        (Phase::Measuring, Outcome::Measured(r)) => Transition {
            next: Phase::CleaningUp(r),
            warning: None,
        },
        (Phase::CleaningUp(r), Outcome::CleanedUp(Ok(()))) => Transition {
            next: Phase::Finished(r),
            warning: None,
        },
        (Phase::CleaningUp(r), Outcome::CleanedUp(Err(e))) => {
            let mut w = String::from_str("Teardown failed for ");
            w.append(id);
            w.append(": ");
            w.append(e.as_str());
            Transition { next: Phase::Finished(r), warning: Some(w) }
        },
        (p, _) => Transition { next: p, warning: None },
    }
}

} // verus!
