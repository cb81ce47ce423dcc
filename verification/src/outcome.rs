//! Classification of a single engine execution against a test's declared
//! expectation, and reconciliation of the two classifications produced when
//! cross-checking against a second, independent engine.

use vstd::prelude::*;

verus! {

/// What a test declares about its target function: it must either complete
/// successfully, or abort. An expected abort may name a specific code; when
/// no code is named, any abort satisfies the expectation.
#[derive(Clone, Copy, PartialEq, Eq, Structural, Debug)]
pub enum ExpectedOutcome {
    Success,
    Abort(Option<u64>),
}

/// What one engine reported for one bounded run of a test: normal
/// completion, an abort carrying its code, some other runtime error, or the
/// instruction bound exhausted before the function finished.
#[derive(Clone, Copy, PartialEq, Eq, Structural, Debug)]
pub enum EngineResult {
    Completed,
    Aborted(u64),
    RuntimeError,
    BoundExceeded,
}

/// The classification of one test's run. `Divergent` can only arise when
/// cross-checking is enabled and the two engines disagree.
#[derive(Clone, Copy, PartialEq, Eq, Structural, Debug)]
pub enum ExecutionOutcome {
    Passed,
    FailedUnexpectedSuccess,
    FailedWrongAbort,
    FailedExecutionError,
    FailedInstructionBoundExceeded,
    Divergent,
}

/// Classification of an engine result against the declared expectation:
/// completion when success was expected passes; an abort matching the
/// expected abort passes (any abort, when no code was declared); an abort
/// with a mismatched code is a wrong abort; completion when an abort was
/// expected is an unexpected success; an abort or runtime error when success
/// was expected, or a runtime error when an abort was expected, is an
/// execution error; an exhausted instruction bound always dominates.
pub open spec fn classification(expected: ExpectedOutcome, result: EngineResult) -> ExecutionOutcome {
    match result {
        EngineResult::BoundExceeded => ExecutionOutcome::FailedInstructionBoundExceeded,
        EngineResult::RuntimeError => ExecutionOutcome::FailedExecutionError,
        EngineResult::Completed => match expected {
            ExpectedOutcome::Success => ExecutionOutcome::Passed,
            ExpectedOutcome::Abort(_) => ExecutionOutcome::FailedUnexpectedSuccess,
        },
        EngineResult::Aborted(code) => match expected {
            ExpectedOutcome::Success => ExecutionOutcome::FailedExecutionError,
            ExpectedOutcome::Abort(None) => ExecutionOutcome::Passed,
            ExpectedOutcome::Abort(Some(want)) => if code == want {
                ExecutionOutcome::Passed
            } else {
                ExecutionOutcome::FailedWrongAbort
            },
        },
    }
}

/// Classify one engine result against the expectation.
pub fn classify(expected: ExpectedOutcome, result: EngineResult) -> (out: ExecutionOutcome)
    ensures
        out == classification(expected, result),
{
    match result {
        EngineResult::BoundExceeded => ExecutionOutcome::FailedInstructionBoundExceeded,
        EngineResult::RuntimeError => ExecutionOutcome::FailedExecutionError,
        EngineResult::Completed => match expected {
            ExpectedOutcome::Success => ExecutionOutcome::Passed,
            ExpectedOutcome::Abort(_) => ExecutionOutcome::FailedUnexpectedSuccess,
        },
        EngineResult::Aborted(code) => match expected {
            ExpectedOutcome::Success => ExecutionOutcome::FailedExecutionError,
            ExpectedOutcome::Abort(None) => ExecutionOutcome::Passed,
            ExpectedOutcome::Abort(Some(want)) => if code == want {
                ExecutionOutcome::Passed
            } else {
                ExecutionOutcome::FailedWrongAbort
            },
        },
    }
}

/// A test declared to abort with a specific code passes exactly when the
/// engine aborts with that code; any other abort code is a wrong abort, and
/// normal completion is an unexpected success.
pub proof fn lemma_declared_abort_classification(code: u64, result: EngineResult)
    ensures
        classification(ExpectedOutcome::Abort(Some(code)), result) == ExecutionOutcome::Passed
            <==> result == EngineResult::Aborted(code),
        (result matches EngineResult::Aborted(c) && c != code) ==> classification(
            ExpectedOutcome::Abort(Some(code)),
            result,
        ) == ExecutionOutcome::FailedWrongAbort,
        result == EngineResult::Completed ==> classification(
            ExpectedOutcome::Abort(Some(code)),
            result,
        ) == ExecutionOutcome::FailedUnexpectedSuccess,
{
}

} // verus!
