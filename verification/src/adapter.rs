//! The execution adapter: runs one test under an instruction bound on one
//! engine's report, classifies the result against the declared expectation,
//! and, when cross-checking, reconciles the two engines' classifications.
//!
//! The engines themselves are external collaborators; what the adapter
//! consumes from one is its report for a test: the number of VM steps the
//! target needs, how it ends when no bound cuts it short, the wall-clock
//! duration measured, and the final storage state it left behind.

use vstd::prelude::*;
use crate::outcome::{classification, classify, EngineResult, ExecutionOutcome, ExpectedOutcome};

verus! {

/// How a test's target function ends when it is allowed to run to
/// completion: normal completion, an abort with a code, or another runtime
/// error.
#[derive(Clone, Copy, PartialEq, Eq, Structural, Debug)]
pub enum VmTerminal {
    Completed,
    Aborted(u64),
    RuntimeError,
}

/// One engine's report for one test: the steps its target needs to finish,
/// how it ends, the measured wall-clock duration, and the final storage
/// state.
pub struct EngineRun {
    pub steps_required: u64,
    pub terminal: VmTerminal,
    pub duration_nanos: u64,
    pub final_state: Vec<u8>,
}

/// The reports gathered for one test: the primary engine's always, the
/// secondary engine's when cross-checking is enabled.
pub struct TestExecution {
    pub primary: EngineRun,
    pub secondary: Option<EngineRun>,
}

/// Per-test resource usage: VM steps executed and wall-clock duration.
#[derive(Clone, Copy, PartialEq, Eq, Structural, Debug)]
pub struct TestStatistics {
    pub steps: u64,
    pub duration_nanos: u64,
}

/// Everything recorded for one completed test: the reconciled outcome, the
/// two engines' individual classifications (the secondary's only when
/// cross-checking), the statistics, and the retained final storage of a
/// failing test when so configured.
pub struct TestResult {
    pub outcome: ExecutionOutcome,
    pub primary: ExecutionOutcome,
    pub secondary: Option<ExecutionOutcome>,
    pub stats: TestStatistics,
    pub snapshot: Option<Vec<u8>>,
}

/// The engine result of running under a bound: if the steps the target
/// needs exceed the bound, execution halts with the bound exhausted;
/// otherwise the run ends as the engine reports.
pub open spec fn bounded_result(run: EngineRun, bound: u64) -> EngineResult {
    if run.steps_required > bound {
        EngineResult::BoundExceeded
    } else {
        match run.terminal {
            VmTerminal::Completed => EngineResult::Completed,
            VmTerminal::Aborted(code) => EngineResult::Aborted(code),
            VmTerminal::RuntimeError => EngineResult::RuntimeError,
        }
    }
}

/// Steps actually executed under the bound: the watchdog halts execution
/// the moment the count would pass the bound.
pub open spec fn bounded_steps(run: EngineRun, bound: u64) -> u64 {
    if run.steps_required > bound {
        bound
    } else {
        run.steps_required
    }
}

/// Two engine results agree when they classify the same way against the
/// expectation and, where both are aborts, carry the same code.
pub open spec fn engines_agree(expected: ExpectedOutcome, r1: EngineResult, r2: EngineResult) -> bool {
    &&& classification(expected, r1) == classification(expected, r2)
    &&& match (r1, r2) {
        (EngineResult::Aborted(c1), EngineResult::Aborted(c2)) => c1 == c2,
        _ => true,
    }
}

/// The primary engine's own classification for one test.
pub open spec fn primary_outcome(expected: ExpectedOutcome, exec: TestExecution, bound: u64) -> ExecutionOutcome {
    classification(expected, bounded_result(exec.primary, bound))
}

/// The secondary engine's own classification, when cross-checking.
pub open spec fn secondary_outcome(
    expected: ExpectedOutcome,
    exec: TestExecution,
    bound: u64,
    cross_check: bool,
) -> Option<ExecutionOutcome> {
    if cross_check {
        Some(classification(expected, bounded_result(exec.secondary->0, bound)))
    } else {
        None
    }
}

/// The reconciled outcome of one test: without cross-checking, the primary
/// classification; with it, the primary classification when the engines
/// agree and `Divergent` otherwise.
pub open spec fn test_outcome(
    expected: ExpectedOutcome,
    exec: TestExecution,
    bound: u64,
    cross_check: bool,
) -> ExecutionOutcome {
    let p = bounded_result(exec.primary, bound);
    if cross_check {
        if engines_agree(expected, p, bounded_result(exec.secondary->0, bound)) {
            classification(expected, p)
        } else {
            ExecutionOutcome::Divergent
        }
    } else {
        classification(expected, p)
    }
}

/// What a recorded test result must hold for one test execution: the
/// reconciled outcome, both individual classifications, statistics drawn
/// from the primary run, and a snapshot of the primary run's final storage
/// exactly on a retained non-passing outcome.
pub open spec fn result_matches(
    r: TestResult,
    expected: ExpectedOutcome,
    exec: TestExecution,
    bound: u64,
    cross_check: bool,
    retain: bool,
) -> bool {
    &&& r.outcome == test_outcome(expected, exec, bound, cross_check)
    &&& r.primary == primary_outcome(expected, exec, bound)
    &&& r.secondary == secondary_outcome(expected, exec, bound, cross_check)
    &&& r.stats == (TestStatistics {
        steps: bounded_steps(exec.primary, bound),
        duration_nanos: exec.primary.duration_nanos,
    })
    &&& match r.snapshot {
        Some(s) => retain && r.outcome != ExecutionOutcome::Passed && s@
            == exec.primary.final_state@,
        None => !(retain && r.outcome != ExecutionOutcome::Passed),
    }
}

/// Run one engine's report under the instruction bound, yielding the engine
/// result and the steps actually executed.
pub fn run_bounded(run: &EngineRun, bound: u64) -> (r: (EngineResult, u64))
    ensures
        r.0 == bounded_result(*run, bound),
        r.1 == bounded_steps(*run, bound),
{
    if run.steps_required > bound {
        (EngineResult::BoundExceeded, bound)
    } else {
        let res = match run.terminal {
            VmTerminal::Completed => EngineResult::Completed,
            VmTerminal::Aborted(code) => EngineResult::Aborted(code),
            VmTerminal::RuntimeError => EngineResult::RuntimeError,
        };
        (res, run.steps_required)
    }
}

/// Copy a byte buffer.
pub(crate) fn clone_bytes(v: &Vec<u8>) -> (r: Vec<u8>)
    ensures
        r@ == v@,
{
    let mut r: Vec<u8> = Vec::new();
    let mut i: usize = 0;
    while i < v.len()
        invariant
            i <= v@.len(),
            r@ == v@.subrange(0, i as int),
        decreases v@.len() - i,
    {
        r.push(v[i]);
        proof {
            assert(r@ =~= v@.subrange(0, i + 1 as int));
        }
        i += 1;
    }
    proof {
        assert(r@ =~= v@);
    }
    r
}

/// Execute one test: run the primary engine's report under the bound,
/// classify it, reconcile with the secondary engine's classification when
/// cross-checking, and record statistics and, where configured, the failing
/// run's final storage.
pub fn execute_test(
    expected: ExpectedOutcome,
    exec: &TestExecution,
    bound: u64,
    cross_check: bool,
    retain: bool,
) -> (r: TestResult)
    requires
        cross_check ==> exec.secondary is Some,
    ensures
        result_matches(r, expected, *exec, bound, cross_check, retain),
{
    let (primary_result, steps) = run_bounded(&exec.primary, bound);
    let primary_class = classify(expected, primary_result);
    let (outcome, secondary_class) = if cross_check {
        let secondary_run = match &exec.secondary {
            Some(s) => s,
            None => {
                proof {
                    assert(false);
                }
                &exec.primary
            },
        };
        let (secondary_result, _secondary_steps) = run_bounded(secondary_run, bound);
        let secondary_class = classify(expected, secondary_result);
        let codes_agree = match (primary_result, secondary_result) {
            (EngineResult::Aborted(c1), EngineResult::Aborted(c2)) => c1 == c2,
            _ => true,
        };
        let outcome = if primary_class == secondary_class && codes_agree {
            primary_class
        } else {
            ExecutionOutcome::Divergent
        };
        (outcome, Some(secondary_class))
    } else {
        (primary_class, None)
    };
    let is_passed = match outcome {
        ExecutionOutcome::Passed => true,
        _ => false,
    };
    let snapshot = if retain && !is_passed {
        Some(clone_bytes(&exec.primary.final_state))
    } else {
        None
    };
    TestResult {
        outcome,
        primary: primary_class,
        secondary: secondary_class,
        stats: TestStatistics { steps, duration_nanos: exec.primary.duration_nanos },
        snapshot,
    }
}

/// A test whose target needs exactly one step more than the instruction
/// bound always exhausts the bound, whatever its terminal behaviour and
/// whatever the expectation.
pub proof fn lemma_bound_exceeded(expected: ExpectedOutcome, run: EngineRun, bound: u64)
    requires
        run.steps_required == bound + 1,
    ensures
        classification(expected, bounded_result(run, bound))
            == ExecutionOutcome::FailedInstructionBoundExceeded,
{
}

/// With cross-checking enabled, any difference between the two engines'
/// classifications overrides the primary classification with `Divergent`;
/// in particular a primary pass beside a secondary execution error.
pub proof fn lemma_divergence_overrides(expected: ExpectedOutcome, exec: TestExecution, bound: u64)
    requires
        exec.secondary is Some,
        primary_outcome(expected, exec, bound) != classification(
            expected,
            bounded_result(exec.secondary->0, bound),
        ),
    ensures
        test_outcome(expected, exec, bound, true) == ExecutionOutcome::Divergent,
{
}

} // verus!
