//! The test runner: validates its configuration and the plan's structural
//! consistency, narrows the plan by the filter, and runs every selected
//! test, collecting one result entry per selected test.
//!
//! The worker pool is a resource cap, never a semantic input: the recorded
//! classification of every test is a pure function of the plan, the filter,
//! the engine reports, the instruction bound and the cross-check flag, so
//! the set of outcomes is identical for every worker count.

use vstd::prelude::*;
use crate::adapter::{
    bounded_result, execute_test, primary_outcome, result_matches, TestExecution, TestResult,
};
use crate::filter::{pattern_view, qualified_name, qualified_name_spec, selected, test_selected};
use crate::outcome::{classification, ExecutionOutcome};
use crate::plan::{TestCase, TestPlan};

verus! {

/// Why construction of a test runner was refused: a worker pool of size
/// zero, or a plan in which some test references a module absent from the
/// compiled units.
#[derive(Clone, Copy, PartialEq, Eq, Structural, Debug)]
pub enum RunnerError {
    ZeroWorkers,
    InconsistentPlan,
}

/// One recorded entry of a finished run: the test's qualified name and
/// everything recorded for it.
pub struct ResultEntry {
    pub name: String,
    pub result: TestResult,
}

/// The aggregate of a finished run: one entry per selected test, in plan
/// order.
pub struct TestResults {
    pub entries: Vec<ResultEntry>,
}

/// The indices, in plan order, of the tests the pattern selects.
pub open spec fn filtered_indices(tests: Seq<TestCase>, pattern: Option<Seq<char>>) -> Seq<int>
    decreases tests.len(),
{
    if tests.len() == 0 {
        Seq::empty()
    } else {
        let prefix = filtered_indices(tests.drop_last(), pattern);
        if selected(tests.last(), pattern) {
            prefix.push(tests.len() - 1)
        } else {
            prefix
        }
    }
}

/// Every selected index lies within the plan.
pub proof fn lemma_filtered_indices_range(tests: Seq<TestCase>, pattern: Option<Seq<char>>)
    ensures
        forall|k: int|
            0 <= k < filtered_indices(tests, pattern).len() ==> 0 <= #[trigger] filtered_indices(
                tests,
                pattern,
            )[k] < tests.len(),
    decreases tests.len(),
{
    if tests.len() > 0 {
        lemma_filtered_indices_range(tests.drop_last(), pattern);
        let fi = filtered_indices(tests, pattern);
        let prev = filtered_indices(tests.drop_last(), pattern);
        assert forall|k: int| 0 <= k < fi.len() implies 0 <= #[trigger] fi[k] < tests.len() by {
            if k < prev.len() {
                assert(fi[k] == prev[k]);
            }
        }
    }
}

/// A selected index marks a selected test.
pub proof fn lemma_filtered_indices_selected(tests: Seq<TestCase>, pattern: Option<Seq<char>>)
    ensures
        forall|k: int|
            0 <= k < filtered_indices(tests, pattern).len() ==> selected(
                tests[#[trigger] filtered_indices(tests, pattern)[k]],
                pattern,
            ),
    decreases tests.len(),
{
    lemma_filtered_indices_range(tests, pattern);
    if tests.len() > 0 {
        lemma_filtered_indices_range(tests.drop_last(), pattern);
        lemma_filtered_indices_selected(tests.drop_last(), pattern);
        assert forall|k: int|
            0 <= k < filtered_indices(tests, pattern).len() implies selected(
            tests[#[trigger] filtered_indices(tests, pattern)[k]],
            pattern,
        ) by {
            let fi = filtered_indices(tests, pattern);
            let prev = filtered_indices(tests.drop_last(), pattern);
            if k < prev.len() {
                assert(tests[prev[k]] == tests.drop_last()[prev[k]]);
            }
        }
    }
}

/// Every selected test's index appears among the filtered indices: the
/// filter excludes nothing it selects.
pub proof fn lemma_filtered_indices_complete(
    tests: Seq<TestCase>,
    pattern: Option<Seq<char>>,
    i: int,
)
    requires
        0 <= i < tests.len(),
        selected(tests[i], pattern),
    ensures
        filtered_indices(tests, pattern).contains(i),
    decreases tests.len(),
{
    let fi = filtered_indices(tests, pattern);
    let prefix = filtered_indices(tests.drop_last(), pattern);
    if i == tests.len() - 1 {
        assert(fi[prefix.len() as int] == i);
    } else {
        assert(tests.drop_last()[i] == tests[i]);
        lemma_filtered_indices_complete(tests.drop_last(), pattern, i);
        let k = choose|k: int| 0 <= k < prefix.len() && prefix[k] == i;
        assert(fi[k] == i);
    }
}

/// One result entry is correct for one test: it carries the test's
/// qualified name and a result that matches the test's execution.
pub open spec fn entry_ok(
    e: ResultEntry,
    t: TestCase,
    exec: TestExecution,
    bound: u64,
    cross_check: bool,
    retain: bool,
) -> bool {
    &&& e.name@ == qualified_name_spec(t.module_name@, t.function_name@)
    &&& result_matches(e.result, t.expected, exec, bound, cross_check, retain)
}

/// A finished run is correct: exactly one entry per selected test, in plan
/// order, each entry correct for its test. No worker count appears here:
/// conforming runs of every pool size record the same classifications.
pub open spec fn run_results_ok(
    results: TestResults,
    plan: TestPlan,
    pattern: Option<Seq<char>>,
    execs: Seq<TestExecution>,
    bound: u64,
    cross_check: bool,
    retain: bool,
) -> bool {
    let fi = filtered_indices(plan.tests@, pattern);
    &&& results.entries@.len() == fi.len()
    &&& forall|k: int|
        0 <= k < fi.len() ==> entry_ok(
            #[trigger] results.entries@[k],
            plan.tests@[fi[k]],
            execs[fi[k]],
            bound,
            cross_check,
            retain,
        )
}

/// The runner: the run's configuration, the plan, and the active filter
/// pattern.
pub struct TestRunner {
    pub instruction_bound: u64,
    pub num_workers: usize,
    pub cross_check: bool,
    pub verbose: bool,
    pub retain_failure_state: bool,
    pub plan: TestPlan,
    pub pattern: Option<String>,
}

impl TestRunner {
    /// Construct a runner. Construction is refused for an empty worker pool
    /// and for a structurally inconsistent plan; otherwise the runner holds
    /// the given configuration and no filter pattern.
    pub fn new(
        instruction_bound: u64,
        num_workers: usize,
        cross_check: bool,
        verbose: bool,
        retain_failure_state: bool,
        plan: TestPlan,
    ) -> (r: Result<TestRunner, RunnerError>)
        ensures
            r is Ok <==> num_workers > 0 && plan.is_consistent(),
            r matches Err(e) ==> (e == RunnerError::ZeroWorkers <==> num_workers == 0),
            r matches Ok(runner) ==> runner == (TestRunner {
                instruction_bound,
                num_workers,
                cross_check,
                verbose,
                retain_failure_state,
                plan,
                pattern: None,
            }),
    {
        if num_workers == 0 {
            return Err(RunnerError::ZeroWorkers);
        }
        if !plan.check_consistent() {
            return Err(RunnerError::InconsistentPlan);
        }
        Ok(
            TestRunner {
                instruction_bound,
                num_workers,
                cross_check,
                verbose,
                retain_failure_state,
                plan,
                pattern: None,
            },
        )
    }

    /// Narrow the active test set to the tests whose qualified name
    /// contains the pattern.
    pub fn filter(&mut self, filter_str: &str)
        ensures
            final (self).pattern matches Some(p) && p@ == filter_str@,
            final (self).instruction_bound == old(self).instruction_bound,
            final (self).num_workers == old(self).num_workers,
            final (self).cross_check == old(self).cross_check,
            final (self).verbose == old(self).verbose,
            final (self).retain_failure_state == old(self).retain_failure_state,
            final (self).plan == old(self).plan,
    {
        self.pattern = Some(filter_str.to_owned());
    }

    /// Run every selected test over the engine reports gathered for the
    /// plan, one report per plan entry, and collect one entry per selected
    /// test. The workers of the pool each pull the next unclaimed test; the
    /// recorded classifications are independent of the pool size.
    pub fn run(&self, execs: &Vec<TestExecution>) -> (results: TestResults)
        requires
            execs@.len() == self.plan.tests@.len(),
            self.cross_check ==> forall|i: int|
                0 <= i < execs@.len() ==> (#[trigger] execs@[i].secondary) is Some,
        ensures
            run_results_ok(
                results,
                self.plan,
                pattern_view(self.pattern),
                execs@,
                self.instruction_bound,
                self.cross_check,
                self.retain_failure_state,
            ),
    {
        let ghost pat = pattern_view(self.pattern);
        let tests_len = self.plan.tests.len();
        let mut selected_idx: Vec<usize> = Vec::new();
        let mut i: usize = 0;
        while i < tests_len
            invariant
                tests_len == self.plan.tests@.len(),
                i <= tests_len,
                pat == pattern_view(self.pattern),
                selected_idx@.len() == filtered_indices(
                    self.plan.tests@.take(i as int),
                    pat,
                ).len(),
                forall|k: int|
                    0 <= k < selected_idx@.len() ==> #[trigger] selected_idx@[k] as int
                        == filtered_indices(self.plan.tests@.take(i as int), pat)[k],
            decreases tests_len - i,
        {
            proof {
                assert(self.plan.tests@.take(i + 1 as int).drop_last() =~= self.plan.tests@.take(
                    i as int,
                ));
                assert(self.plan.tests@.take(i + 1 as int).last() == self.plan.tests@[i as int]);
            }
            if test_selected(&self.plan.tests[i], &self.pattern) {
                selected_idx.push(i);
            }
            i += 1;
        }
        proof {
            assert(self.plan.tests@.take(tests_len as int) =~= self.plan.tests@);
            lemma_filtered_indices_range(self.plan.tests@, pat);
        }
        let ghost fi = filtered_indices(self.plan.tests@, pat);
        let mut entries: Vec<ResultEntry> = Vec::new();
        let mut k: usize = 0;
        while k < selected_idx.len()
            invariant
                fi == filtered_indices(self.plan.tests@, pat),
                selected_idx@.len() == fi.len(),
                forall|m: int|
                    0 <= m < selected_idx@.len() ==> #[trigger] selected_idx@[m] as int == fi[m],
                forall|m: int|
                    0 <= m < fi.len() ==> 0 <= #[trigger] fi[m] < self.plan.tests@.len(),
                execs@.len() == self.plan.tests@.len(),
                self.cross_check ==> forall|i: int|
                    0 <= i < execs@.len() ==> (#[trigger] execs@[i].secondary) is Some,
                k <= selected_idx@.len(),
                entries@.len() == k,
                forall|m: int|
                    0 <= m < k ==> entry_ok(
                        #[trigger] entries@[m],
                        self.plan.tests@[fi[m]],
                        execs@[fi[m]],
                        self.instruction_bound,
                        self.cross_check,
                        self.retain_failure_state,
                    ),
            decreases selected_idx@.len() - k,
        {
            let idx = selected_idx[k];
            let t = &self.plan.tests[idx];
            let name = qualified_name(t.module_name.as_str(), t.function_name.as_str());
            let result = execute_test(
                t.expected,
                &execs[idx],
                self.instruction_bound,
                self.cross_check,
                self.retain_failure_state,
            );
            entries.push(ResultEntry { name, result });
            k += 1;
        }
        TestResults { entries }
    }
}

/// A selected test whose target needs exactly one step more than the
/// instruction bound is always recorded as having exceeded it when no
/// cross-check is enabled. No worker count enters a conforming run's
/// outcomes, so this holds for every pool size.
pub proof fn lemma_run_bound_exceeded(
    results: TestResults,
    plan: TestPlan,
    pattern: Option<Seq<char>>,
    execs: Seq<TestExecution>,
    bound: u64,
    retain: bool,
    k: int,
)
    requires
        run_results_ok(results, plan, pattern, execs, bound, false, retain),
        0 <= k < filtered_indices(plan.tests@, pattern).len(),
        execs[filtered_indices(plan.tests@, pattern)[k]].primary.steps_required == bound + 1,
    ensures
        results.entries@[k].result.outcome == ExecutionOutcome::FailedInstructionBoundExceeded,
{
}

/// With cross-checking enabled, a selected test whose two engines classify
/// differently is recorded as `Divergent`, and its entry carries both
/// engines' individual classifications for diagnosis.
pub proof fn lemma_run_divergence(
    results: TestResults,
    plan: TestPlan,
    pattern: Option<Seq<char>>,
    execs: Seq<TestExecution>,
    bound: u64,
    retain: bool,
    k: int,
)
    requires
        run_results_ok(results, plan, pattern, execs, bound, true, retain),
        0 <= k < filtered_indices(plan.tests@, pattern).len(),
        primary_outcome(
            plan.tests@[filtered_indices(plan.tests@, pattern)[k]].expected,
            execs[filtered_indices(plan.tests@, pattern)[k]],
            bound,
        ) != classification(
            plan.tests@[filtered_indices(plan.tests@, pattern)[k]].expected,
            bounded_result(execs[filtered_indices(plan.tests@, pattern)[k]].secondary->0, bound),
        ),
    ensures
        results.entries@[k].result.outcome == ExecutionOutcome::Divergent,
        results.entries@[k].result.primary == primary_outcome(
            plan.tests@[filtered_indices(plan.tests@, pattern)[k]].expected,
            execs[filtered_indices(plan.tests@, pattern)[k]],
            bound,
        ),
        results.entries@[k].result.secondary == Some(
            classification(
                plan.tests@[filtered_indices(plan.tests@, pattern)[k]].expected,
                bounded_result(
                    execs[filtered_indices(plan.tests@, pattern)[k]].secondary->0,
                    bound,
                ),
            ),
        ),
{
}

/// Scheduling-independence: any two conforming runs of the same plan under
/// the same filter, engine reports, bound and cross-check flag record the
/// same classification for every test — whatever worker counts their pools
/// had, and whether or not either retained failure state.
pub proof fn lemma_scheduling_independence(
    ra: TestResults,
    rb: TestResults,
    plan: TestPlan,
    pattern: Option<Seq<char>>,
    execs: Seq<TestExecution>,
    bound: u64,
    cross_check: bool,
    retain_a: bool,
    retain_b: bool,
)
    requires
        run_results_ok(ra, plan, pattern, execs, bound, cross_check, retain_a),
        run_results_ok(rb, plan, pattern, execs, bound, cross_check, retain_b),
    ensures
        ra.entries@.len() == rb.entries@.len(),
        forall|k: int|
            0 <= k < ra.entries@.len() ==> #[trigger] ra.entries@[k].result.outcome
                == rb.entries@[k].result.outcome && ra.entries@[k].name@ == rb.entries@[k].name@,
{
}

} // verus!
