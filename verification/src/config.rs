//! The unit-testing configuration and the library entry point: build a
//! runner from the configuration, narrow the plan by the configured filter,
//! run every selected test over the gathered engine reports, and assemble
//! the report.

use vstd::prelude::*;
use crate::adapter::TestExecution;
use crate::filter::pattern_view;
use crate::plan::TestPlan;
use crate::report::{statistics_ok, summary_ok, Report, Summary};
use crate::runner::{filtered_indices, run_results_ok, RunnerError, TestResults, TestRunner};

verus! {

/// The configuration of one unit-testing run: the per-test instruction
/// bound, an optional substring filter over qualified test names, the
/// worker pool size, the reporting flags, the source files handed to the
/// compiler collaborator, whether to cross-check against the alternate
/// stackless engine, and verbosity.
pub struct UnitTestingConfig {
    pub instruction_execution_bound: u64,
    pub filter: Option<String>,
    pub num_threads: usize,
    pub report_statistics: bool,
    pub report_storage_on_error: bool,
    pub source_files: Vec<String>,
    pub check_stackless_vm: bool,
    pub verbose: bool,
}

impl UnitTestingConfig {
    /// Run every selected test of the plan over the gathered engine
    /// reports and assemble the report: the statistics block exactly when
    /// statistics reporting was requested, and the summary. Fails exactly
    /// when the runner's construction fails: an empty worker pool or an
    /// inconsistent plan.
    pub fn run_and_report_unit_tests(&self, plan: TestPlan, execs: &Vec<TestExecution>) -> (r:
        Result<(TestResults, Report), RunnerError>)
        requires
            execs@.len() == plan.tests@.len(),
            self.check_stackless_vm ==> forall|i: int|
                0 <= i < execs@.len() ==> (#[trigger] execs@[i].secondary) is Some,
        ensures
            r is Ok <==> self.num_threads > 0 && plan.is_consistent(),
            r matches Err(e) ==> (e == RunnerError::ZeroWorkers <==> self.num_threads == 0),
            r matches Ok(pair) ==> {
                &&& run_results_ok(
                    pair.0,
                    plan,
                    pattern_view(self.filter),
                    execs@,
                    self.instruction_execution_bound,
                    self.check_stackless_vm,
                    self.report_storage_on_error,
                )
                &&& pair.1.statistics is Some <==> self.report_statistics
                &&& (pair.1.statistics matches Some(lines) ==> statistics_ok(
                    lines@,
                    pair.0.entries@,
                ))
                &&& summary_ok(pair.1.summary, pair.0.entries@)
            },
    {
        let mut runner = match TestRunner::new(
            self.instruction_execution_bound,
            self.num_threads,
            self.check_stackless_vm,
            self.verbose,
            self.report_storage_on_error,
            plan,
        ) {
            Ok(runner) => runner,
            Err(e) => {
                return Err(e);
            },
        };
        match &self.filter {
            Some(filter_str) => runner.filter(filter_str.as_str()),
            None => (),
        }
        let results = runner.run(execs);
        let statistics = if self.report_statistics {
            Some(results.report_statistics())
        } else {
            None
        };
        let summary = results.summarize();
        Ok((results, Report { statistics, summary }))
    }
}

/// For every conforming run, the summary's total equals passed plus failed
/// and equals the number of tests the filter selected — never the
/// unfiltered count.
pub proof fn lemma_summary_counts(
    results: TestResults,
    s: Summary,
    plan: TestPlan,
    pattern: Option<Seq<char>>,
    execs: Seq<TestExecution>,
    bound: u64,
    cross_check: bool,
    retain: bool,
)
    requires
        run_results_ok(results, plan, pattern, execs, bound, cross_check, retain),
        summary_ok(s, results.entries@),
    ensures
        s.passed + s.failed == s.total,
        s.total == filtered_indices(plan.tests@, pattern).len(),
{
}

} // verus!
