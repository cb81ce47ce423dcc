use move_unit_test::adapter::{EngineRun, TestExecution, VmTerminal};
use move_unit_test::config::UnitTestingConfig;
use move_unit_test::filter::str_contains;
use move_unit_test::outcome::{ExecutionOutcome, ExpectedOutcome};
use move_unit_test::plan::{CompiledUnit, TestCase, TestPlan};
use move_unit_test::runner::{RunnerError, TestRunner};

fn test_case(module: &str, function: &str, expected: ExpectedOutcome) -> TestCase {
    TestCase {
        module_name: module.to_string(),
        function_name: function.to_string(),
        expected,
        arguments: Vec::new(),
    }
}

fn unit(module: &str) -> CompiledUnit {
    CompiledUnit { module_name: module.to_string(), bytecode: vec![0, 1, 2] }
}

fn exec(steps: u64, terminal: VmTerminal) -> TestExecution {
    TestExecution {
        primary: EngineRun {
            steps_required: steps,
            terminal,
            duration_nanos: 500,
            final_state: vec![1],
        },
        secondary: None,
    }
}

fn config(plan_filter: Option<String>, statistics: bool) -> UnitTestingConfig {
    UnitTestingConfig {
        instruction_execution_bound: 100,
        filter: plan_filter,
        num_threads: 8,
        report_statistics: statistics,
        report_storage_on_error: false,
        source_files: Vec::new(),
        check_stackless_vm: false,
        verbose: false,
    }
}

#[test]
fn substring_filter_selects_exactly_the_matching_names() {
    // Filter "foo" over {"m::foo_bar", "m::baz", "n::foo"} selects exactly
    // {"m::foo_bar", "n::foo"}.
    let plan = TestPlan {
        tests: vec![
            test_case("m", "foo_bar", ExpectedOutcome::Success),
            test_case("m", "baz", ExpectedOutcome::Success),
            test_case("n", "foo", ExpectedOutcome::Success),
        ],
        units: vec![unit("m"), unit("n")],
    };
    let execs = vec![
        exec(1, VmTerminal::Completed),
        exec(1, VmTerminal::Completed),
        exec(1, VmTerminal::Completed),
    ];
    let mut runner = TestRunner::new(100, 8, false, false, false, plan).unwrap();
    runner.filter("foo");
    let results = runner.run(&execs);
    let names: Vec<&str> = results.entries.iter().map(|e| e.name.as_str()).collect();
    assert_eq!(names, vec!["m::foo_bar", "n::foo"]);
}

#[test]
fn absent_filter_selects_every_test() {
    assert!(str_contains("m::foo_bar", "foo"));
    assert!(str_contains("n::foo", "foo"));
    assert!(!str_contains("m::baz", "foo"));
    assert!(str_contains("anything", ""));
    assert!(str_contains("", ""));
    assert!(!str_contains("short", "much_longer_pattern"));
    assert!(str_contains("m::baz", "m::baz"));
}

#[test]
fn end_to_end_two_passing_tests() {
    // A plan with a test expecting success in 10 steps and a test expecting
    // abort code 7 in 20 steps, bound 100, no cross-check, statistics off.
    let plan = TestPlan {
        tests: vec![
            test_case("m", "t1", ExpectedOutcome::Success),
            test_case("m", "t2", ExpectedOutcome::Abort(Some(7))),
        ],
        units: vec![unit("m")],
    };
    let execs = vec![exec(10, VmTerminal::Completed), exec(20, VmTerminal::Aborted(7))];
    let cfg = config(None, false);
    let (results, report) = cfg.run_and_report_unit_tests(plan, &execs).unwrap();
    assert_eq!(results.entries.len(), 2);
    assert!(report.statistics.is_none());
    assert_eq!(report.summary.total, 2);
    assert_eq!(report.summary.passed, 2);
    assert_eq!(report.summary.failed, 0);
    assert!(report.summary.failures.is_empty());
}

#[test]
fn summary_total_is_the_filtered_count() {
    let plan = TestPlan {
        tests: vec![
            test_case("m", "foo_one", ExpectedOutcome::Success),
            test_case("m", "bar", ExpectedOutcome::Success),
            test_case("m", "foo_two", ExpectedOutcome::Success),
        ],
        units: vec![unit("m")],
    };
    let execs = vec![
        exec(1, VmTerminal::Completed),
        exec(1, VmTerminal::RuntimeError),
        exec(1, VmTerminal::RuntimeError),
    ];
    let cfg = config(Some("foo".to_string()), false);
    let (results, report) = cfg.run_and_report_unit_tests(plan, &execs).unwrap();
    // The excluded test never appears: total is 2, not 3.
    assert_eq!(results.entries.len(), 2);
    assert_eq!(report.summary.total, 2);
    assert_eq!(report.summary.passed, 1);
    assert_eq!(report.summary.failed, 1);
    assert_eq!(report.summary.failures.len(), 1);
    assert_eq!(report.summary.failures[0].name, "m::foo_two");
    assert_eq!(report.summary.failures[0].outcome, ExecutionOutcome::FailedExecutionError);
}

#[test]
fn empty_plan_is_a_trivially_passing_run() {
    let plan = TestPlan { tests: Vec::new(), units: Vec::new() };
    let cfg = config(None, false);
    let (results, report) = cfg.run_and_report_unit_tests(plan, &Vec::new()).unwrap();
    assert_eq!(results.entries.len(), 0);
    assert_eq!(report.summary.total, 0);
    assert_eq!(report.summary.passed, 0);
    assert_eq!(report.summary.failed, 0);
}

#[test]
fn statistics_block_present_exactly_when_requested() {
    let plan = TestPlan {
        tests: vec![test_case("m", "t", ExpectedOutcome::Success)],
        units: vec![unit("m")],
    };
    let execs = vec![exec(10, VmTerminal::Completed)];
    let with_stats = config(None, true);
    let (_, report) = with_stats.run_and_report_unit_tests(
        TestPlan {
            tests: vec![test_case("m", "t", ExpectedOutcome::Success)],
            units: vec![unit("m")],
        },
        &execs,
    ).unwrap();
    let lines = report.statistics.expect("statistics were requested");
    assert_eq!(lines.len(), 1);
    assert_eq!(lines[0].name, "m::t");
    assert_eq!(lines[0].steps, 10);
    assert_eq!(lines[0].duration_nanos, 500);

    let without_stats = config(None, false);
    let (_, report) = without_stats.run_and_report_unit_tests(plan, &execs).unwrap();
    assert!(report.statistics.is_none());
}

#[test]
fn same_outcomes_for_any_worker_count() {
    let tests = || {
        vec![
            test_case("m", "a", ExpectedOutcome::Success),
            test_case("m", "b", ExpectedOutcome::Abort(Some(3))),
            test_case("m", "c", ExpectedOutcome::Success),
        ]
    };
    let execs = vec![
        exec(10, VmTerminal::Completed),
        exec(10, VmTerminal::Aborted(4)),
        exec(500, VmTerminal::Completed),
    ];
    let single = TestRunner::new(
        100,
        1,
        false,
        false,
        false,
        TestPlan { tests: tests(), units: vec![unit("m")] },
    )
    .unwrap()
    .run(&execs);
    let pooled = TestRunner::new(
        100,
        16,
        false,
        false,
        false,
        TestPlan { tests: tests(), units: vec![unit("m")] },
    )
    .unwrap()
    .run(&execs);
    assert_eq!(single.entries.len(), pooled.entries.len());
    for (a, b) in single.entries.iter().zip(pooled.entries.iter()) {
        assert_eq!(a.name, b.name);
        assert_eq!(a.result.outcome, b.result.outcome);
    }
    assert_eq!(single.entries[0].result.outcome, ExecutionOutcome::Passed);
    assert_eq!(single.entries[1].result.outcome, ExecutionOutcome::FailedWrongAbort);
    assert_eq!(
        single.entries[2].result.outcome,
        ExecutionOutcome::FailedInstructionBoundExceeded
    );
}

#[test]
fn construction_fails_for_zero_workers() {
    let plan = TestPlan {
        tests: vec![test_case("m", "t", ExpectedOutcome::Success)],
        units: vec![unit("m")],
    };
    let r = TestRunner::new(100, 0, false, false, false, plan);
    assert_eq!(r.err(), Some(RunnerError::ZeroWorkers));
}

#[test]
fn construction_fails_for_inconsistent_plan() {
    // The test references module "ghost_module", absent from the units.
    let plan = TestPlan {
        tests: vec![test_case("ghost_module", "t", ExpectedOutcome::Success)],
        units: vec![unit("m")],
    };
    let r = TestRunner::new(100, 8, false, false, false, plan);
    assert_eq!(r.err(), Some(RunnerError::InconsistentPlan));
}

#[test]
fn divergence_is_surfaced_in_the_failure_block() {
    let plan = TestPlan {
        tests: vec![test_case("m", "t", ExpectedOutcome::Success)],
        units: vec![unit("m")],
    };
    let execs = vec![TestExecution {
        primary: EngineRun {
            steps_required: 10,
            terminal: VmTerminal::Completed,
            duration_nanos: 500,
            final_state: vec![9, 9],
        },
        secondary: Some(EngineRun {
            steps_required: 11,
            terminal: VmTerminal::RuntimeError,
            duration_nanos: 700,
            final_state: vec![8],
        }),
    }];
    let mut cfg = config(None, false);
    cfg.check_stackless_vm = true;
    cfg.report_storage_on_error = true;
    let (_, report) = cfg.run_and_report_unit_tests(plan, &execs).unwrap();
    assert_eq!(report.summary.failed, 1);
    let failure = &report.summary.failures[0];
    assert_eq!(failure.outcome, ExecutionOutcome::Divergent);
    assert_eq!(failure.primary, ExecutionOutcome::Passed);
    assert_eq!(failure.secondary, Some(ExecutionOutcome::FailedExecutionError));
    assert_eq!(failure.snapshot, Some(vec![9, 9]));
}
