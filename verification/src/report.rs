//! The result aggregator and reporter: per-test statistics lines, the
//! failure detail block, and the final summary whose total always equals
//! the number of selected tests and always splits exactly into passed and
//! failed.

use vstd::prelude::*;
use crate::adapter::clone_bytes;
use crate::outcome::ExecutionOutcome;
use crate::runner::{ResultEntry, TestResults};

verus! {

/// One per-test statistics line: the qualified name, the VM steps executed,
/// and the measured wall-clock duration.
pub struct StatisticsLine {
    pub name: String,
    pub steps: u64,
    pub duration_nanos: u64,
}

/// One failure detail entry: the failing test's qualified name, its
/// reconciled outcome, the two engines' individual classifications for
/// divergence diagnosis, and the retained final storage when configured.
pub struct FailureEntry {
    pub name: String,
    pub outcome: ExecutionOutcome,
    pub primary: ExecutionOutcome,
    pub secondary: Option<ExecutionOutcome>,
    pub snapshot: Option<Vec<u8>>,
}

/// The final summary: one detail entry per failing test, then the counts.
/// The total is the number of selected tests, never the unfiltered count,
/// and equals passed plus failed.
pub struct Summary {
    pub failures: Vec<FailureEntry>,
    pub total: usize,
    pub passed: usize,
    pub failed: usize,
}

/// The whole report beyond the per-test progress entries: the statistics
/// block exactly when statistics reporting was requested, and the summary.
pub struct Report {
    pub statistics: Option<Vec<StatisticsLine>>,
    pub summary: Summary,
}

/// How many recorded entries passed.
pub open spec fn count_passed(s: Seq<ResultEntry>) -> int
    decreases s.len(),
{
    if s.len() == 0 {
        0
    } else {
        count_passed(s.drop_last()) + if s.last().result.outcome == ExecutionOutcome::Passed {
            1int
        } else {
            0int
        }
    }
}

/// The indices, in order, of the entries that did not pass.
pub open spec fn failing_indices(s: Seq<ResultEntry>) -> Seq<int>
    decreases s.len(),
{
    if s.len() == 0 {
        Seq::empty()
    } else {
        let prefix = failing_indices(s.drop_last());
        if s.last().result.outcome != ExecutionOutcome::Passed {
            prefix.push(s.len() - 1)
        } else {
            prefix
        }
    }
}

/// Passing and failing entries partition the aggregate: the passed count
/// and the failing entries together account for every entry exactly once.
pub proof fn lemma_pass_fail_partition(s: Seq<ResultEntry>)
    ensures
        0 <= count_passed(s) <= s.len(),
        count_passed(s) + failing_indices(s).len() == s.len(),
    decreases s.len(),
{
    if s.len() > 0 {
        lemma_pass_fail_partition(s.drop_last());
    }
}

/// Every failing index lies within the aggregate.
pub proof fn lemma_failing_indices_range(s: Seq<ResultEntry>)
    ensures
        forall|k: int|
            0 <= k < failing_indices(s).len() ==> 0 <= #[trigger] failing_indices(s)[k] < s.len(),
    decreases s.len(),
{
    if s.len() > 0 {
        lemma_failing_indices_range(s.drop_last());
        let fi = failing_indices(s);
        let prev = failing_indices(s.drop_last());
        assert forall|k: int| 0 <= k < fi.len() implies 0 <= #[trigger] fi[k] < s.len() by {
            if k < prev.len() {
                assert(fi[k] == prev[k]);
            }
        }
    }
}

/// A statistics block is correct: one line per recorded entry, in order,
/// carrying that entry's name, step count and duration.
pub open spec fn statistics_ok(lines: Seq<StatisticsLine>, entries: Seq<ResultEntry>) -> bool {
    &&& lines.len() == entries.len()
    &&& forall|k: int|
        0 <= k < entries.len() ==> {
            let l = #[trigger] lines[k];
            &&& l.name@ == entries[k].name@
            &&& l.steps == entries[k].result.stats.steps
            &&& l.duration_nanos == entries[k].result.stats.duration_nanos
        }
}

/// A failure detail entry is correct for a recorded entry: same name, same
/// reconciled outcome, both individual classifications, and the same
/// retained storage.
pub open spec fn failure_entry_ok(f: FailureEntry, e: ResultEntry) -> bool {
    &&& f.name@ == e.name@
    &&& f.outcome == e.result.outcome
    &&& f.primary == e.result.primary
    &&& f.secondary == e.result.secondary
    &&& match (f.snapshot, e.result.snapshot) {
        (Some(a), Some(b)) => a@ == b@,
        (None, None) => true,
        _ => false,
    }
}

/// A summary is correct for an aggregate: the total is the number of
/// recorded entries, the passed count counts exactly the passing entries,
/// failed is the rest, and the failure block lists exactly the non-passing
/// entries, in order.
pub open spec fn summary_ok(s: Summary, entries: Seq<ResultEntry>) -> bool {
    &&& s.total == entries.len()
    &&& s.passed == count_passed(entries)
    &&& s.failed == s.total - s.passed
    &&& s.failures@.len() == failing_indices(entries).len()
    &&& forall|k: int|
        0 <= k < failing_indices(entries).len() ==> failure_entry_ok(
            #[trigger] s.failures@[k],
            entries[failing_indices(entries)[k]],
        )
}

impl TestResults {
    /// The per-test statistics block: one line per executed test with its
    /// qualified name, step count and duration. Always safe to call; the
    /// caller decides, by configuration, whether the block enters the
    /// report.
    pub fn report_statistics(&self) -> (lines: Vec<StatisticsLine>)
        ensures
            statistics_ok(lines@, self.entries@),
    {
        let mut lines: Vec<StatisticsLine> = Vec::new();
        let mut i: usize = 0;
        while i < self.entries.len()
            invariant
                i <= self.entries@.len(),
                lines@.len() == i,
                forall|k: int|
                    0 <= k < i ==> {
                        let l = #[trigger] lines@[k];
                        &&& l.name@ == self.entries@[k].name@
                        &&& l.steps == self.entries@[k].result.stats.steps
                        &&& l.duration_nanos == self.entries@[k].result.stats.duration_nanos
                    },
            decreases self.entries@.len() - i,
        {
            let e = &self.entries[i];
            lines.push(
                StatisticsLine {
                    name: e.name.clone(),
                    steps: e.result.stats.steps,
                    duration_nanos: e.result.stats.duration_nanos,
                },
            );
            i += 1;
        }
        lines
    }

    /// The final summary: one detail entry per failing test, then the
    /// counts. The total equals the number of selected tests and always
    /// splits exactly into passed plus failed.
    pub fn summarize(&self) -> (s: Summary)
        ensures
            summary_ok(s, self.entries@),
            s.passed + s.failed == s.total,
            s.total == self.entries@.len(),
    {
        let total = self.entries.len();
        let mut passed: usize = 0;
        let mut failures: Vec<FailureEntry> = Vec::new();
        let mut i: usize = 0;
        while i < total
            invariant
                total == self.entries@.len(),
                i <= total,
                passed as int == count_passed(self.entries@.take(i as int)),
                passed <= i,
                failures@.len() == failing_indices(self.entries@.take(i as int)).len(),
                forall|k: int|
                    0 <= k < failures@.len() ==> failure_entry_ok(
                        #[trigger] failures@[k],
                        self.entries@.take(i as int)[failing_indices(
                            self.entries@.take(i as int),
                        )[k]],
                    ),
            decreases total - i,
        {
            proof {
                assert(self.entries@.take(i + 1 as int).drop_last() =~= self.entries@.take(
                    i as int,
                ));
                assert(self.entries@.take(i + 1 as int).last() == self.entries@[i as int]);
                lemma_pass_fail_partition(self.entries@.take(i as int));
                lemma_failing_indices_range(self.entries@.take(i + 1 as int));
            }
            let e = &self.entries[i];
            let is_passed = match e.result.outcome {
                ExecutionOutcome::Passed => true,
                _ => false,
            };
            if is_passed {
                passed += 1;
            } else {
                let snapshot = match &e.result.snapshot {
                    Some(b) => Some(clone_bytes(b)),
                    None => None,
                };
                failures.push(
                    FailureEntry {
                        name: e.name.clone(),
                        outcome: e.result.outcome,
                        primary: e.result.primary,
                        secondary: e.result.secondary,
                        snapshot,
                    },
                );
            }
            proof {
                let now = self.entries@.take(i + 1 as int);
                let prev = self.entries@.take(i as int);
                assert forall|k: int| 0 <= k < failures@.len() implies failure_entry_ok(
                    #[trigger] failures@[k],
                    now[failing_indices(now)[k]],
                ) by {
                    lemma_failing_indices_range(prev);
                    if k < failing_indices(prev).len() {
                        assert(failing_indices(now)[k] == failing_indices(prev)[k]);
                        assert(now[failing_indices(prev)[k]] == prev[failing_indices(prev)[k]]);
                    }
                }
            }
            i += 1;
        }
        proof {
            assert(self.entries@.take(total as int) =~= self.entries@);
        }
        Summary { failures, total, passed, failed: total - passed }
    }
}

} // verus!
