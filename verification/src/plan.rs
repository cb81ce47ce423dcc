//! The test plan: the discovered test cases together with the compiled
//! units they reference. Built once per run by the compiler collaborator,
//! immutable afterwards.

use vstd::prelude::*;
use crate::outcome::ExpectedOutcome;

verus! {

/// One declared unit test: a target function within a named module, the
/// declared expectation, and any fixed arguments passed to the target.
pub struct TestCase {
    pub module_name: String,
    pub function_name: String,
    pub expected: ExpectedOutcome,
    pub arguments: Vec<u64>,
}

/// One compiled executable unit, identified by the module it implements.
pub struct CompiledUnit {
    pub module_name: String,
    pub bytecode: Vec<u8>,
}

/// The ordered set of test cases plus the compiled units needed to run
/// them. Read-only for the remainder of a run once constructed.
pub struct TestPlan {
    pub tests: Vec<TestCase>,
    pub units: Vec<CompiledUnit>,
}

impl TestPlan {
    /// Some compiled unit implements the module named `m`.
    pub open spec fn module_known(self, m: Seq<char>) -> bool {
        exists|j: int| 0 <= j < self.units@.len() && self.units@[j].module_name@ == m
    }

    /// Structural consistency: every test case references a module that is
    /// present among the compiled units.
    pub open spec fn is_consistent(self) -> bool {
        forall|i: int|
            0 <= i < self.tests@.len() ==> self.module_known(
                #[trigger] self.tests@[i].module_name@,
            )
    }

    /// Whether some compiled unit implements the module named `m`.
    pub fn has_module(&self, m: &String) -> (b: bool)
        ensures
            b == self.module_known(m@),
    {
        let mut j: usize = 0;
        while j < self.units.len()
            invariant
                j <= self.units@.len(),
                forall|k: int| 0 <= k < j ==> self.units@[k].module_name@ != m@,
            decreases self.units@.len() - j,
        {
            if self.units[j].module_name == *m {
                return true;
            }
            j += 1;
        }
        false
    }

    /// Check that every test case references a module present among the
    /// compiled units.
    pub fn check_consistent(&self) -> (b: bool)
        ensures
            b == self.is_consistent(),
    {
        let mut i: usize = 0;
        while i < self.tests.len()
            invariant
                i <= self.tests@.len(),
                forall|k: int|
                    0 <= k < i ==> self.module_known(#[trigger] self.tests@[k].module_name@),
            decreases self.tests@.len() - i,
        {
            if !self.has_module(&self.tests[i].module_name) {
                return false;
            }
            i += 1;
        }
        true
    }
}

} // verus!
