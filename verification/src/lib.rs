//! A concurrent unit-test execution engine for compiled smart-contract
//! bytecode modules.
//!
//! Given a test plan (discovered test cases plus the compiled units they
//! reference), the runner executes each test in isolation under a
//! step-bounded virtual machine, classifies the outcome against the test's
//! declared expectation, optionally cross-checks the result against a second
//! independent engine, and aggregates everything into a deterministic report.

pub mod adapter;
pub mod config;
pub mod filter;
pub mod module_id;
pub mod outcome;
pub mod plan;
pub mod report;
pub mod runner;
