//! Data model of in-browser test runs. Driving a test against a live
//! page is the shell's business; the core only defines the records.

use vstd::prelude::*;

verus! {

/// End-to-end test front end. Stateless.
pub struct TestRunner;

/// Outcome of one test step.
#[derive(Debug, Clone, PartialEq, Eq, Structural)]
pub enum TestStatus {
    Passed,
    Failed,
    Skipped,
}

/// A check against a page element.
#[derive(Debug, Clone)]
pub struct TestAssertion {
    pub selector: String,
    pub condition: String,
    pub value: String,
}

/// One rule violation found by validation.
#[derive(Debug, Clone)]
pub struct Violation {
    pub rule: String,
    pub severity: String,
    pub details: String,
}

/// An accessibility requirement.
#[derive(Debug, Clone)]
pub struct AccessibilityRule {
    pub name: String,
    pub level: String,
    pub selector: String,
}

/// A search-engine-optimisation requirement.
#[derive(Debug, Clone)]
pub struct SeoRule {
    pub name: String,
    pub requirement: String,
    pub importance: String,
}

} // verus!
