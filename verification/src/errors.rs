//! Error taxonomy of the session resource core.
//!
//! Construction with an invalid capacity is a `ConfigurationError`, a
//! malformed filter is a `FilterError`, and admission after shutdown is a
//! `PoolClosedError`. Cache misses, non-matching filter evaluations and
//! eviction are ordinary control flow, never errors.

use vstd::prelude::*;

verus! {

/// Invalid capacity or size parameter at construction time. Fatal to that
/// component's construction; never silently defaulted.
#[derive(Clone, Copy, Debug, PartialEq, Eq, Structural)]
pub struct ConfigurationError;

impl ConfigurationError {
    /// A plain-text description, for callers that need to report the error.
    pub fn message(&self) -> (r: String)
        ensures
            r@ == "capacity must be a positive integer"@,
    {
        "capacity must be a positive integer".to_owned()
    }
}

/// A malformed filter rule. The offending `add_filter` call fails; filters
/// added earlier remain intact.
#[derive(Clone, Copy, Debug, PartialEq, Eq, Structural)]
pub struct FilterError;

impl FilterError {
    /// A plain-text description, for callers that need to report the error.
    pub fn message(&self) -> (r: String)
        ensures
            r@ == "filter rule has an empty match expression"@,
    {
        "filter rule has an empty match expression".to_owned()
    }
}

/// Admission was attempted, or was in progress, after the pool shut down.
#[derive(Clone, Copy, Debug, PartialEq, Eq, Structural)]
pub struct PoolClosedError;

impl PoolClosedError {
    /// A plain-text description, for callers that need to report the error.
    pub fn message(&self) -> (r: String)
        ensures
            r@ == "connection pool is closed"@,
    {
        "connection pool is closed".to_owned()
    }
}

/// Session-level failures of the browser shell. The shell maps process and
/// WebDriver faults into these variants; the core itself never produces
/// them.
#[derive(Clone, Debug)]
pub enum BrowserError {
    DriverStartError(String),
    ConnectionError(String),
    NavigationError(String),
    NoPortsAvailable,
    SessionError(String),
}

} // verus!
