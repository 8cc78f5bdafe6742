//! Navigation accounting of a session. Durations are plain milliseconds;
//! the shell measures them.

use vstd::prelude::*;

verus! {

/// Accumulated navigation figures.
#[derive(Debug)]
pub struct PerformanceMetrics {
    pub navigation_times: Vec<u64>,
    pub page_loads: usize,
    pub errors: usize,
}

/// Collects navigation timings for one session.
pub struct PerformanceMonitor {
    metrics: PerformanceMetrics,
}

impl PerformanceMonitor {
    /// The recorded navigation durations, in order, in milliseconds.
    pub closed spec fn timings(&self) -> Seq<u64> {
        self.metrics.navigation_times@
    }

    /// How many page loads were recorded.
    pub closed spec fn loads(&self) -> nat {
        self.metrics.page_loads as nat
    }

    /// How many errors were recorded.
    pub closed spec fn errors_spec(&self) -> nat {
        self.metrics.errors as nat
    }

    /// Creates an empty monitor.
    pub fn new() -> (r: PerformanceMonitor)
        ensures
            r.timings() == Seq::<u64>::empty(),
            r.loads() == 0,
            r.errors_spec() == 0,
    {
        PerformanceMonitor {
            metrics: PerformanceMetrics {
                navigation_times: Vec::new(),
                page_loads: 0,
                errors: 0,
            },
        }
    }

    /// Records one navigation of `duration_ms` milliseconds. The load
    /// counter saturates rather than wrap.
    pub fn record_navigation(&mut self, duration_ms: u64)
        ensures
            final(self).timings() == old(self).timings().push(duration_ms),
            final(self).loads() == (if old(self).loads() < usize::MAX {
                old(self).loads() + 1
            } else {
                old(self).loads()
            }),
            final(self).errors_spec() == old(self).errors_spec(),
    {
        self.metrics.navigation_times.push(duration_ms);
        if self.metrics.page_loads < usize::MAX {
            self.metrics.page_loads = self.metrics.page_loads + 1;
        }
    }

    /// Records one navigation error. The counter saturates rather than
    /// wrap.
    pub fn record_error(&mut self)
        ensures
            final(self).errors_spec() == (if old(self).errors_spec() < usize::MAX {
                old(self).errors_spec() + 1
            } else {
                old(self).errors_spec()
            }),
            final(self).timings() == old(self).timings(),
            final(self).loads() == old(self).loads(),
    {
        if self.metrics.errors < usize::MAX {
            self.metrics.errors = self.metrics.errors + 1;
        }
    }

    /// How many page loads were recorded.
    pub fn page_loads(&self) -> (n: usize)
        ensures
            n == self.loads(),
    {
        self.metrics.page_loads
    }

    /// The recorded navigation durations, oldest first.
    pub fn navigation_times(&self) -> (r: &Vec<u64>)
        ensures
            r@ == self.timings(),
    {
        &self.metrics.navigation_times
    }

    /// A one-line summary of the recorded figures.
    pub fn get_stats(&self) -> (r: String)
        ensures
            r@ == "Performance stats not implemented"@,
    {
        "Performance stats not implemented".to_owned()
    }
}

} // verus!
