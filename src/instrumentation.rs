use vstd::prelude::*;

use std::sync::atomic::{AtomicUsize, Ordering};
use std::time::{Duration, Instant};

verus! {

/// Number of processed vertices between two progress reports.
pub const PROGRESS_INTERVAL: usize = 100_000;

/// Measures the time since it was started or last reset.
pub struct Timer {
    start: Instant,
}

impl Timer {
    /// A timer started now.
    pub fn new() -> Self {
        Timer { start: Instant::now() }
    }

    /// Time since the timer was started or last reset.
    pub fn elapsed(&self) -> Duration {
        self.start.elapsed()
    }

    /// Restarts the timer now.
    pub fn reset(&mut self) {
        self.start = Instant::now();
    }
}

/// Reports the time spent in each stage of a disk index build.
pub struct DiskIndexBuildLogger {
    timer: Timer,
}

impl DiskIndexBuildLogger {
    /// A logger whose first stage starts now.
    pub fn new() -> Self {
        Self { timer: Timer::new() }
    }

    /// Ends the current stage: returns the time it took and starts the next one.
    pub fn checkpoint(&mut self) -> Duration {
        let elapsed = self.timer.elapsed();
        self.timer.reset();
        elapsed
    }
}

/// Whether the vertex counted as `count` (from zero) is due a progress report.
pub fn is_progress_point(count: usize) -> (r: bool)
    ensures
        r == (count % PROGRESS_INTERVAL == 0),
{
    count % PROGRESS_INTERVAL == 0
}

/// Counts processed vertices of an index build, which may run on many threads at once.
pub struct IndexLogger {
    items_processed: AtomicUsize,
    timer: Timer,
    range: usize,
}

impl IndexLogger {
    /// A logger for a build over `range` vertices, with none processed yet.
    pub fn new(range: usize) -> (r: Self)
        ensures
            r.range() == range,
    {
        Self { items_processed: AtomicUsize::new(0), timer: Timer::new(), range }
    }

    /// Number of vertices of the build.
    pub closed spec fn range(&self) -> usize {
        self.range
    }

    /// Number of vertices of the build.
    pub fn total(&self) -> (r: usize)
        ensures
            r == self.range(),
    {
        self.range
    }

    /// Time since the build started.
    pub fn elapsed(&self) -> Duration {
        self.timer.elapsed()
    }

    /// Counts one more processed vertex. Returns its count (from zero) when a progress
    /// report is due, that is at every multiple of the interval.
    pub fn vertex_processed(&self) -> (r: Option<usize>)
        ensures
            r matches Some(c) ==> c % PROGRESS_INTERVAL == 0,
    {
        let count = self.items_processed.fetch_add(1, Ordering::Relaxed);
        if is_progress_point(count) {
            Some(count)
        } else {
            None
        }
    }
}

} // verus!
