//! Result and report types, and the failure taxonomy of a run.

use vstd::prelude::*;

verus! {

/// Why a test run produced no result: the deadline elapsed before the probe
/// finished, or the probe terminated abnormally. Either aborts the remaining
/// schedule.
#[derive(Clone, Copy, Debug, PartialEq, Eq, Structural)]
pub enum Error {
    TestTimeout,
    TestFailed,
}

/// The summary of one successfully completed test run: the test's name and
/// the four statistics reduced from its samples.
pub struct PerformanceTestResult<S> {
    pub name: String,
    pub mean: S,
    pub std_dev: S,
    pub max: S,
    pub min: S,
}

/// The single artifact of a benchmark sweep: provenance metadata and the
/// results recorded so far, in schedule order.
pub struct MetricsReport<S> {
    pub git_human_readable: String,
    pub git_revision: String,
    pub date: String,
    pub results: Vec<PerformanceTestResult<S>>,
}

impl<S> MetricsReport<S> {
    /// A fresh report holding the given provenance and no results yet.
    pub fn new(git_human_readable: String, git_revision: String, date: String) -> (r: Self)
        ensures
            r.git_human_readable@ == git_human_readable@,
            r.git_revision@ == git_revision@,
            r.date@ == date@,
            r.results@ =~= Seq::<PerformanceTestResult<S>>::empty(),
    {
        MetricsReport { git_human_readable, git_revision, date, results: Vec::new() }
    }
}

} // verus!
