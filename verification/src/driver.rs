//! The driver: classifies execution outcomes and runs the filtered schedule
//! sequentially, recording results and aborting on the first failure.

use crate::descriptor::PerformanceTest;
use crate::registry::{lemma_filtered_props, spec_filtered, Registry};
use crate::report::{Error, MetricsReport, PerformanceTestResult};
use vstd::prelude::*;

verus! {

/// Classifies what came back from an isolated probe run: a completed run
/// carries its result; abnormal termination (`None`) is a test failure.
pub fn probe_outcome<S>(completion: Option<PerformanceTestResult<S>>) -> (r: Result<
    PerformanceTestResult<S>,
    Error,
>)
    ensures
        completion is Some ==> r == Result::<PerformanceTestResult<S>, Error>::Ok(
            completion->0,
        ),
        completion is None ==> r == Result::<PerformanceTestResult<S>, Error>::Err(
            Error::TestFailed,
        ),
{
    match completion {
        Some(result) => Ok(result),
        None => Err(Error::TestFailed),
    }
}

/// Classifies the wait on a supervised run: if no signal arrived before the
/// deadline (`None`), the test timed out — never a failure; a signal that
/// did arrive is passed through unchanged.
pub fn await_outcome<S>(received: Option<Result<PerformanceTestResult<S>, Error>>) -> (r: Result<
    PerformanceTestResult<S>,
    Error,
>)
    ensures
        received is Some ==> r == received->0,
        received is None ==> r == Result::<PerformanceTestResult<S>, Error>::Err(
            Error::TestTimeout,
        ),
{
    match received {
        Some(outcome) => outcome,
        None => Err(Error::TestTimeout),
    }
}

/// Runs every registered test whose name contains `filter`, in registration
/// order, through the supplied executor. Each completed result is appended
/// to the report; the first failure aborts the remaining schedule and is
/// returned, with the results collected so far preserved.
pub fn run_schedule<P, S, E>(
    registry: &Registry<P>,
    filter: &str,
    exec: &E,
    report: &mut MetricsReport<S>,
) -> (aborted: Option<Error>) where E: Fn(&PerformanceTest<P>) -> Result<
    PerformanceTestResult<S>,
    Error,
>
    requires
        forall|i: int|
            0 <= i < registry.tests@.len() ==> call_requires(exec, (&registry.tests@[i],)),
    ensures
        final(report).git_human_readable@ == old(report).git_human_readable@,
        final(report).git_revision@ == old(report).git_revision@,
        final(report).date@ == old(report).date@,
        ({
            let sf = spec_filtered(registry.tests@, filter@);
            let k = final(report).results@.len() - old(report).results@.len();
            &&& 0 <= k <= sf.len()
            &&& final(report).results@.take(old(report).results@.len() as int) == old(
                report,
            ).results@
            &&& forall|j: int|
                0 <= j < k ==> call_ensures(
                    exec,
                    (&registry.tests@[sf[j]],),
                    Result::<PerformanceTestResult<S>, Error>::Ok(
                        #[trigger] final(report).results@[old(report).results@.len() + j],
                    ),
                )
            &&& match aborted {
                None => k == sf.len(),
                Some(e) => k < sf.len() && call_ensures(
                    exec,
                    (&registry.tests@[sf[k]],),
                    Result::<PerformanceTestResult<S>, Error>::Err(e),
                ),
            }
        }),
{
    let idxs = registry.filtered(filter);
    let ghost sf = spec_filtered(registry.tests@, filter@);
    let ghost old_len = report.results@.len();
    proof {
        lemma_filtered_props(registry.tests@, filter@);
    }
    let mut j: usize = 0;
    while j < idxs.len()
        invariant
            idxs@.map_values(|u: usize| u as int) == sf,
            sf == spec_filtered(registry.tests@, filter@),
            forall|k: int| 0 <= k < sf.len() ==> 0 <= (#[trigger] sf[k]) < registry.tests@.len(),
            forall|i: int|
                0 <= i < registry.tests@.len() ==> call_requires(exec, (&registry.tests@[i],)),
            j <= idxs@.len(),
            old_len == old(report).results@.len(),
            report.results@.len() == old_len + j,
            report.results@.take(old_len as int) == old(report).results@,
            report.git_human_readable@ == old(report).git_human_readable@,
            report.git_revision@ == old(report).git_revision@,
            report.date@ == old(report).date@,
            forall|t: int|
                0 <= t < j ==> call_ensures(
                    exec,
                    (&registry.tests@[sf[t]],),
                    Result::<PerformanceTestResult<S>, Error>::Ok(
                        #[trigger] report.results@[old_len + t],
                    ),
                ),
        decreases idxs@.len() - j,
    {
        proof {
            assert(idxs@.map_values(|u: usize| u as int)[j as int] == sf[j as int]);
        }
        let test = registry.get(idxs[j]);
        let outcome = exec(test);
        match outcome {
            Ok(result) => {
                report.results.push(result);
                proof {
                    assert(report.results@.take(old_len as int) =~= old(report).results@);
                }
                j += 1;
            },
            Err(e) => {
                return Some(e);
            },
        }
    }
    None
}

} // verus!
