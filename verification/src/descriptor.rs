//! Test descriptors: a unique name, a probe, and a control-parameter set.
//! Identity is defined by the name alone.

use crate::control::PerformanceTestControl;
use crate::TIMEOUT_ALLOWANCE_SECS;
use vstd::prelude::*;

verus! {

/// The four summary statistics a run reduces its samples to. The harness
/// never computes on the sample type itself; the reduction is supplied by
/// the caller.
pub struct Stats<S> {
    pub mean: S,
    pub std_dev: S,
    pub max: S,
    pub min: S,
}

/// A registered performance test: a unique name, the probe that takes one
/// measurement under a given control, and the control to run it with.
///
/// Equality is defined solely by name: two descriptors with the same name
/// collide in the registry even if their probe or control differ.
pub struct PerformanceTest<P> {
    pub name: String,
    pub func_ptr: P,
    pub control: PerformanceTestControl,
}

impl<P> PartialEq for PerformanceTest<P> {
    fn eq(&self, other: &Self) -> (r: bool) {
        self.name == other.name
    }
}

impl<P> vstd::std_specs::cmp::PartialEqSpecImpl for PerformanceTest<P> {
    open spec fn obeys_eq_spec() -> bool {
        true
    }

    open spec fn eq_spec(&self, other: &Self) -> bool {
        self.name@ == other.name@
    }
}

impl<P> Eq for PerformanceTest<P> {

}

impl<P> PerformanceTest<P> {
    /// The hard deadline for one run of this test, in seconds: the measured
    /// time per iteration plus a fixed setup/cleanup allowance, times the
    /// number of iterations.
    pub fn calc_timeout(&self) -> (r: u64)
        requires
            (self.control.test_time + TIMEOUT_ALLOWANCE_SECS) * self.control.test_iterations
                <= u64::MAX,
        ensures
            r == (self.control.test_time + TIMEOUT_ALLOWANCE_SECS)
                * self.control.test_iterations,
    {
        (self.control.test_time as u64 + TIMEOUT_ALLOWANCE_SECS) * self.control.test_iterations
            as u64
    }

    /// Invokes this test's probe exactly `control.test_iterations` times,
    /// each call passing this test's control, and returns the samples in
    /// invocation order.
    pub fn collect_samples<S>(&self) -> (samples: Vec<S>) where P: Fn(&PerformanceTestControl) -> S
        requires
            call_requires(self.func_ptr, (&self.control,)),
        ensures
            samples@.len() == self.control.test_iterations,
            forall|j: int|
                0 <= j < samples@.len() ==> call_ensures(
                    self.func_ptr,
                    (&self.control,),
                    #[trigger] samples@[j],
                ),
    {
        let mut samples: Vec<S> = Vec::new();
        let n = self.control.test_iterations;
        let mut i: u32 = 0;
        while i < n
            invariant
                n == self.control.test_iterations,
                call_requires(self.func_ptr, (&self.control,)),
                i <= n,
                samples@.len() == i,
                forall|j: int|
                    0 <= j < samples@.len() ==> call_ensures(
                        self.func_ptr,
                        (&self.control,),
                        #[trigger] samples@[j],
                    ),
            decreases n - i,
        {
            let sample = (self.func_ptr)(&self.control);
            samples.push(sample);
            i += 1;
        }
        samples
    }

    /// Runs this test: collects exactly `control.test_iterations` samples
    /// from the probe, reduces them with the given reduction, and labels the
    /// result with this test's name.
    pub fn run<S, R>(&self, reduce: &R) -> (r: crate::report::PerformanceTestResult<S>) where
        P: Fn(&PerformanceTestControl) -> S,
        R: Fn(Vec<S>) -> Stats<S>,

        requires
            call_requires(self.func_ptr, (&self.control,)),
            forall|v: Vec<S>|
                v@.len() == self.control.test_iterations ==> #[trigger] call_requires(
                    reduce,
                    (v,),
                ),
        ensures
            r.name@ == self.name@,
            exists|samples: Vec<S>, stats: Stats<S>|
                {
                    &&& samples@.len() == self.control.test_iterations
                    &&& (forall|j: int|
                        0 <= j < samples@.len() ==> call_ensures(
                            self.func_ptr,
                            (&self.control,),
                            #[trigger] samples@[j],
                        ))
                    &&& #[trigger] call_ensures(reduce, (samples,), stats)
                    &&& r.mean == stats.mean
                    &&& r.std_dev == stats.std_dev
                    &&& r.max == stats.max
                    &&& r.min == stats.min
                },
    {
        let samples = self.collect_samples();
        let ghost gsamples = samples;
        let stats = reduce(samples);
        let ghost gstats = stats;
        let r = crate::report::PerformanceTestResult {
            name: self.name.clone(),
            mean: stats.mean,
            std_dev: stats.std_dev,
            max: stats.max,
            min: stats.min,
        };
        proof {
            assert(call_ensures(reduce, (gsamples,), gstats));
        }
        r
    }
}

} // verus!
