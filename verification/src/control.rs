//! Per-test control parameters: how long each iteration runs, how many
//! iterations are taken, and optional probe-specific settings.

use crate::text::{bool_str, dec_rep, spec_bool_str, u32_to_string};
use vstd::prelude::*;
use vstd::string::StringExecFns;

verus! {

/// The I/O pattern a block-I/O probe drives.
#[derive(Clone, Copy, Debug, PartialEq, Eq, Structural)]
pub enum FioOps {
    Read,
    Write,
    RandomRead,
    RandomWrite,
}

/// Configuration for one performance test: duration per iteration (seconds),
/// iteration count, and an open set of probe-specific optional parameters.
///
/// Immutable once constructed; `test_iterations` is at least 1 for every
/// value produced by this module's constructors, so a run always collects a
/// non-empty sample set.
#[derive(Clone, Copy, Debug, PartialEq, Eq, Structural)]
pub struct PerformanceTestControl {
    pub test_time: u32,
    pub test_iterations: u32,
    pub queue_num: Option<u32>,
    pub queue_size: Option<u32>,
    pub net_rx: Option<bool>,
    pub fio_ops: Option<FioOps>,
}

impl PerformanceTestControl {
    /// A control always holds at least one iteration.
    pub open spec fn wf(self) -> bool {
        self.test_iterations >= 1
    }

    /// Builds a control with the given timing parameters and no
    /// probe-specific settings.
    pub fn new(test_time: u32, test_iterations: u32) -> (r: Self)
        requires
            test_iterations >= 1,
        ensures
            r == (PerformanceTestControl {
                test_time,
                test_iterations,
                queue_num: None,
                queue_size: None,
                net_rx: None,
                fio_ops: None,
            }),
            r.wf(),
    {
        PerformanceTestControl {
            test_time,
            test_iterations,
            queue_num: None,
            queue_size: None,
            net_rx: None,
            fio_ops: None,
        }
    }
}

/// The rendering of an I/O pattern, as fio names it.
pub open spec fn spec_fio_label(f: FioOps) -> Seq<char> {
    match f {
        FioOps::Read => "read"@,
        FioOps::Write => "write"@,
        FioOps::RandomRead => "randread"@,
        FioOps::RandomWrite => "randwrite"@,
    }
}

pub fn fio_label(f: FioOps) -> (r: &'static str)
    ensures
        r@ == spec_fio_label(f),
{
    match f {
        FioOps::Read => "read",
        FioOps::Write => "write",
        FioOps::RandomRead => "randread",
        FioOps::RandomWrite => "randwrite",
    }
}

/// The human-readable rendering of a control: the two timing parameters,
/// then each probe-specific parameter that is set, in field order.
pub open spec fn spec_describe(c: PerformanceTestControl) -> Seq<char> {
    let s = "test_time = "@ + dec_rep(c.test_time as nat) + "s, test_iterations = "@ + dec_rep(
        c.test_iterations as nat,
    );
    let s = match c.queue_num {
        Some(q) => s + ", queue_num = "@ + dec_rep(q as nat),
        None => s,
    };
    let s = match c.queue_size {
        Some(q) => s + ", queue_size = "@ + dec_rep(q as nat),
        None => s,
    };
    let s = match c.net_rx {
        Some(b) => s + ", net_rx = "@ + spec_bool_str(b),
        None => s,
    };
    let s = match c.fio_ops {
        Some(f) => s + ", fio_ops = "@ + spec_fio_label(f),
        None => s,
    };
    s
}

impl PerformanceTestControl {
    /// Builds the human-readable rendering of this control.
    pub fn describe(&self) -> (r: String)
        ensures
            r@ == spec_describe(*self),
    {
        let mut s = String::new();
        s.append("test_time = ");
        s.append(u32_to_string(self.test_time).as_str());
        s.append("s, test_iterations = ");
        s.append(u32_to_string(self.test_iterations).as_str());
        if let Some(q) = self.queue_num {
            s.append(", queue_num = ");
            s.append(u32_to_string(q).as_str());
        }
        if let Some(q) = self.queue_size {
            s.append(", queue_size = ");
            s.append(u32_to_string(q).as_str());
        }
        if let Some(b) = self.net_rx {
            s.append(", net_rx = ");
            s.append(bool_str(b));
        }
        if let Some(f) = self.fio_ops {
            s.append(", fio_ops = ");
            s.append(fio_label(f));
        }
        proof {
            assert(s@ =~= spec_describe(*self));
        }
        s
    }
}

impl Default for PerformanceTestControl {
    /// The default control: 10 seconds per iteration, 30 iterations, no
    /// probe-specific settings.
    fn default() -> (r: Self)
        ensures
            r == (PerformanceTestControl {
                test_time: 10u32,
                test_iterations: 30u32,
                queue_num: None,
                queue_size: None,
                net_rx: None,
                fio_ops: None,
            }),
            r.wf(),
    {
        PerformanceTestControl {
            test_time: 10,
            test_iterations: 30,
            queue_num: None,
            queue_size: None,
            net_rx: None,
            fio_ops: None,
        }
    }
}

} // verus!
