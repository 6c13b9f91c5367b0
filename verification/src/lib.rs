//! A performance-benchmark harness core: a deduplicating registry of named
//! test descriptors, a timeout-supervised execution model, and report
//! assembly with fail-fast abort semantics.
//!
//! Probe functions and the statistical reduction over their floating-point
//! samples are supplied by the caller; everything the harness itself decides
//! (registration, filtering, scheduling, deadlines, outcome classification)
//! is specified and verified here.

pub mod control;
pub mod descriptor;
pub mod driver;
pub mod registry;
pub mod report;
pub mod text;

use vstd::prelude::*;

verus! {

/// Extra seconds granted to every iteration of a test on top of its measured
/// time, covering per-iteration setup and cleanup.
pub const TIMEOUT_ALLOWANCE_SECS: u64 = 20;

} // verus!
