//! Periodic statistics sampling for a benchmark run.
//!
//! A benchmark driver completes iterations of a workload and must report
//! statistics snapshots at a controlled cadence while the run lasts.  The
//! heart of that is a small piece of scheduling arithmetic: after every
//! iteration, decide whether enough wall-clock time or enough iterations have
//! passed since the last snapshot, while suppressing snapshots so close to
//! the end of a bounded run that they would yield a degenerate trailing
//! sample.  This crate holds that decision logic, with its contracts; the
//! surrounding driver reads the clock, fetches the snapshot from the
//! workload and delivers it to its consumer.

pub mod cluster;
pub mod config;
pub mod sampler;
