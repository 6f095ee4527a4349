//! Configuration of a run's bounds.

use vstd::prelude::*;

verus! {

/// How long a run lasts, or how often a snapshot is due: a span of
/// wall-clock time in nanoseconds, a number of iterations, or no bound.
///
/// Two of these are fixed at a sampler's construction: the run bound, which
/// limits the whole run, and the sampling cadence, which spaces snapshots.
/// A cadence of `Unbounded` means no periodic snapshot at all; only the
/// final one, taken when the run finishes, is emitted.
#[derive(Clone, Copy, Debug, PartialEq, Eq, Structural)]
pub enum Interval {
    Time(u64),
    Count(u64),
    Unbounded,
}

} // verus!
