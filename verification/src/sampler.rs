//! The periodic statistics sampler: decides, after every completed workload
//! iteration, whether a statistics snapshot is due.
//!
//! Instants are carried as `u64` nanosecond offsets from an origin the
//! driver chooses (typically the moment the run starts).  The sampler never
//! reads a clock of its own: the driver passes the current instant in, and
//! performs the snapshot fetch and delivery whenever a call here answers
//! that one is due.

use vstd::prelude::*;

use crate::config::Interval;

verus! {

/// Decides when a statistics snapshot of a running workload is due.
///
/// The run bound and the sampling cadence are fixed at construction.  The
/// mutable state is the pair of checkpoints: the instant and the iteration
/// count of the most recently emitted (or initial) snapshot.  A checkpoint
/// advances by exactly one configured interval per emitted snapshot — never
/// snapped to the current instant or iteration — so samples stay uniformly
/// spaced even under bursty call timing.
///
/// `samples` counts, in ghost state, how many snapshots have been decided
/// due so far; it ties the checkpoints to exact multiples of the configured
/// interval.
pub struct Sampler {
    pub run_duration: Interval,
    pub sampling: Interval,
    pub start_time: u64,
    pub last_snapshot_time: u64,
    pub last_snapshot_cycle: u64,
    pub samples: Ghost<nat>,
}

impl Sampler {
    /// Nanoseconds from the time checkpoint to `now`; zero if `now` lies
    /// before the checkpoint.
    pub open spec fn elapsed_interval_duration(self, now: u64) -> int {
        if now >= self.last_snapshot_time {
            now - self.last_snapshot_time
        } else {
            0
        }
    }

    /// Iterations from the cycle checkpoint to `iteration`; zero if
    /// `iteration` lies before the checkpoint.
    pub open spec fn elapsed_interval_cycles(self, iteration: u64) -> int {
        if iteration >= self.last_snapshot_cycle {
            iteration - self.last_snapshot_cycle
        } else {
            0
        }
    }

    /// The end-suppression check: a snapshot is allowed only far enough from
    /// the end of a bounded run that the trailing remainder would not be
    /// shorter than half of the interval elapsed so far.  Against a time
    /// bound `d` this reads `now < start_time + d - elapsed/2`, stated here
    /// with the half-interval moved to the left so every quantity stays
    /// non-negative; likewise against an iteration bound.  An unbounded run
    /// has no end to be near.
    pub open spec fn far_from_end(self, iteration: u64, now: u64) -> bool {
        match self.run_duration {
            Interval::Time(d) => now + self.elapsed_interval_duration(now) / 2 < self.start_time + d,
            Interval::Count(limit) => iteration + self.elapsed_interval_cycles(iteration) / 2 < limit,
            Interval::Unbounded => true,
        }
    }

    /// The cadence check: the current instant or iteration lies strictly
    /// beyond the checkpoint plus one configured interval.  An unbounded
    /// cadence is never due.
    pub open spec fn cadence_due(self, iteration: u64, now: u64) -> bool {
        match self.sampling {
            Interval::Time(d) => now > self.last_snapshot_time + d,
            Interval::Count(n) => iteration > self.last_snapshot_cycle + n,
            Interval::Unbounded => false,
        }
    }

    /// A snapshot is due when the cadence has elapsed and the run is still
    /// far from its end.
    pub open spec fn should_sample(self, iteration: u64, now: u64) -> bool {
        self.cadence_due(iteration, now) && self.far_from_end(iteration, now)
    }

    /// Well-formedness: each checkpoint stands exactly `samples` configured
    /// intervals past its origin, and the checkpoint of the kind the cadence
    /// does not use never moves.
    pub open spec fn wf(self) -> bool {
        &&& self.start_time <= self.last_snapshot_time
        &&& (match self.sampling {
            Interval::Time(d) => self.last_snapshot_time == self.start_time + self.samples@ * d
                && self.last_snapshot_cycle == 0,
            Interval::Count(n) => self.last_snapshot_cycle == self.samples@ * n
                && self.last_snapshot_time == self.start_time,
            Interval::Unbounded => self.samples@ == 0 && self.last_snapshot_time == self.start_time
                && self.last_snapshot_cycle == 0,
        })
    }

    /// Builds a sampler for a run that starts at `start_time`: both
    /// checkpoints sit at their origin, and no snapshot has been emitted.
    ///
    /// A zero-length interval is taken as it stands: such a cadence is due
    /// as soon as the instant or iteration has advanced at all, and its
    /// checkpoint never moves.
    pub fn new(run_duration: Interval, sampling: Interval, start_time: u64) -> (s: Sampler)
        ensures
            s.run_duration == run_duration,
            s.sampling == sampling,
            s.start_time == start_time,
            s.last_snapshot_time == start_time,
            s.last_snapshot_cycle == 0,
            s.samples@ == 0,
            s.wf(),
    {
        Sampler {
            run_duration,
            sampling,
            start_time,
            last_snapshot_time: start_time,
            last_snapshot_cycle: 0,
            samples: Ghost(0),
        }
    }

    /// To be called when the workload has just completed iteration number
    /// `iteration`, at instant `now`.  Answers whether a snapshot is due;
    /// the caller fetches and delivers one exactly when it is.
    ///
    /// At most one snapshot per call: the decision is a single yes or no,
    /// and on yes the checkpoint of the cadence's kind advances by exactly
    /// one configured interval, never to `now` or `iteration` themselves.
    /// When several intervals have elapsed in one call, the next call is
    /// simply due again at once, so the cadence catches up call by call.
    pub fn cycle_completed(&mut self, iteration: u64, now: u64) -> (emit: bool)
        requires
            old(self).wf(),
        ensures
            final(self).wf(),
            emit == old(self).should_sample(iteration, now),
            final(self).run_duration == old(self).run_duration,
            final(self).sampling == old(self).sampling,
            final(self).start_time == old(self).start_time,
            final(self).samples@ == old(self).samples@ + (if emit { 1int } else { 0int }),
            final(self).last_snapshot_time >= old(self).last_snapshot_time,
            final(self).last_snapshot_cycle >= old(self).last_snapshot_cycle,
            (match old(self).sampling {
                Interval::Time(d) => {
                    &&& final(self).last_snapshot_cycle == old(self).last_snapshot_cycle
                    &&& final(self).last_snapshot_time == old(self).last_snapshot_time + (
                    if emit {
                        d as int
                    } else {
                        0int
                    })
                },
                Interval::Count(n) => {
                    &&& final(self).last_snapshot_time == old(self).last_snapshot_time
                    &&& final(self).last_snapshot_cycle == old(self).last_snapshot_cycle + (
                    if emit {
                        n as int
                    } else {
                        0int
                    })
                },
                Interval::Unbounded => *final(self) == *old(self),
            }),
    {
        let elapsed_duration: u64 = if now >= self.last_snapshot_time {
            now - self.last_snapshot_time
        } else {
            0
        };
        let elapsed_cycles: u64 = if iteration >= self.last_snapshot_cycle {
            iteration - self.last_snapshot_cycle
        } else {
            0
        };

        // Don't snapshot too close to the end of the run, to avoid an
        // excessively small trailing sample.  Compared in 128 bits so the
        // sums cannot overflow.
        let far_from_the_end: bool = match self.run_duration {
            Interval::Time(d) => (now as u128) + ((elapsed_duration / 2) as u128) < (self.start_time
                as u128) + (d as u128),
            Interval::Count(limit) => (iteration as u128) + ((elapsed_cycles / 2) as u128) < (limit
                as u128),
            Interval::Unbounded => true,
        };

        match self.sampling {
            Interval::Time(d) => {
                if (now as u128) > (self.last_snapshot_time as u128) + (d as u128)
                    && far_from_the_end {
                    proof {
                        let k = self.samples@;
                        assert((k + 1) * (d as int) == k * (d as int) + d) by (nonlinear_arith);
                    }
                    self.last_snapshot_time = self.last_snapshot_time + d;
                    self.samples = Ghost(self.samples@ + 1);
                    true
                } else {
                    false
                }
            },
            Interval::Count(cnt) => {
                if (iteration as u128) > (self.last_snapshot_cycle as u128) + (cnt as u128)
                    && far_from_the_end {
                    proof {
                        let k = self.samples@;
                        assert((k + 1) * (cnt as int) == k * (cnt as int) + cnt)
                            by (nonlinear_arith);
                    }
                    self.last_snapshot_cycle = self.last_snapshot_cycle + cnt;
                    self.samples = Ghost(self.samples@ + 1);
                    true
                } else {
                    false
                }
            },
            Interval::Unbounded => false,
        }
    }

    /// Ends the run, consuming the sampler: no further call can follow.
    /// The answer is always `true` — the caller fetches and delivers one
    /// final, fully current snapshot, whatever the bounds and cadence said
    /// and even if no periodic snapshot was ever due.
    pub fn finish(self) -> (emit: bool)
        ensures
            emit,
    {
        true
    }
}

/// End suppression against a time-bounded run: a cycle whose instant lies
/// within half of the elapsed interval of the run's end never has a
/// snapshot due, however long the cadence has already waited.
pub proof fn lemma_end_suppression_time(s: Sampler, iteration: u64, now: u64, d: u64)
    requires
        s.run_duration == Interval::Time(d),
        now + s.elapsed_interval_duration(now) / 2 >= s.start_time + d,
    ensures
        !s.should_sample(iteration, now),
{
}

/// End suppression against an iteration-bounded run: a cycle whose
/// iteration lies within half of the elapsed interval of the run's limit
/// never has a snapshot due.
pub proof fn lemma_end_suppression_count(s: Sampler, iteration: u64, now: u64, limit: u64)
    requires
        s.run_duration == Interval::Count(limit),
        iteration + s.elapsed_interval_cycles(iteration) / 2 >= limit,
    ensures
        !s.should_sample(iteration, now),
{
}

/// An unbounded run has no end to be near: a snapshot is due exactly when
/// the cadence has elapsed.
pub proof fn lemma_unbounded_run_never_suppresses(s: Sampler, iteration: u64, now: u64)
    requires
        s.run_duration is Unbounded,
    ensures
        s.should_sample(iteration, now) == s.cadence_due(iteration, now),
{
}

/// With an unbounded sampling cadence, no completed cycle ever has a
/// snapshot due, whatever its iteration number and instant; a well-formed
/// such sampler has never counted an emission.  Only `finish` emits.
pub proof fn lemma_unbounded_cadence_never_samples(s: Sampler, iteration: u64, now: u64)
    requires
        s.sampling is Unbounded,
    ensures
        !s.should_sample(iteration, now),
        s.wf() ==> s.samples@ == 0,
{
}

/// Checkpoints never drift: in any well-formed sampler — and `new` makes
/// one, `cycle_completed` keeps it so — the time checkpoint stands exactly
/// `samples` sampling intervals past the start, the cycle checkpoint
/// exactly `samples` intervals past zero, and the checkpoint of the kind
/// the cadence does not use has never moved.
pub proof fn lemma_checkpoints_are_interval_multiples(s: Sampler)
    requires
        s.wf(),
    ensures
        s.last_snapshot_time >= s.start_time,
        (match s.sampling {
            Interval::Time(d) => s.last_snapshot_time == s.start_time + s.samples@ * d
                && s.last_snapshot_cycle == 0,
            Interval::Count(n) => s.last_snapshot_cycle == s.samples@ * n
                && s.last_snapshot_time == s.start_time,
            Interval::Unbounded => s.last_snapshot_time == s.start_time
                && s.last_snapshot_cycle == 0,
        }),
{
}

} // verus!
