//! Failure bookkeeping for supervision.
//!
//! A child's restart statistics remember when it failed; the supervisor
//! strategy counts the failures that fall inside its sliding window to decide
//! whether another restart is allowed.

use vstd::prelude::*;

verus! {

/// How many of `times` lie strictly inside the window of length `window`
/// ending at `now`, that is, are newer than `now - window`.
pub open spec fn spec_num_failures(times: Seq<u64>, now: u64, window: u64) -> int {
    times.filter(|t: u64| t + window > now).len() as int
}

/// The timestamps, in milliseconds, of a child's recorded failures.
#[derive(Debug)]
pub struct RestartStatistics {
    pub failure_times: Vec<u64>,
}

impl View for RestartStatistics {
    type V = Seq<u64>;

    open spec fn view(&self) -> Seq<u64> {
        self.failure_times@
    }
}

impl RestartStatistics {
    /// No failures recorded yet.
    pub fn new() -> (r: Self)
        ensures
            r@ == Seq::<u64>::empty(),
    {
        RestartStatistics { failure_times: Vec::new() }
    }

    /// Records a failure that happened at `now`.
    pub fn fail(&mut self, now: u64)
        ensures
            final(self)@ == old(self)@.push(now),
    {
        self.failure_times.push(now);
    }

    /// Forgets all recorded failures.
    pub fn reset(&mut self)
        ensures
            final(self)@ == Seq::<u64>::empty(),
    {
        self.failure_times.clear();
    }

    /// How many failures were recorded in total.
    pub fn failure_count(&self) -> (r: usize)
        ensures
            r == self@.len(),
    {
        self.failure_times.len()
    }

    /// Counts the failures newer than `now - window`.
    pub fn number_of_failures(&self, now: u64, window: u64) -> (r: usize)
        ensures
            r == spec_num_failures(self@, now, window),
    {
        let mut count: usize = 0;
        let mut i: usize = 0;
        while i < self.failure_times.len()
            invariant
                i <= self.failure_times.len(),
                count == spec_num_failures(self@.take(i as int), now, window),
                count <= i,
            decreases self.failure_times.len() - i,
        {
            proof {
                assert(self@.take(i + 1 as int).drop_last() =~= self@.take(i as int));
                reveal(Seq::filter);
            }
            let t = self.failure_times[i];
            let inside = if now >= window {
                t > now - window
            } else {
                true
            };
            if inside {
                count = count + 1;
            }
            i = i + 1;
        }
        proof {
            assert(self@.take(self@.len() as int) =~= self@);
        }
        count
    }
}

} // verus!
