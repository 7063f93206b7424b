use vstd::prelude::*;
use crate::block::Block;
use crate::error::Error;
use crate::stats::{Outcome, StatsAggregator, window_after};

verus! {

/// What a finished call counts as: a block is a success, an error a failure,
/// and a reply with no block is not counted at all.
pub open spec fn outcome_of(result: Result<Option<Block>, Error>, latency_millis: u128) -> Option<Outcome> {
    match result {
        Ok(Some(b)) => Some(Outcome::Success { block_number: b.number, latency_millis }),
        Ok(None) => None,
        Err(_) => Some(Outcome::Failure { latency_millis }),
    }
}

pub fn classify(result: &Result<Option<Block>, Error>, latency_millis: u128) -> (r: Option<Outcome>)
    ensures
        r == outcome_of(*result, latency_millis),
{
    match result {
        Ok(Some(b)) => Some(Outcome::Success { block_number: b.number, latency_millis }),
        Ok(None) => None,
        Err(_) => Some(Outcome::Failure { latency_millis }),
    }
}

/// One worker's iteration count against its bound; a bound of 0 never ends.
pub struct WorkerLoop {
    pub bound: u64,
    pub done: u64,
}

impl WorkerLoop {
    pub fn new(bound: u64) -> (r: Self)
        ensures
            r.bound == bound,
            r.done == 0,
    {
        WorkerLoop { bound, done: 0 }
    }

    pub open spec fn running(&self) -> bool {
        self.bound == 0 || self.done < self.bound
    }

    /// Whether the worker should make another call.
    pub fn should_continue(&self) -> (r: bool)
        ensures
            r == self.running(),
    {
        self.bound == 0 || self.done < self.bound
    }

    /// Accounts for one finished call: its outcome goes to `stats` (unless
    /// the reply held no block, or a counter is full), and the iteration is
    /// counted. Returns whether `stats` now owes a report.
    pub fn complete(
        &mut self,
        stats: &mut StatsAggregator,
        result: &Result<Option<Block>, Error>,
        latency_millis: u128,
    ) -> (report_due: bool)
        requires
            old(stats).wf(),
        ensures
            final(stats).wf(),
            final(self).bound == old(self).bound,
            final(self).done == if old(self).done < u64::MAX { old(self).done + 1 } else { old(self).done as int },
            final(stats).report_every == old(stats).report_every,
            match outcome_of(*result, latency_millis) {
                Some(o) => if old(stats).has_room(latency_millis) {
                    &&& final(stats).total == old(stats).total + 1
                    &&& final(stats).healthy == old(stats).healthy + if o is Success { 1int } else { 0int }
                    &&& final(stats).unhealthy == old(stats).unhealthy + if o is Failure { 1int } else { 0int }
                    &&& final(stats).total_latency_millis == old(stats).total_latency_millis + latency_millis
                    &&& final(stats).latest_latency_millis == latency_millis
                    &&& final(stats).recent_block_numbers@ == window_after(old(stats).recent_block_numbers@, o)
                    &&& report_due == (final(stats).total % final(stats).report_every == 0)
                } else {
                    *final(stats) == *old(stats) && !report_due
                },
                None => *final(stats) == *old(stats) && !report_due,
            },
    {
        if self.done < u64::MAX {
            self.done = self.done + 1;
        }
        match classify(result, latency_millis) {
            Some(o) => {
                if stats.can_record(latency_millis) {
                    stats.record(o)
                } else {
                    false
                }
            },
            None => false,
        }
    }
}

} // verus!
