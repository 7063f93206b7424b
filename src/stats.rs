use vstd::prelude::*;

verus! {

/// How many of the most recent successful block numbers are kept.
pub const RECENT_WINDOW: usize = 10;

/// What one completed call contributes to the statistics.
#[derive(Clone, Copy, Debug, PartialEq, Eq, Structural)]
pub enum Outcome {
    /// The call returned a block with this number.
    Success { block_number: u64, latency_millis: u128 },
    /// The call failed.
    Failure { latency_millis: u128 },
}

impl Outcome {
    pub open spec fn latency(self) -> u128 {
        match self {
            Outcome::Success { latency_millis, .. } => latency_millis,
            Outcome::Failure { latency_millis } => latency_millis,
        }
    }
}

/// The recent-block window after `n` is appended: first in, first out, at
/// most `RECENT_WINDOW` entries.
pub open spec fn push_window(w: Seq<u64>, n: u64) -> Seq<u64> {
    let v = w.push(n);
    if v.len() > RECENT_WINDOW {
        v.skip(v.len() - RECENT_WINDOW)
    } else {
        v
    }
}

/// The window after an outcome: only a success appends.
pub open spec fn window_after(w: Seq<u64>, o: Outcome) -> Seq<u64> {
    match o {
        Outcome::Success { block_number, .. } => push_window(w, block_number),
        Outcome::Failure { .. } => w,
    }
}

/// A point-in-time copy of the aggregated counters.
#[derive(Clone, Debug, PartialEq, Eq)]
pub struct StatsSnapshot {
    pub total: u64,
    pub healthy: u64,
    pub unhealthy: u64,
    pub total_latency_millis: u128,
    pub latest_latency_millis: u128,
    pub recent_block_numbers: Vec<u64>,
}

/// Running totals over every call that the workers complete.
pub struct StatsAggregator {
    pub total: u64,
    pub healthy: u64,
    pub unhealthy: u64,
    pub total_latency_millis: u128,
    pub latest_latency_millis: u128,
    pub recent_block_numbers: Vec<u64>,
    /// A report is due after every call whose running total is a multiple of this.
    pub report_every: u64,
}

impl StatsAggregator {
    pub open spec fn wf(&self) -> bool {
        &&& self.healthy + self.unhealthy == self.total
        &&& self.recent_block_numbers@.len() <= RECENT_WINDOW
        &&& self.report_every > 0
    }

    /// Whether one more outcome of this latency can be counted without overflow.
    pub open spec fn has_room(&self, latency: u128) -> bool {
        &&& self.total < u64::MAX
        &&& self.total_latency_millis + latency <= u128::MAX
    }

    /// An aggregator with nothing recorded, reporting every `report_every` calls.
    pub fn new(report_every: u64) -> (r: Self)
        requires
            report_every > 0,
        ensures
            r.wf(),
            r.total == 0,
            r.healthy == 0,
            r.unhealthy == 0,
            r.total_latency_millis == 0,
            r.latest_latency_millis == 0,
            r.recent_block_numbers@ == Seq::<u64>::empty(),
            r.report_every == report_every,
    {
        StatsAggregator {
            total: 0,
            healthy: 0,
            unhealthy: 0,
            total_latency_millis: 0,
            latest_latency_millis: 0,
            recent_block_numbers: Vec::new(),
            report_every,
        }
    }

    /// Whether `latency` can be recorded without overflowing a counter.
    pub fn can_record(&self, latency: u128) -> (r: bool)
        ensures
            r == self.has_room(latency),
    {
        self.total < u64::MAX && latency <= u128::MAX - self.total_latency_millis
    }

    /// Counts one completed call, and says whether a report is now due.
    pub fn record(&mut self, o: Outcome) -> (report_due: bool)
        requires
            old(self).wf(),
            old(self).has_room(o.latency()),
        ensures
            final(self).wf(),
            final(self).total == old(self).total + 1,
            final(self).healthy == old(self).healthy + if o is Success { 1int } else { 0int },
            final(self).unhealthy == old(self).unhealthy + if o is Failure { 1int } else { 0int },
            final(self).total_latency_millis == old(self).total_latency_millis + o.latency(),
            final(self).latest_latency_millis == o.latency(),
            final(self).recent_block_numbers@ == window_after(old(self).recent_block_numbers@, o),
            final(self).report_every == old(self).report_every,
            report_due == (final(self).total % final(self).report_every == 0),
    {
        self.total = self.total + 1;
        let latency = match o {
            Outcome::Success { block_number, latency_millis } => {
                self.healthy = self.healthy + 1;
                self.recent_block_numbers.push(block_number);
                if self.recent_block_numbers.len() > RECENT_WINDOW {
                    self.recent_block_numbers.remove(0);
                }
                latency_millis
            },
            Outcome::Failure { latency_millis } => {
                self.unhealthy = self.unhealthy + 1;
                latency_millis
            },
        };
        assert(self.recent_block_numbers@ =~= window_after(old(self).recent_block_numbers@, o));
        self.total_latency_millis = self.total_latency_millis + latency;
        self.latest_latency_millis = latency;
        self.total % self.report_every == 0
    }

    /// The mean latency over every recorded call, rounded down; `None` before
    /// the first call.
    pub fn average_latency_millis(&self) -> (r: Option<u128>)
        ensures
            self.total == 0 ==> r is None,
            self.total > 0 ==> r == Some((self.total_latency_millis / self.total as u128) as u128),
    {
        if self.total == 0 {
            None
        } else {
            Some(self.total_latency_millis / self.total as u128)
        }
    }

    /// A copy of the counters as they stand.
    pub fn snapshot(&self) -> (r: StatsSnapshot)
        ensures
            r.total == self.total,
            r.healthy == self.healthy,
            r.unhealthy == self.unhealthy,
            r.total_latency_millis == self.total_latency_millis,
            r.latest_latency_millis == self.latest_latency_millis,
            r.recent_block_numbers@ == self.recent_block_numbers@,
    {
        let mut recent: Vec<u64> = Vec::new();
        let mut i: usize = 0;
        while i < self.recent_block_numbers.len()
            invariant
                i <= self.recent_block_numbers@.len(),
                recent@ == self.recent_block_numbers@.subrange(0, i as int),
            decreases self.recent_block_numbers@.len() - i,
        {
            recent.push(self.recent_block_numbers[i]);
            i = i + 1;
            assert(recent@ =~= self.recent_block_numbers@.subrange(0, i as int));
        }
        assert(recent@ =~= self.recent_block_numbers@);
        StatsSnapshot {
            total: self.total,
            healthy: self.healthy,
            unhealthy: self.unhealthy,
            total_latency_millis: self.total_latency_millis,
            latest_latency_millis: self.latest_latency_millis,
            recent_block_numbers: recent,
        }
    }
}

} // verus!
