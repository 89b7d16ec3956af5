//! The state of the search and the progress report.
//!
//! The verification loop owns the count of candidates dealt with. Workers
//! never touch it: they send [`Count`] messages. On each [`Tick`] of its timer
//! the loop reports how fast the count has grown since the last report and
//! how much of the search space is covered.

use crate::counter::{
    lemma_space_size_limit, lemma_space_size_positive, search_space_size, space_size,
    MAX_COUNTER_WIDTH, MAX_SPACE_SIZE,
};
use crate::messages::{Count, Tick};
use vstd::prelude::*;

verus! {

/// How long the timer of the verification loop waits between two ticks, in
/// seconds.
pub const TICK_INTERVAL_SECS: u64 = 5;

/// The state of the search.
pub struct SearchState {
    /// How many candidates have been dealt with.
    pub processed_count: u128,
    /// How many candidates there are.
    pub total_count: u128,
    /// When the last report was made, in seconds on the caller's clock.
    pub last_sample_time: u64,
    /// How many candidates had been dealt with at the last report.
    pub last_sample_count: u128,
}

/// What a tick reports.
#[derive(Debug, Clone, Copy, PartialEq, Eq)]
pub struct ProgressReport {
    /// Candidates dealt with per second since the last report, rounded down;
    /// `None` where no time has passed since then.
    pub rate: Option<u128>,
    /// The part of the search space that is covered, in percent, rounded down.
    pub percent: u8,
}

impl SearchState {
    /// The counts are in order, and the search space is not empty and no
    /// larger than that of the widest counter.
    pub open spec fn wf(&self) -> bool {
        &&& self.last_sample_count <= self.processed_count <= self.total_count
        &&& 1 <= self.total_count <= MAX_SPACE_SIZE
    }

    /// The rate that a tick at `now` reports: the growth of the count since
    /// the last report over the seconds since then, or nothing where the
    /// clock has not moved forward.
    pub open spec fn rate_at(&self, now: u64) -> Option<u128> {
        if now > self.last_sample_time {
            Some(
                ((self.processed_count - self.last_sample_count) / (now
                    - self.last_sample_time)) as u128,
            )
        } else {
            None
        }
    }

    /// The part of the search space that is covered, in percent.
    pub open spec fn percent(&self) -> int {
        100 * self.processed_count / (self.total_count as int)
    }

    /// The state at the start of a search over `scratch_length` unknown
    /// bytes, at time `now`: nothing is dealt with yet, and there are 256 to
    /// the power `scratch_length` candidates. No state is made where that
    /// number does not fit, which is beyond `MAX_COUNTER_WIDTH` bytes.
    pub fn new(scratch_length: u8, now: u64) -> (state: Option<SearchState>)
        ensures
            match state {
                Some(state) => {
                    &&& scratch_length <= MAX_COUNTER_WIDTH
                    &&& state.wf()
                    &&& state.processed_count == 0
                    &&& state.total_count == space_size(scratch_length as nat)
                    &&& state.last_sample_time == now
                    &&& state.last_sample_count == 0
                },
                None => scratch_length > MAX_COUNTER_WIDTH,
            },
    {
        match search_space_size(scratch_length) {
            Some(total_count) => {
                proof {
                    lemma_space_size_limit(scratch_length as nat);
                    lemma_space_size_positive(scratch_length as nat);
                }
                Some(
                    SearchState {
                        processed_count: 0,
                        total_count,
                        last_sample_time: now,
                        last_sample_count: 0,
                    },
                )
            },
            None => None,
        }
    }

    /// Takes a count message: one more candidate is dealt with. Returns
    /// whether it was counted: the count never passes the number of
    /// candidates, so a message beyond that changes nothing.
    pub fn handle_count(&mut self, _count: Count) -> (counted: bool)
        requires
            old(self).wf(),
        ensures
            final(self).wf(),
            counted == (old(self).processed_count < old(self).total_count),
            final(self).processed_count == if counted {
                old(self).processed_count + 1
            } else {
                old(self).processed_count as int
            },
            final(self).total_count == old(self).total_count,
            final(self).last_sample_time == old(self).last_sample_time,
            final(self).last_sample_count == old(self).last_sample_count,
    {
        if self.processed_count < self.total_count {
            self.processed_count = self.processed_count + 1;
            true
        } else {
            false
        }
    }

    /// Takes a tick of the timer at time `now` and reports the progress.
    ///
    /// The report gives the covered part of the search space and the rate
    /// since the last report. Where the clock has moved forward, this report
    /// becomes the last one. Where it has not, there is nothing to divide by:
    /// no rate is given and the last report stays the one to measure from.
    pub fn handle_tick(&mut self, _tick: Tick, now: u64) -> (report: ProgressReport)
        requires
            old(self).wf(),
        ensures
            final(self).wf(),
            report.percent == old(self).percent(),
            report.rate == old(self).rate_at(now),
            final(self).processed_count == old(self).processed_count,
            final(self).total_count == old(self).total_count,
            now > old(self).last_sample_time ==> final(self).last_sample_time == now
                && final(self).last_sample_count == old(self).processed_count,
            now <= old(self).last_sample_time ==> final(self).last_sample_time
                == old(self).last_sample_time
                && final(self).last_sample_count == old(self).last_sample_count,
    {
        let covered: u128 = 100 * self.processed_count / self.total_count;
        assert(covered <= 100) by (nonlinear_arith)
            requires
                covered == 100 * self.processed_count / (self.total_count as int),
                0 <= self.processed_count <= self.total_count,
                self.total_count >= 1,
        ;
        let percent: u8 = covered as u8;
        if now > self.last_sample_time {
            let elapsed: u128 = (now - self.last_sample_time) as u128;
            let rate: u128 = (self.processed_count - self.last_sample_count) / elapsed;
            self.last_sample_time = now;
            self.last_sample_count = self.processed_count;
            ProgressReport { rate: Some(rate), percent }
        } else {
            ProgressReport { rate: None, percent }
        }
    }
}

} // verus!
