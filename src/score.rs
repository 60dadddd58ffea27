use vstd::prelude::*;

use crate::geometry::MICROS_PER_SECOND;

verus! {

/// The score of a round: the time survived, in microseconds.
#[derive(Clone, Copy, Debug, PartialEq, Eq, Structural)]
pub struct Scoreboard {
    pub score_us: u64,
}

/// A score after one more frame of `dt_us` microseconds; it saturates at
/// the largest `u64`.
pub open spec fn accrued(score_us: u64, dt_us: u64) -> u64 {
    if score_us + dt_us > u64::MAX {
        u64::MAX
    } else {
        (score_us + dt_us) as u64
    }
}

/// The sum of the frame times in `dts`.
pub open spec fn total_time(dts: Seq<u64>) -> int
    decreases dts.len(),
{
    if dts.len() == 0 {
        0
    } else {
        total_time(dts.drop_last()) + dts.last()
    }
}

/// A score after the frames of `dts`, one after the other.
pub open spec fn score_after(score_us: u64, dts: Seq<u64>) -> u64
    decreases dts.len(),
{
    if dts.len() == 0 {
        score_us
    } else {
        accrued(score_after(score_us, dts.drop_last()), dts.last())
    }
}

/// Starting from zero, the score after any run of frames is the sum of
/// their times, as long as that sum fits in a `u64`.
pub proof fn lemma_score_is_time_survived(dts: Seq<u64>)
    requires
        total_time(dts) <= u64::MAX,
    ensures
        score_after(0, dts) == total_time(dts),
    decreases dts.len(),
{
    if dts.len() > 0 {
        let rest = dts.drop_last();
        assert(total_time(rest) >= 0) by {
            lemma_total_time_nonnegative(rest);
        }
        lemma_score_is_time_survived(rest);
    }
}

proof fn lemma_total_time_nonnegative(dts: Seq<u64>)
    ensures
        total_time(dts) >= 0,
    decreases dts.len(),
{
    if dts.len() > 0 {
        lemma_total_time_nonnegative(dts.drop_last());
    }
}

impl Scoreboard {
    /// A score of zero.
    pub fn new() -> (r: Scoreboard)
        ensures
            r.score_us == 0,
    {
        Scoreboard { score_us: 0 }
    }

    /// Sets the score back to zero.
    pub fn reset(&mut self)
        ensures
            final(self).score_us == 0,
    {
        self.score_us = 0;
    }

    /// Adds the time of one frame to the score.
    pub fn accrue(&mut self, dt_us: u64)
        ensures
            final(self).score_us == accrued(old(self).score_us, dt_us),
    {
        if dt_us > u64::MAX - self.score_us {
            self.score_us = u64::MAX;
        } else {
            self.score_us = self.score_us + dt_us;
        }
    }

    /// The score as shown: whole seconds, truncated.
    pub fn whole_seconds(&self) -> (r: u64)
        ensures
            r == self.score_us / MICROS_PER_SECOND,
    {
        self.score_us / MICROS_PER_SECOND
    }
}

} // verus!
