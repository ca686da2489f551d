//! What a sender counts.
use vstd::prelude::*;

use crate::model::AudioStats;

verus! {

/// Gaps between packets shorter than this are not counted, in nanoseconds.
pub const SEND_GAP: u64 = 40_000_000;

/// The second threshold for gaps between packets.
pub const LONG_SEND_GAP: u64 = 100_000_000;

/// The third threshold for gaps between packets.
pub const VERY_LONG_SEND_GAP: u64 = 1_000_000_000;

/// The counters of a sender.
#[derive(Clone, Copy, Debug, PartialEq, Eq)]
pub struct AudioCounters {
    pub stats: AudioStats,
}

/// The larger of two spans.
pub open spec fn longer(left: u64, right: u64) -> u64 {
    if left < right {
        right
    } else {
        left
    }
}

/// A count of gaps of at least some length, after a gap.
pub open spec fn gap_count(count: u64, gap: u64, threshold: u64) -> u64 {
    if gap >= threshold {
        crate::model::counted(count)
    } else {
        count
    }
}

/// The counters after a gap between packets. A short gap changes nothing; a longer one
/// counts on each threshold that it reaches.
pub open spec fn gap_observed(before: AudioStats, gap: u64, unix_ms: u64) -> AudioStats {
    if gap < SEND_GAP {
        before
    } else {
        AudioStats {
            active_send_gap_counts: [
                gap_count(before.active_send_gap_counts[0], gap, SEND_GAP),
                gap_count(before.active_send_gap_counts[1], gap, LONG_SEND_GAP),
                gap_count(before.active_send_gap_counts[2], gap, VERY_LONG_SEND_GAP),
            ],
            max_active_send_gap: longer(before.max_active_send_gap, gap),
            last_active_send_gap: gap,
            last_active_send_gap_unix_ms: unix_ms,
            ..before
        }
    }
}

/// Counts one more event; the count stays at its maximum once it is reached.
pub fn increment(counter: u64) -> (value: u64)
    ensures
        value == crate::model::counted(counter),
{
    counter.saturating_add(1)
}

impl AudioCounters {
    /// Creates the counters of a sender that did nothing yet.
    pub fn new() -> (counters: Self)
        ensures
            counters.stats.zero(),
    {
        AudioCounters { stats: AudioStats::default() }
    }

    /// Returns the counts.
    pub fn snapshot(&self) -> (stats: AudioStats)
        ensures
            stats == self.stats,
    {
        self.stats
    }

    /// Records a gap between two packets, in nanoseconds, and the time of day of its
    /// end, in milliseconds.
    pub fn observe_send_gap(&mut self, gap: u64, unix_ms: u64)
        ensures
            final(self).stats == gap_observed(old(self).stats, gap, unix_ms),
    {
        if gap < SEND_GAP {
            return;
        }
        let counts = self.stats.active_send_gap_counts;
        let second: u64 = if gap >= LONG_SEND_GAP {
            increment(counts[1])
        } else {
            counts[1]
        };
        let third: u64 = if gap >= VERY_LONG_SEND_GAP {
            increment(counts[2])
        } else {
            counts[2]
        };
        let max: u64 = if self.stats.max_active_send_gap < gap {
            gap
        } else {
            self.stats.max_active_send_gap
        };
        self.stats = self.stats.with_send_gaps(
            [increment(counts[0]), second, third],
            max,
            gap,
            unix_ms,
        );
    }

    /// Records how late a frame was.
    pub fn observe_lateness(&mut self, lateness: u64)
        ensures
            final(self).stats == (AudioStats {
                max_lateness: longer(old(self).stats.max_lateness, lateness),
                ..old(self).stats
            }),
    {
        if self.stats.max_lateness < lateness {
            self.stats.max_lateness = lateness;
        }
    }

    /// Records a poll of the source that took too long.
    pub fn observe_overrun(&mut self, wall: u64, cpu: Option<u64>)
        ensures
            final(self).stats == (AudioStats {
                source_overruns: crate::model::counted(old(self).stats.source_overruns),
                last_source_overrun_wall: wall,
                last_source_overrun_cpu: cpu,
                ..old(self).stats
            }),
    {
        self.stats = self.stats.with_source_overrun(wall, cpu);
        self.stats.source_overruns = increment(self.stats.source_overruns);
    }
}

/// The counts of gaps are cumulative: a gap that reaches a threshold reaches every lower
/// one, so the counts stay in order.
pub proof fn gap_counts_are_cumulative(before: AudioStats, gap: u64, unix_ms: u64)
    requires
        before.active_send_gap_counts[0] >= before.active_send_gap_counts[1],
        before.active_send_gap_counts[1] >= before.active_send_gap_counts[2],
    ensures
        ({
            let after = gap_observed(before, gap, unix_ms);
            &&& after.active_send_gap_counts[0] >= after.active_send_gap_counts[1]
            &&& after.active_send_gap_counts[1] >= after.active_send_gap_counts[2]
            &&& after.active_send_gap_counts[0] >= before.active_send_gap_counts[0]
            &&& after.max_active_send_gap >= before.max_active_send_gap
        }),
{
}

/// A gap counts once on each of the thresholds of 40, 100 and 1000 milliseconds that it
/// reaches, and is then the latest one, at its time of day; a shorter one leaves no trace.
pub proof fn gaps_count_on_their_thresholds(before: AudioStats, gap: u64, unix_ms: u64)
    requires
        before.active_send_gap_counts[0] < u64::MAX,
        before.active_send_gap_counts[1] < u64::MAX,
        before.active_send_gap_counts[2] < u64::MAX,
    ensures
        ({
            let after = gap_observed(before, gap, unix_ms);
            &&& gap < 40_000_000 ==> after == before
            &&& gap >= 40_000_000 ==> {
                &&& after.active_send_gap_counts[0] == before.active_send_gap_counts[0] + 1
                &&& after.last_active_send_gap == gap
                &&& after.last_active_send_gap_unix_ms == unix_ms
            }
            &&& 40_000_000 <= gap < 100_000_000 ==> after.active_send_gap_counts[1]
                == before.active_send_gap_counts[1]
            &&& gap >= 100_000_000 ==> after.active_send_gap_counts[1]
                == before.active_send_gap_counts[1] + 1
            &&& 40_000_000 <= gap < 1_000_000_000 ==> after.active_send_gap_counts[2]
                == before.active_send_gap_counts[2]
            &&& gap >= 1_000_000_000 ==> after.active_send_gap_counts[2]
                == before.active_send_gap_counts[2] + 1
            &&& gap >= 40_000_000 ==> after.max_active_send_gap >= gap
            &&& after.max_active_send_gap == gap || after.max_active_send_gap
                == before.max_active_send_gap
            &&& after.frames_sent == before.frames_sent
            &&& after.max_lateness == before.max_lateness
        }),
{
}

/// The longer of two spans is one of them and not shorter than either.
pub proof fn the_longer_span_covers_both(left: u64, right: u64)
    ensures
        longer(left, right) >= left,
        longer(left, right) >= right,
        longer(left, right) == left || longer(left, right) == right,
{
}

} // verus!
