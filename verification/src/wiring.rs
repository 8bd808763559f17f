//! Read access from the telemetry side to the dispatcher's live counters.
use vstd::prelude::*;
use std::sync::Arc;
use crate::dispatcher::DispatchStats;

verus! {

/// Read access to one sample of the dispatcher's counters: every getter
/// returns the counter of the `DispatchStats` it was made from. A caller
/// that wants the running values makes a source from the counters as they
/// stand at each sample.
pub struct StatsSource {
    stats: Arc<DispatchStats>,
}

impl StatsSource {
    /// The counters being read.
    pub closed spec fn spec_stats(&self) -> DispatchStats {
        *self.stats
    }

    /// Wraps a shared `DispatchStats`.
    pub fn new(stats: Arc<DispatchStats>) -> (s: Self)
        ensures
            s.spec_stats() == *stats,
    {
        StatsSource { stats }
    }

    /// Frames successfully written to the bus.
    pub fn frames_published(&self) -> (n: u64)
        ensures
            n == self.spec_stats().frames_published,
    {
        self.stats.frames_published
    }

    /// Frames lost to missed periods.
    pub fn frames_dropped(&self) -> (n: u64)
        ensures
            n == self.spec_stats().frames_dropped,
    {
        self.stats.frames_dropped
    }

    /// Frames that finished after their deadline.
    pub fn late_frames(&self) -> (n: u64)
        ensures
            n == self.spec_stats().late_frames,
    {
        self.stats.late_frames
    }

    /// Frames rejected by a full bus.
    pub fn publish_failures(&self) -> (n: u64)
        ensures
            n == self.spec_stats().publish_failures,
    {
        self.stats.publish_failures
    }

    /// Audio chunks consumed from the bus.
    pub fn audio_chunks_consumed(&self) -> (n: u64)
        ensures
            n == self.spec_stats().audio_chunks_consumed,
    {
        self.stats.audio_chunks_consumed
    }

    /// Sum of frame build costs, in nanoseconds.
    pub fn total_build_ns(&self) -> (n: u64)
        ensures
            n == self.spec_stats().total_build_ns,
    {
        self.stats.total_build_ns
    }

    /// Worst frame build cost, in nanoseconds.
    pub fn max_build_ns(&self) -> (n: u64)
        ensures
            n == self.spec_stats().max_build_ns,
    {
        self.stats.max_build_ns
    }
}

} // verus!
