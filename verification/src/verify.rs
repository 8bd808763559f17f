//! Timestamp analysis of the frames read back from the bus by the
//! real-time verification harness: gaps between consecutive frames, frames
//! whose timestamps did not increase, and gaps long enough to imply that a
//! frame never reached the bus.
use vstd::prelude::*;

verus! {

/// Running statistics over the timestamps of consumed frames.
#[derive(Debug, Clone, Copy, PartialEq, Eq, Structural)]
pub struct TimestampObserver {
    /// Frames observed.
    pub frames: u64,
    /// Frames whose timestamp did not exceed the previous frame's.
    pub non_monotonic: u64,
    /// Smallest gap seen between increasing timestamps (`u64::MAX` before any).
    pub min_gap_us: u64,
    /// Largest gap seen between increasing timestamps.
    pub max_gap_us: u64,
    /// Sum of the gaps seen.
    pub gap_total_us: u128,
    /// Number of gaps seen.
    pub gap_count: u64,
    /// Gaps longer than the drop threshold.
    pub drop_gaps: u64,
    /// Timestamp of the previous frame, if any.
    pub prev_timestamp_us: Option<u64>,
}

/// The observer after one more frame stamped `ts`, with gaps above
/// `drop_threshold_us` counted as implying a lost frame.
pub open spec fn observed(o: TimestampObserver, ts: u64, drop_threshold_us: u64) -> TimestampObserver {
    let base = TimestampObserver { frames: (o.frames + 1) as u64, prev_timestamp_us: Some(ts), ..o };
    match o.prev_timestamp_us {
        None => base,
        Some(p) => if ts <= p {
            TimestampObserver { non_monotonic: (o.non_monotonic + 1) as u64, ..base }
        } else {
            let gap = (ts - p) as u64;
            TimestampObserver {
                min_gap_us: if gap < o.min_gap_us { gap } else { o.min_gap_us },
                max_gap_us: if gap > o.max_gap_us { gap } else { o.max_gap_us },
                gap_total_us: (o.gap_total_us + gap) as u128,
                gap_count: (o.gap_count + 1) as u64,
                drop_gaps: if gap > drop_threshold_us { (o.drop_gaps + 1) as u64 } else { o.drop_gaps },
                ..base
            }
        },
    }
}

/// Observing one more frame cannot overflow a counter.
pub open spec fn has_room(o: TimestampObserver) -> bool {
    &&& o.frames < u64::MAX
    &&& o.non_monotonic < u64::MAX
    &&& o.gap_count < u64::MAX
    &&& o.drop_gaps < u64::MAX
    &&& o.gap_total_us + u64::MAX <= u128::MAX
}

/// The observer's bookkeeping agrees with itself: every frame after the
/// first is counted either as a gap or as non-monotonic, the minimum gap
/// never exceeds the maximum, and drops are a subset of the gaps.
pub open spec fn observer_consistent(o: TimestampObserver) -> bool {
    &&& (o.prev_timestamp_us is None <==> o.frames == 0)
    &&& (o.frames > 0 ==> o.gap_count + o.non_monotonic == o.frames - 1)
    &&& (o.frames == 0 ==> o.gap_count == 0 && o.non_monotonic == 0)
    &&& (o.gap_count > 0 ==> o.min_gap_us <= o.max_gap_us)
    &&& (o.gap_count == 0 ==> o.min_gap_us == u64::MAX && o.max_gap_us == 0 && o.gap_total_us == 0)
    &&& o.drop_gaps <= o.gap_count
    &&& o.gap_total_us >= o.gap_count
}

/// Every observation keeps the observer consistent.
pub proof fn law_observation_keeps_observer_consistent(o: TimestampObserver, ts: u64, drop_threshold_us: u64)
    requires
        observer_consistent(o),
        has_room(o),
    ensures
        observer_consistent(observed(o, ts, drop_threshold_us)),
{
}

impl TimestampObserver {
    /// No frames seen yet.
    pub fn new() -> (o: Self)
        ensures
            o == (TimestampObserver {
                frames: 0,
                non_monotonic: 0,
                min_gap_us: u64::MAX,
                max_gap_us: 0,
                gap_total_us: 0,
                gap_count: 0,
                drop_gaps: 0,
                prev_timestamp_us: None,
            }),
            observer_consistent(o),
    {
        TimestampObserver {
            frames: 0,
            non_monotonic: 0,
            min_gap_us: u64::MAX,
            max_gap_us: 0,
            gap_total_us: 0,
            gap_count: 0,
            drop_gaps: 0,
            prev_timestamp_us: None,
        }
    }

    /// Records one more frame stamped `ts`.
    pub fn observe(&mut self, ts: u64, drop_threshold_us: u64)
        requires
            has_room(*old(self)),
        ensures
            *final(self) == observed(*old(self), ts, drop_threshold_us),
    {
        self.frames = self.frames + 1;
        if let Some(p) = self.prev_timestamp_us {
            if ts <= p {
                self.non_monotonic = self.non_monotonic + 1;
            } else {
                let gap = ts - p;
                if gap < self.min_gap_us {
                    self.min_gap_us = gap;
                }
                if gap > self.max_gap_us {
                    self.max_gap_us = gap;
                }
                self.gap_total_us = self.gap_total_us + gap as u128;
                self.gap_count = self.gap_count + 1;
                if gap > drop_threshold_us {
                    self.drop_gaps = self.drop_gaps + 1;
                }
            }
        }
        self.prev_timestamp_us = Some(ts);
    }

    /// The smallest gap to report: zero when no gap was seen.
    pub fn reported_min_gap_us(&self) -> (g: u64)
        ensures
            g == (if self.gap_count > 0 { self.min_gap_us } else { 0 }),
    {
        if self.gap_count > 0 {
            self.min_gap_us
        } else {
            0
        }
    }
}

/// What one observation does to the extremes and counters: the maximum
/// gap never falls and the minimum never rises; a new gap between
/// increasing timestamps lies within both afterwards, each of which is
/// either its old value or that gap; a stamp that does not increase counts
/// as non-monotonic and touches no gap statistic.
pub proof fn law_observation_tracks_gap_extremes(o: TimestampObserver, ts: u64, drop_threshold_us: u64)
    requires
        has_room(o),
    ensures
        ({
            let r = observed(o, ts, drop_threshold_us);
            &&& r.max_gap_us >= o.max_gap_us
            &&& r.min_gap_us <= o.min_gap_us
            &&& r.frames == o.frames + 1
            &&& r.prev_timestamp_us == Some(ts)
            &&& o.prev_timestamp_us matches Some(p) ==> (p < ts ==> {
                let gap = ts - p;
                &&& r.min_gap_us <= gap <= r.max_gap_us
                &&& (r.max_gap_us == o.max_gap_us || r.max_gap_us == gap)
                &&& (r.min_gap_us == o.min_gap_us || r.min_gap_us == gap)
                &&& r.gap_count == o.gap_count + 1
                &&& r.gap_total_us == o.gap_total_us + gap
                &&& r.drop_gaps == o.drop_gaps + (if gap > drop_threshold_us { 1int } else { 0int })
                &&& r.non_monotonic == o.non_monotonic
            })
            &&& o.prev_timestamp_us matches Some(p) ==> (ts <= p ==> {
                &&& r.non_monotonic == o.non_monotonic + 1
                &&& r.min_gap_us == o.min_gap_us && r.max_gap_us == o.max_gap_us
                &&& r.gap_count == o.gap_count && r.drop_gaps == o.drop_gaps
            })
            &&& o.prev_timestamp_us is None ==> r.gap_count == o.gap_count && r.max_gap_us == o.max_gap_us
        }),
{
}

/// The observer after the frames stamped `stamps`, in order.
pub open spec fn observed_all(o: TimestampObserver, stamps: Seq<u64>, drop_threshold_us: u64) -> TimestampObserver
    decreases stamps.len(),
{
    if stamps.len() == 0 {
        o
    } else {
        observed(observed_all(o, stamps.drop_last(), drop_threshold_us), stamps.last(), drop_threshold_us)
    }
}

/// After observing a nonempty run, the previous stamp is the run's last.
proof fn lemma_observed_all_prev(o: TimestampObserver, stamps: Seq<u64>, drop_threshold_us: u64)
    requires
        stamps.len() > 0,
    ensures
        observed_all(o, stamps, drop_threshold_us).prev_timestamp_us == Some(stamps.last()),
{
}

/// Every gap of the run lies within the reported extremes: over any run of
/// stamps, each gap between consecutive increasing stamps is at least the
/// minimum gap and at most the maximum gap the observer reports, so an
/// early stall is never forgotten by the maximum.
pub proof fn law_every_gap_lies_within_the_extremes(o: TimestampObserver, stamps: Seq<u64>, drop_threshold_us: u64, i: int)
    requires
        1 <= i < stamps.len(),
        stamps[i - 1] < stamps[i],
    ensures
        observed_all(o, stamps, drop_threshold_us).min_gap_us <= stamps[i] - stamps[i - 1],
        stamps[i] - stamps[i - 1] <= observed_all(o, stamps, drop_threshold_us).max_gap_us,
    decreases stamps.len(),
{
    let prefix = stamps.drop_last();
    let before = observed_all(o, prefix, drop_threshold_us);
    if i == stamps.len() - 1 {
        lemma_observed_all_prev(o, prefix, drop_threshold_us);
        assert(prefix.last() == stamps[i - 1]);
    } else {
        assert(prefix[i] == stamps[i] && prefix[i - 1] == stamps[i - 1]);
        law_every_gap_lies_within_the_extremes(o, prefix, drop_threshold_us, i);
        assert(observed_all(o, stamps, drop_threshold_us) == observed(before, stamps.last(), drop_threshold_us));
    }
}

/// A pass criterion of the verification run that is judged on a counter.
#[derive(Debug, Clone, Copy, PartialEq, Eq, Structural)]
pub enum CounterCriterion {
    /// No frame was read back at all; nothing else is judged.
    NothingConsumed,
    /// The dispatcher dropped frames.
    FramesDropped,
    /// Gaps between frames on the bus imply a missing frame.
    GapsImplyDrop,
    /// Consecutive frames were bit-identical: the face froze.
    FrozenFrames,
    /// A frame exactly repeated an earlier one: the animation loops.
    RepeatedFrames,
    /// Timestamps did not increase.
    NonMonotonicStamps,
    /// Channel values left `[0, 1]`.
    OutOfRangeValues,
}

/// The counters of a verification run that its integer criteria read.
#[derive(Debug, Clone, Copy, PartialEq, Eq, Structural)]
pub struct CounterReadings {
    pub frames_consumed: u64,
    pub frames_dropped: u64,
    pub gaps_implying_a_drop: u64,
    pub identical_consecutive_frames: u64,
    pub repeated_frames: u64,
    pub non_monotonic_timestamps: u64,
    pub out_of_range_values: u64,
}

/// `[k]` when the criterion is missed (`missed`), else nothing.
pub open spec fn if_missed(missed: bool, k: CounterCriterion) -> Seq<CounterCriterion> {
    if missed { seq![k] } else { Seq::empty() }
}

/// The counter criteria a run missed, in report order. With no frame read
/// back, that alone is reported; otherwise each nonzero counter is one
/// failure.
pub open spec fn spec_counter_failures(r: CounterReadings) -> Seq<CounterCriterion> {
    if r.frames_consumed == 0 {
        seq![CounterCriterion::NothingConsumed]
    } else {
        if_missed(r.frames_dropped != 0, CounterCriterion::FramesDropped)
            + if_missed(r.gaps_implying_a_drop != 0, CounterCriterion::GapsImplyDrop)
            + if_missed(r.identical_consecutive_frames != 0, CounterCriterion::FrozenFrames)
            + if_missed(r.repeated_frames != 0, CounterCriterion::RepeatedFrames)
            + if_missed(r.non_monotonic_timestamps != 0, CounterCriterion::NonMonotonicStamps)
            + if_missed(r.out_of_range_values != 0, CounterCriterion::OutOfRangeValues)
    }
}

/// Appends `k` to `v` when `missed`.
fn note_if(v: &mut Vec<CounterCriterion>, missed: bool, k: CounterCriterion)
    ensures
        final(v)@ == old(v)@ + if_missed(missed, k),
{
    if missed {
        v.push(k);
    } else {
        assert(old(v)@ + Seq::<CounterCriterion>::empty() =~= old(v)@);
    }
}

/// The counter criteria the run with readings `r` missed, in report order.
pub fn counter_failures(r: &CounterReadings) -> (v: Vec<CounterCriterion>)
    ensures
        v@ == spec_counter_failures(*r),
{
    let mut v: Vec<CounterCriterion> = Vec::new();
    if r.frames_consumed == 0 {
        v.push(CounterCriterion::NothingConsumed);
        return v;
    }
    note_if(&mut v, r.frames_dropped != 0, CounterCriterion::FramesDropped);
    note_if(&mut v, r.gaps_implying_a_drop != 0, CounterCriterion::GapsImplyDrop);
    note_if(&mut v, r.identical_consecutive_frames != 0, CounterCriterion::FrozenFrames);
    note_if(&mut v, r.repeated_frames != 0, CounterCriterion::RepeatedFrames);
    note_if(&mut v, r.non_monotonic_timestamps != 0, CounterCriterion::NonMonotonicStamps);
    note_if(&mut v, r.out_of_range_values != 0, CounterCriterion::OutOfRangeValues);
    assert(v@ =~= spec_counter_failures(*r));
    v
}

/// Whether two bit patterns are the same, element for element.
fn same_bits(a: &Vec<u32>, b: &Vec<u32>) -> (r: bool)
    ensures
        r == (a@ == b@),
{
    if a.len() != b.len() {
        return false;
    }
    let mut i: usize = 0;
    while i < a.len()
        invariant
            i <= a@.len(),
            a@.len() == b@.len(),
            forall|j: int| 0 <= j < i ==> a@[j] == b@[j],
        decreases a@.len() - i,
    {
        if a[i] != b[i] {
            return false;
        }
        i = i + 1;
    }
    assert(a@ =~= b@);
    true
}

/// The bit patterns of the frames seen so far, each once, in the order
/// first seen: the memory behind the check that the animation never
/// exactly repeats a frame.
pub struct FrameHistory {
    seen: Vec<Vec<u32>>,
}

impl FrameHistory {
    /// The distinct patterns seen, in first-seen order.
    pub closed spec fn spec_seen(&self) -> Seq<Seq<u32>> {
        self.seen@.map_values(|k: Vec<u32>| k@)
    }

    /// Nothing seen yet.
    pub fn new() -> (h: Self)
        ensures
            h.spec_seen() == Seq::<Seq<u32>>::empty(),
    {
        let h = FrameHistory { seen: Vec::new() };
        assert(h.spec_seen() =~= Seq::<Seq<u32>>::empty());
        h
    }

    /// Records one frame's bit pattern. Returns true when it exactly
    /// repeats a pattern seen before, and then nothing is added; otherwise
    /// the pattern joins the history.
    pub fn record(&mut self, key: Vec<u32>) -> (repeat: bool)
        ensures
            repeat == old(self).spec_seen().contains(key@),
            final(self).spec_seen() == (if repeat { old(self).spec_seen() } else { old(self).spec_seen().push(key@) }),
    {
        let mut i: usize = 0;
        while i < self.seen.len()
            invariant
                i <= self.seen@.len(),
                forall|j: int| 0 <= j < i ==> self.seen@[j]@ != key@,
            decreases self.seen@.len() - i,
        {
            if same_bits(&self.seen[i], &key) {
                assert(self.spec_seen()[i as int] == key@);
                return true;
            }
            i = i + 1;
        }
        assert(!self.spec_seen().contains(key@)) by {
            if self.spec_seen().contains(key@) {
                let j = choose|j: int| 0 <= j < self.spec_seen().len() && self.spec_seen()[j] == key@;
                assert(self.seen@[j]@ == key@);
            }
        }
        let ghost before = self.spec_seen();
        self.seen.push(key);
        assert(self.spec_seen() =~= before.push(key@));
        false
    }

    /// Number of distinct patterns seen.
    pub fn distinct(&self) -> (n: usize)
        ensures
            n == self.spec_seen().len(),
    {
        self.seen.len()
    }
}

} // verus!
