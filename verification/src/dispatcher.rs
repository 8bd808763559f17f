//! Bookkeeping of the 60 FPS face dispatcher: its shared counters, the
//! pacing decision taken after each frame, and the derivation of the
//! per-generator seeds from one master seed.
use vstd::prelude::*;
use vstd::wrapping::u64_specs::{wrapping_add, wrapping_mul};
use crate::bus::MirandaBus;
use crate::core_types::AudioChunk;

verus! {

/// Target frame rate.
pub const TARGET_FPS: u32 = 60;

/// Nominal frame period in nanoseconds: exactly 1/60 s, rounded.
pub const FRAME_PERIOD_NS: u64 = 16_666_667;

/// Capacity of the audio staging buffer, in samples.
pub const AUDIO_STAGING_SAMPLES: usize = 1600;

/// Maximum audio chunks drained per frame.
pub const MAX_CHUNKS_PER_FRAME: usize = 12;

/// How long before the deadline the pacer stops sleeping and spins, in
/// microseconds.
pub const SPIN_MARGIN_US: u64 = 300;

/// Counters of the dispatcher loop. All counters wrap at `u64::MAX`.
#[derive(Debug, Clone, Copy)]
pub struct DispatchStats {
    /// Frames successfully written to the bus.
    pub frames_published: u64,
    /// Frames never produced because the loop missed whole periods.
    pub frames_dropped: u64,
    /// Frames produced but rejected by a full bus.
    pub publish_failures: u64,
    /// Frames finished after their deadline without losing a period.
    pub late_frames: u64,
    /// Worst observed cost of building one frame, in nanoseconds.
    pub max_build_ns: u64,
    /// Sum of frame build costs, in nanoseconds.
    pub total_build_ns: u64,
    /// Audio chunks consumed from the bus.
    pub audio_chunks_consumed: u64,
}

/// How a frame's finish time related to its deadline.
#[derive(Debug, Clone, Copy, PartialEq, Eq, Structural)]
pub enum FrameTiming {
    /// Finished before the deadline: sleep until it, then take the next.
    OnTime,
    /// Finished after the deadline, by less than one period.
    Late,
    /// Finished at least one whole period after the deadline; that many
    /// frames were lost and the schedule restarts from now.
    Dropped(u64),
}

impl DispatchStats {
    /// All counters zero.
    pub fn new() -> (s: Self)
        ensures
            s.frames_published == 0 && s.frames_dropped == 0 && s.publish_failures == 0,
            s.late_frames == 0 && s.max_build_ns == 0 && s.total_build_ns == 0,
            s.audio_chunks_consumed == 0,
    {
        DispatchStats {
            frames_published: 0,
            frames_dropped: 0,
            publish_failures: 0,
            late_frames: 0,
            max_build_ns: 0,
            total_build_ns: 0,
            audio_chunks_consumed: 0,
        }
    }

    /// Records the cost of building one frame: adds it to the total and
    /// raises the maximum when it is the worst so far.
    pub fn record_build(&mut self, ns: u64)
        ensures
            final(self).total_build_ns == wrapping_add(old(self).total_build_ns, ns),
            final(self).max_build_ns == (if ns > old(self).max_build_ns { ns } else { old(self).max_build_ns }),
            final(self).frames_published == old(self).frames_published,
            final(self).frames_dropped == old(self).frames_dropped,
            final(self).publish_failures == old(self).publish_failures,
            final(self).late_frames == old(self).late_frames,
            final(self).audio_chunks_consumed == old(self).audio_chunks_consumed,
    {
        self.total_build_ns = self.total_build_ns.wrapping_add(ns);
        if ns > self.max_build_ns {
            self.max_build_ns = ns;
        }
    }

    /// Records whether the frame was accepted by the bus.
    pub fn record_publish(&mut self, published: bool)
        ensures
            final(self).frames_published == (if published { wrapping_add(old(self).frames_published, 1) } else { old(self).frames_published }),
            final(self).publish_failures == (if published { old(self).publish_failures } else { wrapping_add(old(self).publish_failures, 1) }),
            final(self).frames_dropped == old(self).frames_dropped,
            final(self).late_frames == old(self).late_frames,
            final(self).max_build_ns == old(self).max_build_ns,
            final(self).total_build_ns == old(self).total_build_ns,
            final(self).audio_chunks_consumed == old(self).audio_chunks_consumed,
    {
        if published {
            self.frames_published = self.frames_published.wrapping_add(1);
        } else {
            self.publish_failures = self.publish_failures.wrapping_add(1);
        }
    }

    /// Records the audio chunks drained for one frame.
    pub fn record_chunks(&mut self, chunks: u64)
        ensures
            final(self).audio_chunks_consumed == wrapping_add(old(self).audio_chunks_consumed, chunks),
            final(self).frames_published == old(self).frames_published,
            final(self).frames_dropped == old(self).frames_dropped,
            final(self).publish_failures == old(self).publish_failures,
            final(self).late_frames == old(self).late_frames,
            final(self).max_build_ns == old(self).max_build_ns,
            final(self).total_build_ns == old(self).total_build_ns,
    {
        self.audio_chunks_consumed = self.audio_chunks_consumed.wrapping_add(chunks);
    }

    /// Records how a frame met its deadline: lost periods count as dropped
    /// frames, a late frame counts as late, an on-time frame counts nothing.
    pub fn record_timing(&mut self, timing: FrameTiming)
        ensures
            final(self).frames_dropped == (match timing {
                FrameTiming::Dropped(lost) => wrapping_add(old(self).frames_dropped, lost),
                _ => old(self).frames_dropped,
            }),
            final(self).late_frames == (if timing == FrameTiming::Late { wrapping_add(old(self).late_frames, 1) } else { old(self).late_frames }),
            final(self).frames_published == old(self).frames_published,
            final(self).publish_failures == old(self).publish_failures,
            final(self).max_build_ns == old(self).max_build_ns,
            final(self).total_build_ns == old(self).total_build_ns,
            final(self).audio_chunks_consumed == old(self).audio_chunks_consumed,
    {
        match timing {
            FrameTiming::OnTime => {},
            FrameTiming::Late => {
                self.late_frames = self.late_frames.wrapping_add(1);
            },
            FrameTiming::Dropped(lost) => {
                self.frames_dropped = self.frames_dropped.wrapping_add(lost);
            },
        }
    }
}

/// Classifies a frame that finished at `now_ns` against `deadline_ns` and
/// returns the next deadline. On time or late, the schedule keeps its
/// cadence (`deadline + period`). At least one whole period late, the
/// number of whole periods missed is reported and the schedule restarts
/// one period after now.
pub fn pace_frame(now_ns: u64, deadline_ns: u64, period_ns: u64) -> (r: (FrameTiming, u64))
    requires
        period_ns > 0,
        now_ns + period_ns <= u64::MAX,
        deadline_ns + period_ns <= u64::MAX,
    ensures
        now_ns <= deadline_ns ==> r == (FrameTiming::OnTime, (deadline_ns + period_ns) as u64),
        now_ns > deadline_ns && now_ns - deadline_ns < period_ns ==> r == (FrameTiming::Late, (deadline_ns + period_ns) as u64),
        now_ns > deadline_ns && now_ns - deadline_ns >= period_ns ==> r == (
            FrameTiming::Dropped(((now_ns - deadline_ns) / (period_ns as int)) as u64),
            (now_ns + period_ns) as u64,
        ),
{
    if now_ns > deadline_ns {
        let overrun = now_ns - deadline_ns;
        if overrun >= period_ns {
            let lost = overrun / period_ns;
            (FrameTiming::Dropped(lost), now_ns + period_ns)
        } else {
            (FrameTiming::Late, deadline_ns + period_ns)
        }
    } else {
        (FrameTiming::OnTime, deadline_ns + period_ns)
    }
}

/// The schedule always moves forward, by at least one period; and a
/// `Dropped(lost)` report counts exactly the whole periods that elapsed
/// between the deadline and the frame's finish.
pub proof fn law_pacing_advances_and_counts_lost_periods(now_ns: u64, deadline_ns: u64, period_ns: u64)
    requires
        period_ns > 0,
        now_ns + period_ns <= u64::MAX,
        deadline_ns + period_ns <= u64::MAX,
    ensures
        ({
            let next = if now_ns > deadline_ns && now_ns - deadline_ns >= period_ns { now_ns + period_ns } else { deadline_ns + period_ns };
            next >= deadline_ns + period_ns
        }),
        now_ns > deadline_ns && now_ns - deadline_ns >= period_ns ==> {
            let lost = (now_ns - deadline_ns) / (period_ns as int);
            &&& lost >= 1
            &&& lost * period_ns <= now_ns - deadline_ns < (lost + 1) * period_ns
        },
{
    if now_ns > deadline_ns && now_ns - deadline_ns >= period_ns {
        let o = (now_ns - deadline_ns) as int;
        let p = period_ns as int;
        vstd::arithmetic::div_mod::lemma_fundamental_div_mod(o, p);
        vstd::arithmetic::div_mod::lemma_mod_bound(o, p);
        vstd::arithmetic::div_mod::lemma_div_pos_is_pos(o, p);
        assert(o / p >= 1) by {
            vstd::arithmetic::div_mod::lemma_div_is_ordered(p, o, p);
            vstd::arithmetic::div_mod::lemma_div_by_self(p);
        }
        assert((o / p + 1) * p == (o / p) * p + p) by (nonlinear_arith);
        assert(p * (o / p) == (o / p) * p) by (nonlinear_arith);
    }
}

/// The 32-bit fold of a 64-bit seed: two xor-shift-multiply rounds of the
/// splitmix finaliser, then the low 32 bits of a final xor-shift.
pub open spec fn spec_mix32(x: u64) -> u32 {
    let a = wrapping_mul(x ^ (x >> 30u64), 0xBF58_476D_1CE4_E5B9u64);
    let b = wrapping_mul(a ^ (a >> 27u64), 0x94D0_49BB_1331_11EBu64);
    ((b ^ (b >> 31u64)) & 0xFFFF_FFFFu64) as u32
}

/// Folds a 64-bit seed to 32 bits without discarding its high half.
pub fn mix32(x: u64) -> (r: u32)
    ensures
        r == spec_mix32(x),
{
    let a = (x ^ (x >> 30)).wrapping_mul(0xBF58_476D_1CE4_E5B9);
    let b = (a ^ (a >> 27)).wrapping_mul(0x94D0_49BB_1331_11EB);
    ((b ^ (b >> 31)) & 0xFFFF_FFFF) as u32
}

/// Salt that separates the gaze generator's seed from the master seed.
pub const GAZE_SEED_SALT: u64 = 0x9E37_79B9_7F4A_7C15;

/// Salt that separates the breath generator's seed from the master seed.
pub const BREATH_SEED_SALT: u64 = 0x85EB_CA6B_C2B2_AE35;

/// Seeds of the blink, gaze and breath generators derived from one master
/// seed: blink takes the master seed, gaze and breath fold it with
/// different salts so their noise fields are not correlated.
pub fn generator_seeds(seed: u64) -> (r: (u64, u32, u32))
    ensures
        r == (seed, spec_mix32(seed ^ GAZE_SEED_SALT), spec_mix32(seed ^ BREATH_SEED_SALT)),
{
    (seed, mix32(seed ^ GAZE_SEED_SALT), mix32(seed ^ BREATH_SEED_SALT))
}

/// Samples of one audio chunk that fit in the staging buffer: the chunk's
/// producer-supplied `frame_count`, trusted only up to the samples it has,
/// limited to the room left.
pub open spec fn staged_take(staged: int, capacity: int, frame_count: int, samples: int) -> int {
    let valid = if frame_count < samples { frame_count } else { samples };
    let room = capacity - staged;
    if valid < room { valid } else { room }
}

/// Appends one chunk's valid samples to the staging buffer, as many as fit.
/// Returns true when the buffer is now full and the chunk had more valid
/// samples than fitted: draining should stop and leave the rest queued.
pub fn stage_samples<T: Copy>(staging: &mut Vec<T>, capacity: usize, samples: &[T], frame_count: u32) -> (stop: bool)
    requires
        old(staging)@.len() <= capacity,
    ensures
        ({
            let valid = if frame_count < samples@.len() { frame_count as int } else { samples@.len() as int };
            let take = staged_take(old(staging)@.len() as int, capacity as int, frame_count as int, samples@.len() as int);
            &&& final(staging)@ == old(staging)@ + samples@.subrange(0, take)
            &&& stop == (take == capacity - old(staging)@.len() && valid > take)
        }),
        final(staging)@.len() <= capacity,
{
    let fc = frame_count as usize;
    let valid = if fc < samples.len() { fc } else { samples.len() };
    let room = capacity - staging.len();
    let take = if valid < room { valid } else { room };
    let mut i: usize = 0;
    while i < take
        invariant
            i <= take,
            take <= samples@.len(),
            staging@ == old(staging)@ + samples@.subrange(0, i as int),
        decreases take - i,
    {
        staging.push(samples[i]);
        assert(samples@.subrange(0, i as int + 1) =~= samples@.subrange(0, i as int).push(samples@[i as int]));
        i = i + 1;
    }
    room == take && valid > take
}

/// Draining audio chunks `q` (oldest first) into staging that already holds
/// `staged`, after `taken` chunks of this frame: the number of chunks taken
/// in all, and the staging buffer after them. Draining stops at
/// [`MAX_CHUNKS_PER_FRAME`] chunks, when the queue runs out, or after the
/// chunk that filled the buffer with samples to spare.
pub open spec fn drain_from<T>(q: Seq<AudioChunk<T>>, staged: Seq<T>, capacity: int, taken: nat) -> (nat, Seq<T>)
    decreases q.len(),
{
    if taken >= MAX_CHUNKS_PER_FRAME || q.len() == 0 {
        (taken, staged)
    } else {
        let c = q[0];
        let n = c.samples@.len() as int;
        let valid = if (c.frame_count as int) < n { c.frame_count as int } else { n };
        let take = staged_take(staged.len() as int, capacity, c.frame_count as int, n);
        let next = staged + c.samples@.subrange(0, take);
        if take == capacity - staged.len() && valid > take {
            (taken + 1, next)
        } else {
            drain_from(q.drop_first(), next, capacity, taken + 1)
        }
    }
}

/// A drain never takes more chunks than the cap or than were queued, and
/// never stages more samples than the buffer holds.
pub proof fn law_drain_is_bounded<T>(q: Seq<AudioChunk<T>>, staged: Seq<T>, capacity: int, taken: nat)
    requires
        taken <= MAX_CHUNKS_PER_FRAME,
        staged.len() <= capacity,
    ensures
        taken <= drain_from(q, staged, capacity, taken).0,
        drain_from(q, staged, capacity, taken).0 <= MAX_CHUNKS_PER_FRAME,
        drain_from(q, staged, capacity, taken).0 <= taken + q.len(),
        staged.len() <= drain_from(q, staged, capacity, taken).1.len() <= capacity,
    decreases q.len(),
{
    if taken < MAX_CHUNKS_PER_FRAME && q.len() > 0 {
        let c = q[0];
        let n = c.samples@.len() as int;
        let take = staged_take(staged.len() as int, capacity, c.frame_count as int, n);
        let next = staged + c.samples@.subrange(0, take);
        law_drain_is_bounded(q.drop_first(), next, capacity, taken + 1);
    }
}

/// Empties `staging` and refills it from the bus's audio ring, one chunk
/// after another, as [`drain_from`] describes; returns the number of chunks
/// taken off the ring. Only those chunks leave the ring, and the other two
/// rings are untouched.
pub fn drain_audio<T: Copy, B: Copy, S: Copy>(bus: &mut MirandaBus<AudioChunk<T>, B, S>, staging: &mut Vec<T>) -> (chunks: usize)
    requires
        old(bus).wf(),
    ensures
        final(bus).wf(),
        (chunks as nat, final(staging)@) == drain_from(old(bus).audio_queue(), Seq::<T>::empty(), AUDIO_STAGING_SAMPLES as int, 0),
        chunks <= old(bus).audio_queue().len(),
        final(bus).audio_queue() == old(bus).audio_queue().subrange(chunks as int, old(bus).audio_queue().len() as int),
        final(bus).blendshape_queue() == old(bus).blendshape_queue(),
        final(bus).sh_queue() == old(bus).sh_queue(),
{
    staging.clear();
    let ghost q0 = bus.audio_queue();
    let mut chunks: usize = 0;
    proof {
        assert(q0.subrange(0, q0.len() as int) =~= q0);
        assert(staging@ =~= Seq::<T>::empty());
    }
    while chunks < MAX_CHUNKS_PER_FRAME
        invariant_except_break
            bus.wf(),
            chunks <= MAX_CHUNKS_PER_FRAME,
            chunks <= q0.len(),
            bus.audio_queue() == q0.subrange(chunks as int, q0.len() as int),
            staging@.len() <= AUDIO_STAGING_SAMPLES,
            drain_from(q0, Seq::<T>::empty(), AUDIO_STAGING_SAMPLES as int, 0)
                == drain_from(bus.audio_queue(), staging@, AUDIO_STAGING_SAMPLES as int, chunks as nat),
            bus.blendshape_queue() == old(bus).blendshape_queue(),
            bus.sh_queue() == old(bus).sh_queue(),
        ensures
            bus.wf(),
            chunks <= q0.len(),
            bus.audio_queue() == q0.subrange(chunks as int, q0.len() as int),
            (chunks as nat, staging@) == drain_from(q0, Seq::<T>::empty(), AUDIO_STAGING_SAMPLES as int, 0),
            bus.blendshape_queue() == old(bus).blendshape_queue(),
            bus.sh_queue() == old(bus).sh_queue(),
        decreases MAX_CHUNKS_PER_FRAME - chunks,
    {
        let ghost q = bus.audio_queue();
        let ghost s = staging@;
        let popped = bus.pop_audio();
        match popped {
            None => {
                break;
            },
            Some(c) => {
                chunks = chunks + 1;
                let stop = stage_samples(staging, AUDIO_STAGING_SAMPLES, c.samples.as_slice(), c.frame_count);
                proof {
                    assert(c == q[0]);
                    assert(q.drop_first() =~= q0.subrange(chunks as int, q0.len() as int));
                }
                if stop {
                    break;
                }
            },
        }
    }
    chunks
}

} // verus!
