//! The Miranda bus: three independent single-producer / single-consumer
//! rings (audio chunks, blend shape frames, spherical harmonic lighting),
//! held in process memory, and the byte layout that fixes each ring's
//! control words and slot region and the payload sizes it is built for.
//!
//! Payload types are parameters here; the bus only moves them. Each ring is
//! a [`SpscRing`], so a full ring rejects a push with a typed
//! [`BackpressureError`] and never overwrites unread payloads.
use vstd::prelude::*;
use vstd::arithmetic::power2::pow2;
use crate::core_types::{BackpressureError, RingId};
use crate::ring::{SpscRing, RingOp, ring_accepted, ring_run, ring_after_push, ring_after_pop, lemma_mask_is_mod, law_ring_is_fifo_under_interleaving};

verus! {

/// Cache line size assumed for false-sharing avoidance.
pub const CACHE_LINE: usize = 64;
/// Bytes of one ring's control block: `head` and `tail`, each on its own line.
pub const CTRL_BYTES: usize = 2 * CACHE_LINE;
/// Slots in the audio ring.
pub const AUDIO_SLOTS: usize = 64;
/// Slots in the blend shape ring.
pub const BLEND_SLOTS: usize = 128;
/// Slots in the spherical harmonics ring.
pub const SH_SLOTS: usize = 128;

/// Byte size of one audio chunk: timestamp, rate, count and 160 samples.
pub const AUDIO_CHUNK_BYTES: usize = 656;
/// Byte size of one blend shape frame: timestamp and 52 weights.
pub const BLENDSHAPE_FRAME_BYTES: usize = 216;
/// Byte size of one spherical harmonics vector, tail padding included.
pub const SPHERICAL_HARMONICS_BYTES: usize = 48;

/// Offset of the audio ring's control block.
pub const AUDIO_CTRL_OFF: usize = 0;
/// Offset of the audio ring's slots.
pub const AUDIO_DATA_OFF: usize = 128;
/// Bytes of the audio ring's slots.
pub const AUDIO_DATA_BYTES: usize = AUDIO_SLOTS * AUDIO_CHUNK_BYTES;
/// Offset of the blend shape ring's control block.
pub const BLEND_CTRL_OFF: usize = 42112;
/// Offset of the blend shape ring's slots.
pub const BLEND_DATA_OFF: usize = 42240;
/// Bytes of the blend shape ring's slots.
pub const BLEND_DATA_BYTES: usize = BLEND_SLOTS * BLENDSHAPE_FRAME_BYTES;
/// Offset of the lighting ring's control block.
pub const SH_CTRL_OFF: usize = 69888;
/// Offset of the lighting ring's slots.
pub const SH_DATA_OFF: usize = 70016;
/// Bytes of the lighting ring's slots.
pub const SH_DATA_BYTES: usize = SH_SLOTS * SPHERICAL_HARMONICS_BYTES;
/// Total size of the shared region, rounded up to a cache line.
pub const BUS_TOTAL_BYTES: usize = 76160;

/// True when `n` is `2^k` for some `k < 64`.
pub open spec fn is_power_of_two(n: usize) -> bool {
    exists|k: nat| k < 64 && pow2(k) == n
}

/// The least multiple of `align` that is at least `value`.
pub open spec fn spec_align_up(value: int, align: int) -> int {
    ((value + align - 1) / align) * align
}

/// Rounds `value` up to the next multiple of `align`, a power of two.
pub fn align_up(value: usize, align: usize) -> (r: usize)
    requires
        is_power_of_two(align),
        value + align - 1 <= usize::MAX,
    ensures
        r as int == spec_align_up(value as int, align as int),
        r % align == 0,
        value <= r < value + align,
{
    let ghost k: nat = choose|k: nat| k < 64 && pow2(k) == align;
    proof {
        vstd::arithmetic::power2::lemma_pow2_pos(k);
    }
    let x: usize = value + (align - 1);
    let m: usize = align - 1;
    let r = x & !m;
    proof {
        assert(x & !m == x - (x & m)) by (bit_vector);
        lemma_mask_is_mod(x, k);
        let a = align as int;
        vstd::arithmetic::div_mod::lemma_fundamental_div_mod(x as int, a);
        assert(r as int == a * (x as int / a));
        vstd::arithmetic::div_mod::lemma_mod_multiples_basic(x as int / a, a);
        assert(a * (x as int / a) == (x as int / a) * a) by (nonlinear_arith);
    }
    r
}

/// The region offsets follow from rounding each region's end up to a cache
/// line, the regions do not overlap, and every slot region is aligned for
/// its payload.
pub proof fn lemma_bus_layout()
    ensures
        AUDIO_DATA_OFF == spec_align_up(AUDIO_CTRL_OFF + CTRL_BYTES, CACHE_LINE as int),
        BLEND_CTRL_OFF == spec_align_up(AUDIO_DATA_OFF + AUDIO_DATA_BYTES, CACHE_LINE as int),
        BLEND_DATA_OFF == spec_align_up(BLEND_CTRL_OFF + CTRL_BYTES, CACHE_LINE as int),
        SH_CTRL_OFF == spec_align_up(BLEND_DATA_OFF + BLEND_DATA_BYTES, CACHE_LINE as int),
        SH_DATA_OFF == spec_align_up(SH_CTRL_OFF + CTRL_BYTES, CACHE_LINE as int),
        BUS_TOTAL_BYTES == spec_align_up(SH_DATA_OFF + SH_DATA_BYTES, CACHE_LINE as int),
        AUDIO_DATA_OFF + AUDIO_DATA_BYTES <= BLEND_CTRL_OFF,
        BLEND_DATA_OFF + BLEND_DATA_BYTES <= SH_CTRL_OFF,
        SH_DATA_OFF + SH_DATA_BYTES <= BUS_TOTAL_BYTES,
        BUS_TOTAL_BYTES % CACHE_LINE == 0,
        AUDIO_DATA_OFF % 8 == 0 && BLEND_DATA_OFF % 8 == 0 && SH_DATA_OFF % 8 == 0,
{
}

/// Three independent rings over one region. `A`, `B` and `S` are the audio,
/// blend shape and lighting payload types.
pub struct MirandaBus<A, B, S> {
    audio: SpscRing<A>,
    blend: SpscRing<B>,
    sh: SpscRing<S>,
}

impl<A: Copy, B: Copy, S: Copy> MirandaBus<A, B, S> {
    /// The bus's internal invariant.
    pub closed spec fn wf(&self) -> bool {
        &&& self.audio.wf()
        &&& self.blend.wf()
        &&& self.sh.wf()
        &&& self.audio.capacity() == AUDIO_SLOTS
        &&& self.blend.capacity() == BLEND_SLOTS
        &&& self.sh.capacity() == SH_SLOTS
        &&& self.audio.ring_id() == RingId::Audio
        &&& self.blend.ring_id() == RingId::Blendshape
        &&& self.sh.ring_id() == RingId::SphericalHarmonics
    }

    /// Audio chunks queued, oldest first.
    pub closed spec fn audio_queue(&self) -> Seq<A> {
        self.audio@
    }

    /// Blend shape frames queued, oldest first.
    pub closed spec fn blendshape_queue(&self) -> Seq<B> {
        self.blend@
    }

    /// Lighting vectors queued, oldest first.
    pub closed spec fn sh_queue(&self) -> Seq<S> {
        self.sh@
    }

    /// A private, process-local bus with all three rings empty.
    pub fn in_memory() -> (r: Self)
        ensures
            r.wf(),
            r.audio_queue() == Seq::<A>::empty(),
            r.blendshape_queue() == Seq::<B>::empty(),
            r.sh_queue() == Seq::<S>::empty(),
    {
        proof {
            vstd::arithmetic::power2::lemma2_to64();
        }
        MirandaBus {
            audio: SpscRing::new(6, RingId::Audio),
            blend: SpscRing::new(7, RingId::Blendshape),
            sh: SpscRing::new(7, RingId::SphericalHarmonics),
        }
    }

    /// Pushes an audio chunk; the other two rings are untouched.
    pub fn push_audio(&mut self, chunk: A) -> (r: Result<(), BackpressureError>)
        requires
            old(self).wf(),
        ensures
            final(self).wf(),
            final(self).audio_queue() == ring_after_push(old(self).audio_queue(), AUDIO_SLOTS as nat, chunk),
            r is Ok <==> old(self).audio_queue().len() < AUDIO_SLOTS,
            r is Err ==> r == Err::<(), BackpressureError>(BackpressureError { ring: RingId::Audio, capacity: AUDIO_SLOTS }),
            final(self).blendshape_queue() == old(self).blendshape_queue(),
            final(self).sh_queue() == old(self).sh_queue(),
    {
        self.audio.push(chunk)
    }

    /// Pops the oldest audio chunk; the other two rings are untouched.
    pub fn pop_audio(&mut self) -> (r: Option<A>)
        requires
            old(self).wf(),
        ensures
            final(self).wf(),
            (r, final(self).audio_queue()) == ring_after_pop(old(self).audio_queue()),
            final(self).blendshape_queue() == old(self).blendshape_queue(),
            final(self).sh_queue() == old(self).sh_queue(),
    {
        self.audio.pop()
    }

    /// Pushes a blend shape frame; the other two rings are untouched.
    pub fn push_blendshape(&mut self, frame: B) -> (r: Result<(), BackpressureError>)
        requires
            old(self).wf(),
        ensures
            final(self).wf(),
            final(self).blendshape_queue() == ring_after_push(old(self).blendshape_queue(), BLEND_SLOTS as nat, frame),
            r is Ok <==> old(self).blendshape_queue().len() < BLEND_SLOTS,
            r is Err ==> r == Err::<(), BackpressureError>(BackpressureError { ring: RingId::Blendshape, capacity: BLEND_SLOTS }),
            final(self).audio_queue() == old(self).audio_queue(),
            final(self).sh_queue() == old(self).sh_queue(),
    {
        self.blend.push(frame)
    }

    /// Pops the oldest blend shape frame; the other two rings are untouched.
    pub fn pop_blendshape(&mut self) -> (r: Option<B>)
        requires
            old(self).wf(),
        ensures
            final(self).wf(),
            (r, final(self).blendshape_queue()) == ring_after_pop(old(self).blendshape_queue()),
            final(self).audio_queue() == old(self).audio_queue(),
            final(self).sh_queue() == old(self).sh_queue(),
    {
        self.blend.pop()
    }

    /// Pushes a lighting vector; the other two rings are untouched.
    pub fn push_sh(&mut self, sh: S) -> (r: Result<(), BackpressureError>)
        requires
            old(self).wf(),
        ensures
            final(self).wf(),
            final(self).sh_queue() == ring_after_push(old(self).sh_queue(), SH_SLOTS as nat, sh),
            r is Ok <==> old(self).sh_queue().len() < SH_SLOTS,
            r is Err ==> r == Err::<(), BackpressureError>(BackpressureError { ring: RingId::SphericalHarmonics, capacity: SH_SLOTS }),
            final(self).audio_queue() == old(self).audio_queue(),
            final(self).blendshape_queue() == old(self).blendshape_queue(),
    {
        self.sh.push(sh)
    }

    /// Pops the oldest lighting vector; the other two rings are untouched.
    pub fn pop_sh(&mut self) -> (r: Option<S>)
        requires
            old(self).wf(),
        ensures
            final(self).wf(),
            (r, final(self).sh_queue()) == ring_after_pop(old(self).sh_queue()),
            final(self).audio_queue() == old(self).audio_queue(),
            final(self).blendshape_queue() == old(self).blendshape_queue(),
    {
        self.sh.pop()
    }

    /// Capacity in slots of each ring, as `(audio, blendshape, sh)`.
    pub fn capacities() -> (r: (usize, usize, usize))
        ensures
            r == (AUDIO_SLOTS, BLEND_SLOTS, SH_SLOTS),
    {
        (AUDIO_SLOTS, BLEND_SLOTS, SH_SLOTS)
    }
}

/// The payloads among `results`, in order (`None` results are skipped).
pub open spec fn returned<T>(results: Seq<Option<T>>) -> Seq<T>
    decreases results.len(),
{
    if results.len() == 0 {
        Seq::empty()
    } else {
        match results[0] {
            Some(x) => seq![x] + returned(results.drop_first()),
            None => returned(results.drop_first()),
        }
    }
}

/// One blend shape call on the bus, as its contract describes it: a push of
/// `x` takes the queue to `ring_after_push` (and returns no payload), a pop
/// returns and leaves what `ring_after_pop` gives.
pub open spec fn blendshape_call<A: Copy, B: Copy, S: Copy>(
    before: MirandaBus<A, B, S>,
    op: RingOp<B>,
    result: Option<B>,
    after: MirandaBus<A, B, S>,
) -> bool {
    match op {
        RingOp::Push(x) => {
            &&& after.blendshape_queue() == ring_after_push(before.blendshape_queue(), BLEND_SLOTS as nat, x)
            &&& result is None
        },
        RingOp::Pop => (result, after.blendshape_queue()) == ring_after_pop(before.blendshape_queue()),
    }
}

/// FIFO over a run of calls: when `buses[i + 1]` is the bus after the
/// `i`-th blend shape call `ops[i]` returned `results[i]` (each push and
/// pop meets its own contract), the pops return, in order, what the ring
/// model says; and what was queued at the start followed by every accepted
/// push is exactly what the pops returned followed by what is still queued.
/// The slot counters may wrap any number of times along the way.
pub proof fn law_bus_blendshape_calls_are_fifo<A: Copy, B: Copy, S: Copy>(
    buses: Seq<MirandaBus<A, B, S>>,
    ops: Seq<RingOp<B>>,
    results: Seq<Option<B>>,
)
    requires
        buses.len() == ops.len() + 1,
        results.len() == ops.len(),
        buses[0].blendshape_queue().len() <= BLEND_SLOTS,
        forall|i: int| 0 <= i < ops.len() ==> #[trigger] blendshape_call(buses[i], ops[i], results[i], buses[i + 1]),
    ensures
        returned(results) == ring_run(buses[0].blendshape_queue(), BLEND_SLOTS as nat, ops).0,
        buses.last().blendshape_queue() == ring_run(buses[0].blendshape_queue(), BLEND_SLOTS as nat, ops).1,
        buses[0].blendshape_queue() + ring_accepted(buses[0].blendshape_queue(), BLEND_SLOTS as nat, ops)
            == returned(results) + buses.last().blendshape_queue(),
    decreases ops.len(),
{
    let q = buses[0].blendshape_queue();
    law_ring_is_fifo_under_interleaving(q, BLEND_SLOTS as nat, ops);
    if ops.len() > 0 {
        let rb = buses.drop_first();
        let ro = ops.drop_first();
        let rr = results.drop_first();
        assert(blendshape_call(buses[0], ops[0], results[0], buses[1]));
        assert forall|i: int| 0 <= i < ro.len() implies #[trigger] blendshape_call(rb[i], ro[i], rr[i], rb[i + 1]) by {
            let j = i + 1;
            assert(0 <= j < ops.len());
            assert(blendshape_call(buses[j], ops[j], results[j], buses[j + 1]));
            assert(rb[i] == buses[j] && ro[i] == ops[j] && rr[i] == results[j] && rb[i + 1] == buses[j + 1]);
        }
        assert(rb[0] == buses[1]);
        assert(rb.last() == buses.last());
        match ops[0] {
            RingOp::Push(x) => {
                assert(buses[1].blendshape_queue() == ring_after_push(q, BLEND_SLOTS as nat, x));
                if q.len() < BLEND_SLOTS {
                    assert(ring_after_push(q, BLEND_SLOTS as nat, x) == q.push(x));
                } else {
                    assert(ring_after_push(q, BLEND_SLOTS as nat, x) == q);
                }
                assert(rb[0].blendshape_queue().len() <= BLEND_SLOTS);
                law_bus_blendshape_calls_are_fifo(rb, ro, rr);
            },
            RingOp::Pop => {
                law_bus_blendshape_calls_are_fifo(rb, ro, rr);
            },
        }
    }
}

} // verus!
