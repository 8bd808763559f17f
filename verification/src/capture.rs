//! Turning one audio device callback into a bus chunk. The device and the
//! clock stay with the caller; this module builds the chunk from the
//! samples the device delivered and offers it to the audio ring.
use vstd::prelude::*;
use vstd::wrapping::u64_specs::wrapping_add;
use crate::bus::{MirandaBus, AUDIO_SLOTS};
use crate::core_types::{AudioChunk, AUDIO_CHUNK_FRAMES, AUDIO_SAMPLE_RATE_HZ};

verus! {

/// Samples of a callback buffer of `len` samples that fit in one chunk.
pub open spec fn chunk_fill(len: int) -> int {
    if len < AUDIO_CHUNK_FRAMES { len } else { AUDIO_CHUNK_FRAMES as int }
}

/// The chunk for a callback that delivered `data`: its first samples, as
/// many as a chunk holds, and `silence` in the slots left over.
pub open spec fn chunk_of<T>(c: AudioChunk<T>, data: Seq<T>, silence: T, timestamp_us: u64) -> bool {
    let n = chunk_fill(data.len() as int);
    &&& c.timestamp_us == timestamp_us
    &&& c.sample_rate == AUDIO_SAMPLE_RATE_HZ
    &&& c.frame_count == n
    &&& c.samples@.len() == AUDIO_CHUNK_FRAMES
    &&& forall|i: int| 0 <= i < n ==> #[trigger] c.samples@[i] == data[i]
    &&& forall|i: int| n <= i < AUDIO_CHUNK_FRAMES ==> #[trigger] c.samples@[i] == silence
}

/// Builds the chunk for one callback buffer stamped `timestamp_us`.
/// Samples past a chunk's capacity are dropped; a short buffer is padded
/// with `silence` and reports only the samples it had.
pub fn chunk_from_samples<T: Copy>(data: &[T], silence: T, timestamp_us: u64) -> (c: AudioChunk<T>)
    ensures
        chunk_of(c, data@, silence, timestamp_us),
{
    let mut samples: [T; AUDIO_CHUNK_FRAMES] = [silence; AUDIO_CHUNK_FRAMES];
    let n: usize = if data.len() < AUDIO_CHUNK_FRAMES { data.len() } else { AUDIO_CHUNK_FRAMES };
    let mut i: usize = 0;
    while i < n
        invariant
            i <= n,
            n == chunk_fill(data@.len() as int),
            samples@.len() == AUDIO_CHUNK_FRAMES,
            forall|j: int| 0 <= j < i ==> #[trigger] samples@[j] == data@[j],
            forall|j: int| i <= j < AUDIO_CHUNK_FRAMES ==> #[trigger] samples@[j] == silence,
        decreases n - i,
    {
        samples[i] = data[i];
        i = i + 1;
    }
    AudioChunk { timestamp_us, sample_rate: AUDIO_SAMPLE_RATE_HZ, frame_count: n as u32, samples }
}

/// Handles one device callback: builds the chunk for `data` stamped
/// `timestamp_us` and offers it to the audio ring. When the ring is full
/// the chunk is dropped and `dropped_frames` counts one more (wrapping);
/// the blend shape and lighting rings are never touched.
pub fn on_audio_data<T: Copy, B: Copy, S: Copy>(
    data: &[T],
    silence: T,
    timestamp_us: u64,
    bus: &mut MirandaBus<AudioChunk<T>, B, S>,
    dropped_frames: &mut u64,
) -> (accepted: bool)
    requires
        old(bus).wf(),
    ensures
        final(bus).wf(),
        accepted <==> old(bus).audio_queue().len() < AUDIO_SLOTS,
        accepted ==> exists|c: AudioChunk<T>|
            chunk_of(c, data@, silence, timestamp_us) && #[trigger] final(bus).audio_queue() == old(bus).audio_queue().push(c),
        !accepted ==> final(bus).audio_queue() == old(bus).audio_queue(),
        *final(dropped_frames) == (if accepted { *old(dropped_frames) } else { wrapping_add(*old(dropped_frames), 1) }),
        final(bus).blendshape_queue() == old(bus).blendshape_queue(),
        final(bus).sh_queue() == old(bus).sh_queue(),
{
    let chunk = chunk_from_samples(data, silence, timestamp_us);
    match bus.push_audio(chunk) {
        Ok(()) => true,
        Err(_) => {
            *dropped_frames = dropped_frames.wrapping_add(1);
            false
        },
    }
}

} // verus!
