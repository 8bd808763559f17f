//! Shared constants and error types used across every part of the engine.
use vstd::prelude::*;

verus! {

/// Sample rate for all audio on the bus: 16 kHz mono.
pub const AUDIO_SAMPLE_RATE_HZ: u32 = 16_000;

/// Samples per audio chunk: 160 samples is exactly 10 ms at 16 kHz.
pub const AUDIO_CHUNK_FRAMES: usize = 160;

/// Number of ARKit face blend shape channels.
pub const BLENDSHAPE_COUNT: usize = 52;

/// Number of L2 spherical harmonic lighting coefficients.
pub const SH_COEFF_COUNT: usize = 9;

/// Identifies which of the three rings on the bus an error came from.
#[derive(Debug, Clone, Copy, PartialEq, Eq, Structural)]
pub enum RingId {
    /// The audio chunk ring.
    Audio,
    /// The blend shape frame ring.
    Blendshape,
    /// The spherical harmonics ring.
    SphericalHarmonics,
}

/// A raw audio chunk: up to [`AUDIO_CHUNK_FRAMES`] PCM samples of type `T`.
#[derive(Debug, Clone, Copy)]
pub struct AudioChunk<T> {
    /// Microseconds since harness start.
    pub timestamp_us: u64,
    /// Always [`AUDIO_SAMPLE_RATE_HZ`].
    pub sample_rate: u32,
    /// Number of valid samples in `samples`, as reported by the producer;
    /// it may claim more than the chunk holds.
    pub frame_count: u32,
    /// The samples, mono.
    pub samples: [T; AUDIO_CHUNK_FRAMES],
}

/// Returned when a ring is full and a producer attempts to push. The bus
/// never drops a payload silently and never overwrites unread contents.
#[derive(Debug, Clone, Copy, PartialEq, Eq, Structural)]
pub struct BackpressureError {
    /// Which ring rejected the push.
    pub ring: RingId,
    /// Capacity of that ring in slots.
    pub capacity: usize,
}

} // verus!

verus! {

/// `<Arc<T> as Clone>::clone`: another handle on the same shared value.
#[verifier::external_body]
pub(crate) fn share_arc<T>(a: &std::sync::Arc<T>) -> (r: std::sync::Arc<T>)
    ensures
        r == *a,
{
    std::sync::Arc::clone(a)
}

} // verus!
