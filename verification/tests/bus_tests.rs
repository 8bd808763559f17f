use miranda::bus::{
    align_up, MirandaBus, AUDIO_CHUNK_BYTES, AUDIO_SLOTS, BLENDSHAPE_FRAME_BYTES, BLEND_SLOTS, BUS_TOTAL_BYTES,
    CACHE_LINE, SH_DATA_BYTES, SH_DATA_OFF, SH_SLOTS, SPHERICAL_HARMONICS_BYTES,
};
use miranda::core_types::{RingId, AUDIO_CHUNK_FRAMES, AUDIO_SAMPLE_RATE_HZ, BLENDSHAPE_COUNT, SH_COEFF_COUNT};

#[derive(Debug, Clone, Copy, PartialEq)]
struct AudioChunk {
    timestamp_us: u64,
    sample_rate: u32,
    frame_count: u32,
    samples: [f32; AUDIO_CHUNK_FRAMES],
}

#[derive(Debug, Clone, Copy, PartialEq)]
struct BlendshapeFrame {
    timestamp_us: u64,
    weights: [f32; BLENDSHAPE_COUNT],
}

#[derive(Debug, Clone, Copy, PartialEq)]
struct SphericalHarmonics {
    timestamp_us: u64,
    coefficients: [f32; SH_COEFF_COUNT],
    _padding: [u8; 4],
}

type Bus = MirandaBus<AudioChunk, BlendshapeFrame, SphericalHarmonics>;

fn frame(i: u64) -> BlendshapeFrame {
    BlendshapeFrame { timestamp_us: i, weights: [i as f32; BLENDSHAPE_COUNT] }
}

#[test]
fn single_round_trip_preserves_bytes() {
    let mut bus = Bus::in_memory();
    assert!(bus.pop_blendshape().is_none(), "fresh ring must be empty");

    bus.push_blendshape(frame(42)).unwrap();
    let got = bus.pop_blendshape().expect("one frame was pushed");

    assert_eq!(got.timestamp_us, 42);
    assert_eq!(got.weights, [42.0f32; BLENDSHAPE_COUNT]);
    assert!(bus.pop_blendshape().is_none(), "ring must be empty again");
}

#[test]
fn full_ring_returns_backpressure_without_corruption() {
    let mut bus = Bus::in_memory();
    for i in 0..BLEND_SLOTS as u64 {
        bus.push_blendshape(frame(i))
            .unwrap_or_else(|e| panic!("push {i} within capacity must succeed: {e:?}"));
    }

    let err = bus.push_blendshape(frame(9999)).expect_err("push beyond capacity must be rejected");
    assert_eq!(err.ring, RingId::Blendshape);
    assert_eq!(err.capacity, BLEND_SLOTS);

    for i in 0..BLEND_SLOTS as u64 {
        let got = bus.pop_blendshape().expect("queued frame must be present");
        assert_eq!(got.timestamp_us, i, "FIFO order and contents preserved");
        assert_eq!(got.weights, [i as f32; BLENDSHAPE_COUNT]);
    }
    assert!(bus.pop_blendshape().is_none());
}

#[test]
fn index_wraparound_stays_fifo() {
    let mut bus = Bus::in_memory();
    for i in 0..(BLEND_SLOTS as u64 * 5) {
        bus.push_blendshape(frame(i)).unwrap();
        let got = bus.pop_blendshape().expect("pushed then popped");
        assert_eq!(got.timestamp_us, i, "wraparound must preserve identity");
    }
}

#[test]
fn rings_are_independent() {
    let mut bus = Bus::in_memory();

    for i in 0..AUDIO_SLOTS as u64 {
        bus.push_audio(AudioChunk {
            timestamp_us: i,
            sample_rate: AUDIO_SAMPLE_RATE_HZ,
            frame_count: AUDIO_CHUNK_FRAMES as u32,
            samples: [i as f32; AUDIO_CHUNK_FRAMES],
        })
        .unwrap();
    }
    assert!(
        bus.push_audio(AudioChunk {
            timestamp_us: 0,
            sample_rate: 0,
            frame_count: 0,
            samples: [0.0; AUDIO_CHUNK_FRAMES],
        })
        .is_err(),
        "audio ring should now be full"
    );

    bus.push_blendshape(frame(7)).unwrap();
    bus.push_sh(SphericalHarmonics { timestamp_us: 7, coefficients: [0.5; SH_COEFF_COUNT], _padding: [0; 4] })
        .unwrap();

    assert_eq!(bus.pop_blendshape().unwrap().timestamp_us, 7);
    let sh = bus.pop_sh().unwrap();
    assert_eq!(sh.timestamp_us, 7);
    assert_eq!(sh.coefficients, [0.5; SH_COEFF_COUNT]);
    assert_eq!(bus.pop_audio().unwrap().timestamp_us, 0, "audio intact");
}

#[test]
fn test_round_trip_latency() {
    let mut bus = Bus::in_memory();
    let payload = frame(0);
    for _ in 0..1_000 {
        bus.push_blendshape(payload).unwrap();
        let _ = bus.pop_blendshape();
    }
    const ITERS: u32 = 10_000;
    let start = std::time::Instant::now();
    for _ in 0..ITERS {
        bus.push_blendshape(payload).unwrap();
        let _ = bus.pop_blendshape();
    }
    let elapsed_us = start.elapsed().as_micros() as u64 / ITERS as u64;
    assert!(elapsed_us <= 50, "round-trip latency {elapsed_us} us exceeds the 50 us target");
}

#[test]
fn layout_is_internally_consistent() {
    assert_eq!(BUS_TOTAL_BYTES % CACHE_LINE, 0);
    assert!(SH_DATA_OFF + SH_DATA_BYTES <= BUS_TOTAL_BYTES);
}

#[test]
fn struct_sizes_match_design_spec() {
    assert_eq!(AUDIO_CHUNK_BYTES, 656);
    assert_eq!(BLENDSHAPE_FRAME_BYTES, 216);
    assert_eq!(SPHERICAL_HARMONICS_BYTES, 48);
}

#[test]
fn capacities_are_reported_per_ring() {
    assert_eq!(Bus::capacities(), (64, 128, 128));
    assert_eq!(Bus::capacities(), (AUDIO_SLOTS, BLEND_SLOTS, SH_SLOTS));
}

#[test]
fn every_ring_rejects_exactly_at_capacity() {
    let mut bus = Bus::in_memory();
    for i in 0..SH_SLOTS as u64 {
        assert!(bus.push_sh(SphericalHarmonics { timestamp_us: i, coefficients: [0.0; SH_COEFF_COUNT], _padding: [0; 4] }).is_ok());
    }
    let err = bus
        .push_sh(SphericalHarmonics { timestamp_us: 0, coefficients: [0.0; SH_COEFF_COUNT], _padding: [0; 4] })
        .unwrap_err();
    assert_eq!(err.ring, RingId::SphericalHarmonics);
    assert_eq!(err.capacity, SH_SLOTS);
    let first = bus.pop_sh().unwrap();
    assert_eq!(first.timestamp_us, 0);
    assert!(bus.push_sh(SphericalHarmonics { timestamp_us: 500, coefficients: [0.0; SH_COEFF_COUNT], _padding: [0; 4] }).is_ok());
    let mut last = 0;
    while let Some(s) = bus.pop_sh() {
        last = s.timestamp_us;
    }
    assert_eq!(last, 500);

    let mut bus = Bus::in_memory();
    for i in 0..AUDIO_SLOTS as u64 {
        bus.push_audio(AudioChunk { timestamp_us: i, sample_rate: 0, frame_count: 0, samples: [0.0; AUDIO_CHUNK_FRAMES] })
            .unwrap();
    }
    let err = bus
        .push_audio(AudioChunk { timestamp_us: 99, sample_rate: 0, frame_count: 0, samples: [0.0; AUDIO_CHUNK_FRAMES] })
        .unwrap_err();
    assert_eq!(err.ring, RingId::Audio);
    assert_eq!(err.capacity, AUDIO_SLOTS);
}

#[test]
fn align_up_rounds_to_the_next_multiple() {
    assert_eq!(align_up(0, 64), 0);
    assert_eq!(align_up(1, 64), 64);
    assert_eq!(align_up(64, 64), 64);
    assert_eq!(align_up(65, 64), 128);
    assert_eq!(align_up(42112, 64), 42112);
    assert_eq!(align_up(69888 + 128, 64), 70016);
    assert_eq!(align_up(70016 + 6144, 64), 76160);
    assert_eq!(align_up(5, 1), 5);
    assert_eq!(align_up(9, 8), 16);
}
