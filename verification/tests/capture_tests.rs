use miranda::bus::MirandaBus;
use miranda::capture::{chunk_from_samples, on_audio_data};
use miranda::core_types::{AudioChunk, AUDIO_CHUNK_FRAMES, BLENDSHAPE_COUNT};

type Bus = MirandaBus<AudioChunk<f32>, [f32; BLENDSHAPE_COUNT], u64>;

#[test]
fn test_chunk_size() {
    let mut bus = Bus::in_memory();
    let mut dropped = 0u64;
    let data = [0.5f32; AUDIO_CHUNK_FRAMES];

    on_audio_data(&data, 0.0, 0, &mut bus, &mut dropped);

    let chunk = bus.pop_audio().expect("one chunk was pushed");
    assert_eq!(chunk.frame_count, 160);
    assert_eq!(chunk.sample_rate, 16_000);
    assert_eq!(dropped, 0);
}

#[test]
fn short_buffer_is_zero_padded_not_truncated_incorrectly() {
    let mut bus = Bus::in_memory();
    let mut dropped = 0u64;
    let data = [0.25f32; 100];

    on_audio_data(&data, 0.0, 0, &mut bus, &mut dropped);

    let chunk = bus.pop_audio().expect("chunk was pushed despite short input");
    assert_eq!(chunk.frame_count, 100, "reported count matches actual samples received");
    assert_eq!(&chunk.samples[..100], &[0.25f32; 100][..]);
    assert_eq!(
        &chunk.samples[100..],
        &[0.0f32; AUDIO_CHUNK_FRAMES - 100][..],
        "unfilled tail must be zero, not garbage"
    );
}

#[test]
fn oversized_buffer_does_not_panic_or_overflow() {
    let mut bus = Bus::in_memory();
    let mut dropped = 0u64;
    let data = [0.9f32; AUDIO_CHUNK_FRAMES + 40];

    on_audio_data(&data, 0.0, 0, &mut bus, &mut dropped);

    let chunk = bus.pop_audio().expect("chunk was pushed");
    assert_eq!(chunk.frame_count, AUDIO_CHUNK_FRAMES as u32);
    assert_eq!(chunk.samples, [0.9f32; AUDIO_CHUNK_FRAMES]);
}

#[test]
fn full_ring_increments_dropped_counter_not_panic() {
    let mut bus = Bus::in_memory();
    let mut dropped = 0u64;
    let data = [0.1f32; AUDIO_CHUNK_FRAMES];

    for _ in 0..64 {
        on_audio_data(&data, 0.0, 0, &mut bus, &mut dropped);
    }
    assert_eq!(dropped, 0, "ring should not be full yet");

    on_audio_data(&data, 0.0, 0, &mut bus, &mut dropped);
    assert_eq!(dropped, 1, "one push must have been dropped");
}

#[test]
fn capture_never_touches_blendshape_bus() {
    let mut bus = Bus::in_memory();
    let mut dropped = 0u64;
    let data = [0.0f32; AUDIO_CHUNK_FRAMES];
    on_audio_data(&data, 0.0, 0, &mut bus, &mut dropped);
    assert!(bus.pop_blendshape().is_none(), "capture.rs must never write blendshapes");
}

#[test]
fn chunk_carries_its_timestamp_and_the_leading_samples() {
    let data: Vec<i16> = (0..200).collect();
    let c = chunk_from_samples(&data, -1, 42);
    assert_eq!(c.timestamp_us, 42);
    assert_eq!(c.frame_count, 160);
    assert_eq!(c.samples[0], 0);
    assert_eq!(c.samples[159], 159);

    let c = chunk_from_samples(&data[..3], -1, 7);
    assert_eq!(c.frame_count, 3);
    assert_eq!(&c.samples[..4], &[0, 1, 2, -1]);
    assert_eq!(c.samples[159], -1);
}

#[test]
fn accepted_flag_reports_the_push_and_the_counter_wraps() {
    let mut bus = MirandaBus::<AudioChunk<u8>, u8, u8>::in_memory();
    let mut dropped = u64::MAX;
    for _ in 0..64 {
        assert!(on_audio_data(&[1u8], 0, 0, &mut bus, &mut dropped));
    }
    assert!(!on_audio_data(&[1u8], 0, 0, &mut bus, &mut dropped));
    assert_eq!(dropped, 0);
}
