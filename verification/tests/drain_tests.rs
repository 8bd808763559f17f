use miranda::bus::MirandaBus;
use miranda::core_types::{AudioChunk, AUDIO_CHUNK_FRAMES, AUDIO_SAMPLE_RATE_HZ};
use miranda::dispatcher::{drain_audio, AUDIO_STAGING_SAMPLES, MAX_CHUNKS_PER_FRAME};

type Bus = MirandaBus<AudioChunk<f32>, u64, u64>;

fn chunk(samples: &[f32], timestamp_us: u64) -> AudioChunk<f32> {
    let mut c = AudioChunk {
        timestamp_us,
        sample_rate: AUDIO_SAMPLE_RATE_HZ,
        frame_count: samples.len().min(AUDIO_CHUNK_FRAMES) as u32,
        samples: [0.0; AUDIO_CHUNK_FRAMES],
    };
    let n = c.frame_count as usize;
    c.samples[..n].copy_from_slice(&samples[..n]);
    c
}

fn speech_chunk(timestamp_us: u64) -> AudioChunk<f32> {
    let s: Vec<f32> = (0..AUDIO_CHUNK_FRAMES)
        .map(|i| {
            let t = i as f32 / AUDIO_SAMPLE_RATE_HZ as f32;
            0.3 * (std::f32::consts::TAU * 730.0 * t).sin()
                + 0.2 * (std::f32::consts::TAU * 1090.0 * t).sin()
        })
        .collect();
    chunk(&s, timestamp_us)
}

#[test]
fn drain_reads_all_available_chunks_up_to_the_cap() {
    let mut bus = Bus::in_memory();
    let mut staged: Vec<f32> = Vec::new();

    for i in 0..3u64 {
        bus.push_audio(speech_chunk(i)).unwrap();
    }
    assert_eq!(drain_audio(&mut bus, &mut staged), 3);
    assert_eq!(staged.len(), 3 * AUDIO_CHUNK_FRAMES);

    // Nothing left.
    assert_eq!(drain_audio(&mut bus, &mut staged), 0);
    assert_eq!(staged.len(), 0);
}

#[test]
fn drain_is_bounded_when_the_ring_is_flooded() {
    let mut bus = Bus::in_memory();
    let mut staged: Vec<f32> = Vec::new();
    let mut pushed = 0;
    for i in 0..10_000u64 {
        if bus.push_audio(speech_chunk(i)).is_err() {
            break;
        }
        pushed += 1;
    }
    assert!(pushed > MAX_CHUNKS_PER_FRAME, "ring too small to test the cap");

    let taken = drain_audio(&mut bus, &mut staged);
    assert!(
        taken <= MAX_CHUNKS_PER_FRAME,
        "drained {taken} chunks, over the {MAX_CHUNKS_PER_FRAME} cap"
    );
}

#[test]
fn oversized_frame_count_is_clamped_not_trusted() {
    let mut bus = Bus::in_memory();
    let mut staged: Vec<f32> = Vec::new();

    let mut c = speech_chunk(0);
    c.frame_count = u32::MAX;
    bus.push_audio(c).unwrap();

    assert_eq!(drain_audio(&mut bus, &mut staged), 1);
    assert_eq!(
        staged.len(),
        AUDIO_CHUNK_FRAMES,
        "frame_count was trusted over the real array length"
    );
}

#[test]
fn staging_buffer_cannot_overflow() {
    let mut bus = Bus::in_memory();
    let mut staged: Vec<f32> = Vec::new();
    for i in 0..MAX_CHUNKS_PER_FRAME as u64 {
        let _ = bus.push_audio(speech_chunk(i));
    }
    drain_audio(&mut bus, &mut staged);
    assert!(staged.len() <= AUDIO_STAGING_SAMPLES);
}

#[test]
fn a_chunk_that_finds_the_buffer_full_is_consumed_and_stops_the_drain() {
    let mut bus = MirandaBus::<AudioChunk<u16>, u64, u64>::in_memory();
    let mut staged: Vec<u16> = Vec::new();
    for i in 0..12u16 {
        let mut c = AudioChunk {
            timestamp_us: i as u64,
            sample_rate: AUDIO_SAMPLE_RATE_HZ,
            frame_count: AUDIO_CHUNK_FRAMES as u32,
            samples: [i; AUDIO_CHUNK_FRAMES],
        };
        c.samples[0] = 1000 + i;
        bus.push_audio(c).unwrap();
    }
    // Ten whole chunks fill the 1600-sample buffer exactly; the tenth had
    // no samples to spare, so the eleventh is taken off the ring, adds
    // nothing, and ends the drain; the twelfth stays queued.
    let taken = drain_audio(&mut bus, &mut staged);
    assert_eq!(taken, 11);
    assert_eq!(staged.len(), AUDIO_STAGING_SAMPLES);
    assert_eq!(staged[0], 1000);
    assert_eq!(staged[1], 0);
    assert_eq!(staged[9 * AUDIO_CHUNK_FRAMES], 1009);
    assert_eq!(staged[AUDIO_STAGING_SAMPLES - 1], 9);
    let next = bus.pop_audio().unwrap();
    assert_eq!(next.timestamp_us, 11);
}

#[test]
fn a_short_chunk_contributes_only_its_valid_samples() {
    let mut bus = Bus::in_memory();
    let mut staged: Vec<f32> = vec![9.0; 5];
    bus.push_audio(chunk(&[0.25, 0.5, 0.75], 7)).unwrap();
    assert_eq!(drain_audio(&mut bus, &mut staged), 1);
    assert_eq!(staged, vec![0.25, 0.5, 0.75]);
}
