use std::sync::Arc;
use miranda::asr::{ffi_sample_count, AsrError, Decoder};
use miranda::conversation::{MoodVector, StateMachine};
use miranda::dispatcher::{
    generator_seeds, mix32, pace_frame, stage_samples, DispatchStats, FrameTiming, FRAME_PERIOD_NS,
};
use miranda::verify::{counter_failures, CounterCriterion, CounterReadings, FrameHistory, TimestampObserver};
use miranda::viseme::Viseme;
use miranda::arkit;
use miranda::channel::keep_open;
use miranda::core_types::BLENDSHAPE_COUNT;
use miranda::wiring::StatsSource;

#[test]
fn test_state_machine() {
    let mut m = StateMachine::new();
    m.transition(&MoodVector, &["hello".to_string()], Some("ctx"));
}

#[test]
fn parses_every_polly_viseme_token() {
    let tokens = ["sil", "p", "f", "T", "t", "s", "S", "k", "r", "a", "e", "i", "o", "u", "@"];
    for t in tokens {
        assert!(Viseme::from_polly(t).is_some(), "documented Polly viseme {t:?} must parse");
    }
}

#[test]
fn rejects_unknown_viseme_token() {
    assert_eq!(Viseme::from_polly("zzz"), None);
    assert_eq!(Viseme::from_polly(""), None);
    assert_ne!(Viseme::from_polly("T"), Viseme::from_polly("t"));
}

#[test]
fn polly_tokens_map_to_their_visemes() {
    assert_eq!(Viseme::from_polly("sil"), Some(Viseme::Sil));
    assert_eq!(Viseme::from_polly("T"), Some(Viseme::T));
    assert_eq!(Viseme::from_polly("t"), Some(Viseme::TT));
    assert_eq!(Viseme::from_polly("S"), Some(Viseme::SS));
    assert_eq!(Viseme::from_polly("@"), Some(Viseme::At));
    assert_eq!(Viseme::from_polly("si"), None);
    assert_eq!(Viseme::from_polly("SIL"), None);
}

#[test]
fn empty_samples_short_circuit_without_ffi_call() {
    let samples: [f32; 0] = [];
    assert_eq!(samples.len(), 0);
    assert_eq!(ffi_sample_count(samples.len()), Ok(None));
}

#[test]
fn sample_count_is_range_checked() {
    assert_eq!(ffi_sample_count(16_000), Ok(Some(16_000)));
    assert_eq!(ffi_sample_count(i32::MAX as usize), Ok(Some(i32::MAX)));
    assert_eq!(ffi_sample_count(i32::MAX as usize + 1), Err(AsrError::TooManySamples(i32::MAX as usize + 1)));
}

#[test]
fn decoder_codes_match_the_c_api() {
    assert_eq!(Decoder::Default.code(), 0);
    assert_eq!(Decoder::Ctc.code(), 1);
    assert_eq!(Decoder::Transducer.code(), 2);
}

fn make_stats(
    published: u64,
    dropped: u64,
    late: u64,
    failures: u64,
    total_build_ns: u64,
    max_build_ns: u64,
    audio: u64,
) -> Arc<DispatchStats> {
    let mut s = DispatchStats::new();
    s.frames_published = published;
    s.frames_dropped = dropped;
    s.late_frames = late;
    s.publish_failures = failures;
    s.total_build_ns = total_build_ns;
    s.max_build_ns = max_build_ns;
    s.audio_chunks_consumed = audio;
    Arc::new(s)
}

#[test]
fn all_fields_are_forwarded_correctly() {
    let stats = make_stats(1801, 0, 2, 3, 21_570_000, 1_102_301, 360);
    let src = StatsSource::new(stats);
    assert_eq!(src.frames_published(), 1801);
    assert_eq!(src.frames_dropped(), 0);
    assert_eq!(src.late_frames(), 2);
    assert_eq!(src.publish_failures(), 3);
    let mean = src.total_build_ns() as f64 / src.frames_published() as f64 / 1000.0;
    assert!((mean - 11.977).abs() < 0.01, "mean_build_us {mean:.4} not close to expected 11.977");
    let max = src.max_build_ns() as f64 / 1000.0;
    assert!((max - 1102.3).abs() < 0.01, "max_build_us {max:.4} not close to expected 1102.3");
    assert_eq!(src.audio_chunks_consumed(), 360);
}

#[test]
fn mean_is_zero_before_any_frames() {
    let stats = make_stats(0, 0, 0, 0, 0, 0, 0);
    let src = StatsSource::new(stats);
    assert_eq!(src.frames_published(), 0);
    assert_eq!(src.total_build_ns(), 0);
}

#[test]
fn stats_source_is_send_and_sync() {
    fn assert_ss<T: Send + Sync>() {}
    assert_ss::<StatsSource>();
}

#[test]
fn record_build_keeps_total_and_running_maximum() {
    let mut s = DispatchStats::new();
    s.record_build(500);
    s.record_build(2_000);
    s.record_build(700);
    assert_eq!(s.total_build_ns, 3_200);
    assert_eq!(s.max_build_ns, 2_000);
    s.record_publish(true);
    s.record_publish(false);
    s.record_chunks(3);
    assert_eq!((s.frames_published, s.publish_failures, s.audio_chunks_consumed), (1, 1, 3));
}

#[test]
fn pacing_classifies_on_time_late_and_dropped_frames() {
    let p = FRAME_PERIOD_NS;
    assert_eq!(pace_frame(100, 1_000, p), (FrameTiming::OnTime, 1_000 + p));
    assert_eq!(pace_frame(1_000, 1_000, p), (FrameTiming::OnTime, 1_000 + p));
    assert_eq!(pace_frame(1_000 + p - 1, 1_000, p), (FrameTiming::Late, 1_000 + p));
    assert_eq!(pace_frame(1_000 + p, 1_000, p), (FrameTiming::Dropped(1), 1_000 + 2 * p));
    assert_eq!(pace_frame(1_000 + 3 * p + 5, 1_000, p), (FrameTiming::Dropped(3), 1_000 + 4 * p + 5));
    let mut s = DispatchStats::new();
    s.record_timing(FrameTiming::Dropped(3));
    s.record_timing(FrameTiming::Late);
    s.record_timing(FrameTiming::OnTime);
    assert_eq!((s.frames_dropped, s.late_frames), (3, 1));
}

#[test]
fn seeds_are_folded_and_decorrelated() {
    let (blink, gaze, breath) = generator_seeds(7);
    assert_eq!(blink, 7);
    assert_ne!(gaze, breath);
    assert_eq!(gaze, mix32(7 ^ 0x9E37_79B9_7F4A_7C15));
    // Seeds differing only above bit 32 must not fold to the same value.
    assert_ne!(mix32(1), mix32(1 | (1 << 40)));
    assert_eq!(mix32(0), 0);
}

#[test]
fn stage_samples_copies_whole_chunks() {
    // Staging three full chunks copies all of their samples.
    let mut staging: Vec<f32> = Vec::with_capacity(1600);
    for _ in 0..3 {
        assert!(!stage_samples(&mut staging, 1600, &[0.5f32; 160], 160));
    }
    assert_eq!(staging.len(), 3 * 160);
}

#[test]
fn stage_samples_clamps_the_frame_count() {
    let mut staging: Vec<f32> = Vec::with_capacity(1600);
    assert!(!stage_samples(&mut staging, 1600, &[0.25f32; 160], 10_000));
    assert_eq!(staging.len(), 160);
}

#[test]
fn stage_samples_stops_when_full() {
    let mut staging: Vec<f32> = Vec::with_capacity(1600);
    let mut stopped = false;
    for _ in 0..20 {
        if stage_samples(&mut staging, 1600, &[0.1f32; 160], 160) {
            stopped = true;
            break;
        }
    }
    assert!(staging.len() <= 1600);
    assert_eq!(staging.len(), 1600);
    // Ten chunks fill the buffer exactly; the eleventh has no room.
    assert!(stopped);
}

#[test]
fn observer_counts_gaps_and_disorder() {
    let mut o = TimestampObserver::new();
    for ts in [0u64, 16_667, 33_334, 33_334, 100_000] {
        o.observe(ts, 26_665);
    }
    assert_eq!(o.frames, 5);
    assert_eq!(o.non_monotonic, 1);
    assert_eq!(o.gap_count, 3);
    assert_eq!(o.min_gap_us, 16_667);
    assert_eq!(o.max_gap_us, 66_666);
    assert_eq!(o.gap_total_us, 100_000);
    assert_eq!(o.drop_gaps, 1);
    assert_eq!(o.reported_min_gap_us(), 16_667);
    assert_eq!(TimestampObserver::new().reported_min_gap_us(), 0);
}

const ALL_VISEMES: [Viseme; 15] = [
    Viseme::Sil, Viseme::P, Viseme::F, Viseme::T, Viseme::TT, Viseme::S,
    Viseme::SS, Viseme::K, Viseme::R, Viseme::A, Viseme::E, Viseme::I,
    Viseme::O, Viseme::U, Viseme::At,
];

#[test]
fn visemes_never_touch_autonomic_channels() {
    let forbidden: Vec<usize> = (arkit::EYE_BLINK_LEFT..=arkit::EYE_WIDE_RIGHT)
        .chain(arkit::BROW_DOWN_LEFT..=arkit::BROW_OUTER_UP_RIGHT)
        .chain(arkit::CHEEK_SQUINT_LEFT..=arkit::CHEEK_SQUINT_RIGHT)
        .collect();

    for v in ALL_VISEMES {
        for channel in v.target_channels() {
            assert!(
                !forbidden.contains(&channel),
                "viseme {v:?} writes to autonomic-owned channel {channel} ({}) — speech and autonomic layers must not contend",
                arkit::CHANNEL_NAMES[channel]
            );
        }
    }
}

#[test]
fn viseme_target_channels_are_in_range_and_named() {
    for v in ALL_VISEMES {
        for channel in v.target_channels() {
            assert!(channel < BLENDSHAPE_COUNT, "viseme {v:?} targets channel {channel}, out of range");
        }
    }
    assert!(Viseme::Sil.target_channels().is_empty());
    assert_eq!(
        Viseme::P.target_channels(),
        vec![arkit::MOUTH_CLOSE, arkit::JAW_OPEN, arkit::MOUTH_PUCKER]
    );
    assert_eq!(Viseme::T.target_channels(), vec![17, 51]);
}

#[test]
fn keep_open_keeps_exactly_the_open_entries_in_order() {
    let kept = keep_open(vec!['a', 'b', 'c', 'd'], &vec![false, true, true, false]);
    assert_eq!(kept, vec!['a', 'd']);
    let none: Vec<u8> = keep_open(vec![1, 2], &vec![true, true]);
    assert!(none.is_empty());
}

#[test]
fn counter_failures_list_every_nonzero_counter_in_report_order() {
    let clean = CounterReadings {
        frames_consumed: 1800,
        frames_dropped: 0,
        gaps_implying_a_drop: 0,
        identical_consecutive_frames: 0,
        repeated_frames: 0,
        non_monotonic_timestamps: 0,
        out_of_range_values: 0,
    };
    assert!(counter_failures(&clean).is_empty());

    let bad = CounterReadings { frames_dropped: 2, repeated_frames: 1, out_of_range_values: 7, ..clean };
    assert_eq!(
        counter_failures(&bad),
        vec![CounterCriterion::FramesDropped, CounterCriterion::RepeatedFrames, CounterCriterion::OutOfRangeValues]
    );

    let empty = CounterReadings { frames_consumed: 0, ..bad };
    assert_eq!(counter_failures(&empty), vec![CounterCriterion::NothingConsumed]);
}

#[test]
fn frame_history_flags_exact_repeats_only() {
    let mut h = FrameHistory::new();
    assert!(!h.record(vec![1, 2, 3]));
    assert!(!h.record(vec![1, 2, 4]));
    assert!(!h.record(vec![1, 2]));
    assert!(h.record(vec![1, 2, 3]));
    assert!(h.record(vec![1, 2]));
    assert_eq!(h.distinct(), 3);
}
