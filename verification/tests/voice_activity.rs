use std::f32::consts::PI;

use voice_changer::audio::chunker::{CaptureStep, ChunkDecision, SpeechChunker};
use voice_changer::audio::timing::{
    adjust_poll, drift_window_complete, echo_deadline, edge_fade_len, extend_gate, is_echo_gated,
    playback_ms,
    poll_interval_ms, ClockDrift,
};
use voice_changer::audio::vad::VadState;

fn sine_wave(n_samples: usize, sample_rate: u32, freq: f32, amplitude: f32) -> Vec<f32> {
    (0..n_samples)
        .map(|i| amplitude * (2.0 * PI * freq * i as f32 / sample_rate as f32).sin())
        .collect()
}

fn silence(n_samples: usize) -> Vec<f32> {
    vec![0.0f32; n_samples]
}

/// Energy detector over the verified hysteresis: a frame is loud when its
/// mean energy in dB exceeds the threshold.
struct Vad {
    threshold: f32,
    state: VadState,
}

impl Vad {
    fn new(threshold: f32, pre_roll: usize, post_roll: usize) -> Self {
        Vad { threshold, state: VadState::new(pre_roll, post_roll) }
    }

    fn process(&mut self, frame: &[f32]) -> bool {
        let energy: f32 = frame.iter().map(|s| s * s).sum::<f32>() / frame.len() as f32;
        let energy_db = 10.0 * energy.log10().max(-60.0);
        self.state.observe(energy_db > self.threshold)
    }
}

#[test]
fn vad_silence_not_detected_as_speech() {
    let mut vad = Vad::new(-35.0, 2, 3);
    let frame = silence(4800);
    for _ in 0..5 {
        assert!(!vad.process(&frame), "silence should not be speech");
    }
}

#[test]
fn vad_loud_sine_detected_as_speech() {
    let mut vad = Vad::new(-35.0, 2, 3);
    let frame = sine_wave(4800, 48_000, 300.0, 0.8);
    let _ = vad.process(&frame);
    let detected = vad.process(&frame);
    assert!(detected, "loud sine should be detected as speech after pre_roll");
}

#[test]
fn vad_speech_then_silence_clears_after_post_roll() {
    let mut vad = Vad::new(-35.0, 1, 3);
    let speech = sine_wave(4800, 48_000, 300.0, 0.8);
    let quiet = silence(4800);

    vad.process(&speech);
    assert!(vad.process(&speech));

    vad.process(&quiet);
    vad.process(&quiet);
    let after = vad.process(&quiet);
    assert!(!after, "should clear speech after post_roll silence frames");
}

#[test]
fn vad_threshold_boundary() {
    let mut vad = Vad::new(-35.0, 1, 1);
    let soft = sine_wave(4800, 48_000, 300.0, 0.018);
    let loud = sine_wave(4800, 48_000, 300.0, 0.08);

    assert!(!vad.process(&soft), "soft audio below threshold");
    assert!(vad.process(&loud), "loud audio above threshold");
}

#[test]
fn vad_state_counts_rolls() {
    let mut v = VadState::new(2, 3);
    assert!(!v.observe(true));
    assert!(v.observe(true));
    assert!(v.observe(false));
    assert!(v.observe(false));
    assert!(!v.observe(false));
    assert!(!v.is_speech());
    assert!(v.can_observe(true));
}

#[test]
fn vad_loud_frame_resets_silence() {
    let mut v = VadState::new(1, 2);
    assert!(v.observe(true));
    assert!(v.observe(false));
    assert!(v.observe(true));
    assert!(v.observe(false));
    assert!(!v.observe(false));
}

fn frame(value: i32, n: usize) -> Vec<i32> {
    vec![value; n]
}

#[test]
fn chunker_frames_captured_samples() {
    // 100 samples per second: 10-sample frames.
    let mut c: SpeechChunker<i32> = SpeechChunker::new(100);
    assert!(c.push_samples(&[1, 2, 3, 4, 5, 6]).is_none());
    let f = c.push_samples(&[7, 8, 9, 10, 11, 12]).unwrap();
    assert_eq!(f, vec![1, 2, 3, 4, 5, 6, 7, 8, 9, 10]);
    let f2 = c.push_samples(&[13, 14, 15, 16, 17, 18, 19, 20]).unwrap();
    assert_eq!(f2, vec![11, 12, 13, 14, 15, 16, 17, 18, 19, 20]);
}

#[test]
fn chunker_dispatches_utterance_when_speech_stops() {
    let mut c: SpeechChunker<i32> = SpeechChunker::new(100);
    // Speech starts on the second loud frame (pre-roll 2).
    for _ in 0..3 {
        assert!(matches!(c.push_frame(frame(1, 10), true), ChunkDecision::Pending));
    }
    // Speech ends after six quiet frames (post-roll 6); the chunk is then sent.
    for _ in 0..5 {
        assert!(matches!(c.push_frame(frame(0, 10), false), ChunkDecision::Pending));
    }
    match c.push_frame(frame(0, 10), false) {
        ChunkDecision::Dispatch(chunk) => {
            assert_eq!(chunk.len(), 90);
            assert_eq!(&chunk[..30], &frame(1, 30)[..]);
        },
        _ => panic!("utterance should be dispatched when speech stops"),
    }
}

#[test]
fn chunker_drops_silent_window() {
    let mut c: SpeechChunker<i32> = SpeechChunker::new(100);
    // 1.5 s window = 150 samples = 15 quiet frames, then the window closes empty.
    for _ in 0..14 {
        assert!(matches!(c.push_frame(frame(0, 10), false), ChunkDecision::Pending));
    }
    assert!(matches!(c.push_frame(frame(0, 10), false), ChunkDecision::DropSilent));
}

#[test]
fn chunker_splits_continuous_speech_at_window() {
    let mut c: SpeechChunker<i32> = SpeechChunker::new(100);
    let mut sent = Vec::new();
    for _ in 0..40 {
        if let ChunkDecision::Dispatch(chunk) = c.push_frame(frame(7, 10), true) {
            sent.push(chunk.len());
        }
    }
    assert_eq!(sent, vec![150, 150]);
}

#[test]
fn chunker_bypass_discards_everything() {
    let mut c: SpeechChunker<i32> = SpeechChunker::new(100);
    assert!(c.push_samples(&[1, 2, 3]).is_none());
    assert!(matches!(c.push_frame(frame(1, 10), true), ChunkDecision::Pending));
    c.bypass();
    // The old partial frame is gone: a full new frame is needed.
    assert!(c.push_samples(&[9; 7]).is_none());
    assert_eq!(c.push_samples(&[9; 3]).unwrap(), vec![9; 10]);
}

#[test]
fn chunker_gate_discards_unframed_samples() {
    let mut c: SpeechChunker<i32> = SpeechChunker::new(100);
    assert!(c.push_samples(&[1, 2, 3, 4, 5]).is_none());
    c.gate();
    assert!(c.push_samples(&[6, 7, 8, 9, 10]).is_none());
    assert_eq!(c.push_samples(&[11, 12, 13, 14, 15]).unwrap(), vec![6, 7, 8, 9, 10, 11, 12, 13, 14, 15]);
}

#[test]
fn echo_gate_covers_chunk_and_margin() {
    // 48000 stereo samples at 48 kHz, 2 channels = 500 ms.
    assert_eq!(playback_ms(48_000, 48_000, 2), 500);
    assert_eq!(echo_deadline(1_000, 48_000, 48_000, 2), 1_700);
    assert!(is_echo_gated(1_699, 1_700));
    assert!(!is_echo_gated(1_700, 1_700));
}

#[test]
fn poll_adjustment_stays_in_range() {
    assert_eq!(adjust_poll(-5, ClockDrift::CaptureAhead), -5);
    assert_eq!(adjust_poll(0, ClockDrift::CaptureAhead), -1);
    assert_eq!(adjust_poll(10, ClockDrift::CaptureBehind), 10);
    assert_eq!(adjust_poll(3, ClockDrift::CaptureBehind), 4);
    assert_eq!(adjust_poll(3, ClockDrift::InStep), 3);
    assert_eq!(poll_interval_ms(-5), 5);
    assert_eq!(poll_interval_ms(-20), 1);
    assert!(drift_window_complete(48_000, 48_000));
    assert!(!drift_window_complete(47_999, 48_000));
}

#[test]
fn edge_fade_is_five_ms() {
    assert_eq!(edge_fade_len(48_000), 240);
    assert_eq!(edge_fade_len(44_100), 220);
}

#[test]
fn capture_step_follows_switches() {
    let mut c: SpeechChunker<i32> = SpeechChunker::new(100);
    assert!(matches!(c.capture(&[1; 6], true, false), CaptureStep::Waiting));
    assert!(matches!(c.capture(&[2; 6], true, true), CaptureStep::Gated));
    assert!(matches!(c.capture(&[3; 6], true, false), CaptureStep::Waiting));
    match c.capture(&[4; 6], true, false) {
        CaptureStep::Frame(f) => assert_eq!(f, vec![3, 3, 3, 3, 3, 3, 4, 4, 4, 4]),
        _ => panic!("a whole frame was available"),
    }
    assert!(matches!(c.capture(&[5; 20], false, false), CaptureStep::Bypass));
    assert!(matches!(c.capture(&[6; 9], true, false), CaptureStep::Waiting));
}

#[test]
fn dispatched_chunks_are_whole_frames_within_bounds() {
    // 100 samples per second: 10-sample frames, 20..=150-sample chunks.
    let mut c: SpeechChunker<i32> = SpeechChunker::new(100);
    let pattern = [true, true, false, false, false, false, false, false, true, true, true, false];
    let mut sent = Vec::new();
    for i in 0..120 {
        let loud = pattern[i % pattern.len()] || (40..70).contains(&i);
        if !c.can_take_frame(loud) {
            break;
        }
        if let ChunkDecision::Dispatch(chunk) = c.push_frame(frame(i as i32, 10), loud) {
            sent.push(chunk.len());
        }
    }
    assert!(!sent.is_empty());
    for len in sent {
        assert_eq!(len % 10, 0);
        assert!((20..=150).contains(&len));
    }
}

#[test]
fn echo_gate_keeps_the_latest_deadline() {
    assert_eq!(extend_gate(0, 1_700), 1_700);
    assert_eq!(extend_gate(1_700, 1_200), 1_700);
    assert_eq!(extend_gate(1_700, 2_400), 2_400);
    let first = echo_deadline(1_000, 48_000, 48_000, 2);
    let second = echo_deadline(1_100, 4_800, 48_000, 2);
    let gate = extend_gate(extend_gate(0, first), second);
    assert_eq!(gate, 1_700);
    assert!(is_echo_gated(1_650, gate));
    assert!(!is_echo_gated(1_700, gate));
}

#[test]
fn poll_interval_stays_in_range_over_a_session() {
    let drifts = [
        ClockDrift::CaptureAhead,
        ClockDrift::CaptureAhead,
        ClockDrift::CaptureBehind,
        ClockDrift::InStep,
    ];
    let mut adjust: i64 = 0;
    for i in 0..200 {
        let drift = if i < 50 {
            ClockDrift::CaptureAhead
        } else if i < 120 {
            ClockDrift::CaptureBehind
        } else {
            drifts[i % drifts.len()]
        };
        let next = adjust_poll(adjust, drift);
        assert!((next - adjust).abs() <= 1);
        assert!((-5..=10).contains(&next));
        let ms = poll_interval_ms(next);
        assert!((5..=20).contains(&ms));
        adjust = next;
    }
}

#[test]
fn chunk_limits_at_48_khz() {
    // 4800-sample frames; chunks of 9600 to 72000 samples.
    let mut c: SpeechChunker<i16> = SpeechChunker::new(48_000);
    let mut sent = Vec::new();
    for i in 0..60 {
        let loud = i % 20 < 4;
        if let ChunkDecision::Dispatch(chunk) = c.push_frame(vec![1i16; 4800], loud) {
            sent.push(chunk.len());
        }
    }
    assert!(!sent.is_empty());
    for len in sent {
        assert_eq!(len % 4800, 0);
        assert!((9_600..=72_000).contains(&len));
    }
}
