use std::f32::consts::PI;

use voice_changer::audio::channels::{expand_channels, mono_to_stereo, stereo_to_mono};
use voice_changer::audio::resample::resample_linear;

/// Generate a sine wave of `n_samples` samples.
fn sine_wave(n_samples: usize, sample_rate: u32, freq: f32, amplitude: f32) -> Vec<f32> {
    (0..n_samples)
        .map(|i| amplitude * (2.0 * PI * freq * i as f32 / sample_rate as f32).sin())
        .collect()
}

/// Average of a left/right pair.
fn average(a: f32, b: f32) -> f32 {
    (a + b) * 0.5
}

/// Linear interpolation between two samples by the fraction `num / den`.
fn lerp(s0: f32, s1: f32, num: u32, den: u32) -> f32 {
    s0 + (s1 - s0) * (num as f32 / den as f32)
}

fn downmix_stereo_to_mono(input: &[f32]) -> Vec<f32> {
    stereo_to_mono(input, average)
}

fn resample_mono(input: &[f32], in_rate: u32, out_rate: u32) -> Vec<f32> {
    resample_linear(input, 1, in_rate, out_rate, 0.0, lerp)
}

#[test]
fn mono_to_stereo_doubles_samples() {
    let mono: Vec<f32> = vec![0.1, 0.2, 0.3, 0.4];
    let stereo = mono_to_stereo(&mono);
    assert_eq!(stereo.len(), mono.len() * 2);
    assert_eq!(stereo, vec![0.1, 0.1, 0.2, 0.2, 0.3, 0.3, 0.4, 0.4]);
}

#[test]
fn stereo_to_mono_averages_pairs() {
    let stereo: Vec<f32> = vec![0.2, 0.4, 0.6, 0.8];
    let mono = downmix_stereo_to_mono(&stereo);
    assert_eq!(mono.len(), 2);
    assert!((mono[0] - 0.3).abs() < 1e-6);
    assert!((mono[1] - 0.7).abs() < 1e-6);
}

#[test]
fn mono_to_stereo_then_back_to_mono_is_identity() {
    let signal = sine_wave(100, 48_000, 440.0, 0.5);
    let stereo = mono_to_stereo(&signal);
    let back = downmix_stereo_to_mono(&stereo);
    for (a, b) in signal.iter().zip(back.iter()) {
        assert!((a - b).abs() < 1e-6, "roundtrip failed: {} != {}", a, b);
    }
}

#[test]
fn expand_mono_to_stereo_doubles() {
    let stereo = expand_channels(&[0.1f32, 0.2], 1, 2, average);
    assert_eq!(stereo, vec![0.1, 0.1, 0.2, 0.2]);
}

#[test]
fn resample_passthrough_same_rate() {
    let input = vec![0.1f32, 0.2, 0.3];
    assert_eq!(resample_linear(&input, 1, 48_000, 48_000, 0.0, lerp), input);
}

#[test]
fn resample_upsample_correct_length() {
    let input = sine_wave(4800, 48_000, 440.0, 0.5);
    let output = resample_mono(&input, 48_000, 96_000);
    assert_eq!(output.len(), 9600, "2x upsample → double length");
}

#[test]
fn resample_downsample_correct_length() {
    let input = sine_wave(48_000, 48_000, 440.0, 0.5);
    let output = resample_mono(&input, 48_000, 16_000);
    assert_eq!(output.len(), 16_000, "48k→16k → 1/3 length");
}

#[test]
fn resample_same_rate_is_passthrough() {
    let input = sine_wave(1000, 48_000, 440.0, 0.5);
    let output = resample_mono(&input, 48_000, 48_000);
    assert_eq!(input, output);
}

#[test]
fn resample_44100_to_48000_expected_length() {
    let samples_44k = sine_wave(44_100, 44_100, 440.0, 0.5);
    let samples_48k = resample_mono(&samples_44k, 44_100, 48_000);
    assert_eq!(samples_48k.len(), 48_000);
}

#[test]
fn expand_stereo_to_mono_mixes_pairs() {
    let mono = expand_channels(&[1.0f32, 3.0, -2.0, 2.0], 2, 1, average);
    assert_eq!(mono, vec![2.0, 0.0]);
}

#[test]
fn expand_other_layouts_pass_through() {
    let input = vec![1.0f32, 2.0, 3.0];
    assert_eq!(expand_channels(&input, 2, 2, average), input);
    assert_eq!(expand_channels(&input, 1, 6, average), input);
}

#[test]
fn resample_interpolates_between_frames() {
    // 2 frames at rate 1 upsampled to rate 2: positions 0, 0.5, 1, 1.5.
    let out = resample_linear(&[0.0f32, 1.0], 1, 1, 2, 0.0, lerp);
    assert_eq!(out, vec![0.0, 0.5, 1.0, 1.0]);
}

#[test]
fn resample_stereo_keeps_channels_apart() {
    // Interleaved L/R: L = 0, 2 and R = 10, 30; halving the rate keeps frame 0.
    let out = resample_linear(&[0.0f32, 10.0, 2.0, 30.0], 2, 2, 1, 0.0, lerp);
    assert_eq!(out, vec![0.0, 10.0]);
}

#[test]
fn resample_integer_samples_exact() {
    // The interpolation is supplied by the caller; here integers, rounding down.
    let out = resample_linear(&[0i32, 30, 60], 1, 3, 2, 0, |a: i32, b: i32, n: u32, d: u32| {
        a + (b - a) * n as i32 / d as i32
    });
    // Output frames: 3 * 2 / 3 = 2, at positions 0 and 1.5.
    assert_eq!(out, vec![0, 45]);
}
