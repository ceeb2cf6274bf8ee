//! Tests for the audio conditioning functions.

use dictea::audio::{mix_and_resample, resample, stereo_to_mono, SAMPLE_UNIT};

#[test]
fn resample_identity_same_rate() {
    let s = vec![1, -2, 3, 40000, -65536];
    assert_eq!(resample(&s, 44100, 44100), s);
    assert_eq!(resample(&s, 16000, 16000), s);
    assert_eq!(resample(&s, 0, 0), s);
}

#[test]
fn resample_length_formula() {
    let s = vec![0i32; 480];
    assert_eq!(resample(&s, 48000, 16000).len(), 160);
    let s7 = vec![0i32; 7];
    assert_eq!(resample(&s7, 3, 2).len(), 4);
    assert_eq!(resample(&s7, 2, 3).len(), 10);
    let empty: Vec<i32> = Vec::new();
    assert_eq!(resample(&empty, 48000, 16000).len(), 0);
}

#[test]
fn resample_downsample_values() {
    // Ramp 0, 1000, 2000, 3000 from rate 3 to rate 2:
    // output position i sits at source position i * 3/2.
    let s = vec![0, 1000, 2000, 3000];
    let r = resample(&s, 3, 2);
    assert_eq!(r, vec![0, 1500]);
}

#[test]
fn resample_upsample_values() {
    // Doubling the rate interpolates midpoints and clamps at the end.
    let s = vec![0, 1000];
    let r = resample(&s, 1, 2);
    assert_eq!(r, vec![0, 500, 1000, 1000]);
}

#[test]
fn mono_passthrough() {
    let s = vec![5, -6, 7];
    assert_eq!(stereo_to_mono(&s, 1), s);
}

#[test]
fn mixdown_averaging() {
    // Samples 1.0, -1.0, 0.5, 0.5 in two channels average to 0.0, 0.5.
    let half = SAMPLE_UNIT / 2;
    let s = vec![SAMPLE_UNIT, -SAMPLE_UNIT, half, half];
    assert_eq!(stereo_to_mono(&s, 2), vec![0, half]);
}

#[test]
fn mixdown_drops_trailing_partial_group() {
    let s = vec![100, 200, 300];
    assert_eq!(stereo_to_mono(&s, 2), vec![150]);
}

#[test]
fn mixdown_truncates_toward_zero() {
    assert_eq!(stereo_to_mono(&vec![0, 3], 2), vec![1]);
    assert_eq!(stereo_to_mono(&vec![0, -3], 2), vec![-1]);
}

#[test]
fn end_to_end_capture_conditioning() {
    // A 480-sample stereo buffer of full-scale samples at 48 kHz
    // becomes 80 full-scale mono samples at 16 kHz.
    let s = vec![SAMPLE_UNIT; 480];
    let r = mix_and_resample(&s, 2, 48000, 16000);
    assert_eq!(r.len(), 80);
    assert!(r.iter().all(|&v| v == SAMPLE_UNIT));
}
