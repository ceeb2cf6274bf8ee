//! Tests for the WAV payload encoder.

use dictea::audio::SAMPLE_UNIT;
use dictea::wav::encode_wav;

#[test]
fn wav_bytes_of_known_samples() {
    // Full scale, negative full scale, silence, and one half.
    let samples = vec![SAMPLE_UNIT, -SAMPLE_UNIT, 0, SAMPLE_UNIT / 2];
    let wav = encode_wav(&samples);
    let mut expected: Vec<u8> = Vec::new();
    expected.extend_from_slice(b"RIFF");
    expected.extend_from_slice(&44u32.to_le_bytes()); // 36 + 8 data bytes
    expected.extend_from_slice(b"WAVE");
    expected.extend_from_slice(b"fmt ");
    expected.extend_from_slice(&16u32.to_le_bytes());
    expected.extend_from_slice(&1u16.to_le_bytes()); // PCM
    expected.extend_from_slice(&1u16.to_le_bytes()); // mono
    expected.extend_from_slice(&16000u32.to_le_bytes());
    expected.extend_from_slice(&32000u32.to_le_bytes());
    expected.extend_from_slice(&2u16.to_le_bytes());
    expected.extend_from_slice(&16u16.to_le_bytes());
    expected.extend_from_slice(b"data");
    expected.extend_from_slice(&8u32.to_le_bytes());
    expected.extend_from_slice(&32767i16.to_le_bytes());
    expected.extend_from_slice(&(-32767i16).to_le_bytes());
    expected.extend_from_slice(&0i16.to_le_bytes());
    expected.extend_from_slice(&16383i16.to_le_bytes()); // 0.5 * 32767 truncated
    assert_eq!(wav, expected);
}

#[test]
fn wav_clamps_out_of_range_samples() {
    let samples = vec![2 * SAMPLE_UNIT, -2 * SAMPLE_UNIT, i32::MAX, i32::MIN];
    let wav = encode_wav(&samples);
    let pcm = &wav[44..];
    assert_eq!(&pcm[0..2], &32767i16.to_le_bytes());
    assert_eq!(&pcm[2..4], &(-32768i16).to_le_bytes());
    assert_eq!(&pcm[4..6], &32767i16.to_le_bytes());
    assert_eq!(&pcm[6..8], &(-32768i16).to_le_bytes());
}

#[test]
fn wav_of_empty_buffer_is_header_only() {
    let wav = encode_wav(&Vec::new());
    assert_eq!(wav.len(), 44);
    assert_eq!(&wav[0..4], b"RIFF");
    assert_eq!(&wav[36..40], b"data");
    assert_eq!(&wav[40..44], &0u32.to_le_bytes());
}
