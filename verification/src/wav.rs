//! Encoding of a mono sample buffer as a 16 kHz, 16-bit PCM WAV payload,
//! the format every dispatched inference request carries.
//!
//! A fixed-point sample `s` (16 fractional bits) becomes the PCM value
//! `clamp(s * 32767 / 65536, -32768, 32767)`, written little-endian after
//! the canonical 44-byte RIFF header.

use vstd::prelude::*;
use vstd::arithmetic::div_mod::{lemma_mod_add_multiples_vanish, lemma_small_mod};
use crate::audio::tdiv;

verus! {

/// The 16-bit PCM value of one fixed-point sample: scaled by
/// `32767 / 65536`, truncated toward zero, clamped to the PCM range.
pub open spec fn clamp_pcm(s: int) -> int {
    let q = tdiv(s * 32767, 65536);
    if q > 32767 {
        32767
    } else if q < -32768 {
        -32768
    } else {
        q
    }
}

/// Little-endian bytes of a 16-bit value (two's complement for
/// negative values).
pub open spec fn le16(v: int) -> Seq<u8> {
    let u = v % 65536;
    seq![(u % 256) as u8, (u / 256) as u8]
}

/// Little-endian bytes of a 32-bit value.
pub open spec fn le32(v: int) -> Seq<u8> {
    let u = v % 0x100000000;
    seq![
        (u % 256) as u8,
        ((u / 256) % 256) as u8,
        ((u / 65536) % 256) as u8,
        ((u / 16777216) % 256) as u8,
    ]
}

/// The canonical 44-byte RIFF/WAVE header for `n` mono 16-bit samples
/// at 16 kHz: chunk ids, chunk sizes, PCM format tag, one channel,
/// sample rate, byte rate, block alignment and bit depth.
#[verifier::opaque]
pub open spec fn wav_header(n: nat) -> Seq<u8> {
    seq![0x52u8, 0x49u8, 0x46u8, 0x46u8] + le32(36 + 2 * n as int) + seq![
        0x57u8,
        0x41u8,
        0x56u8,
        0x45u8,
    ] + seq![0x66u8, 0x6du8, 0x74u8, 0x20u8] + le32(16) + le16(1) + le16(1) + le32(16000) + le32(
        32000,
    ) + le16(2) + le16(16) + seq![0x64u8, 0x61u8, 0x74u8, 0x61u8] + le32(2 * n as int)
}

/// The PCM data chunk: every sample clamped and written little-endian.
pub open spec fn pcm_bytes(s: Seq<i32>) -> Seq<u8>
    decreases s.len(),
{
    if s.len() == 0 {
        Seq::empty()
    } else {
        pcm_bytes(s.drop_last()) + le16(clamp_pcm(s.last() as int))
    }
}

/// The complete WAV payload: header followed by the PCM data.
pub open spec fn wav_bytes(s: Seq<i32>) -> Seq<u8> {
    wav_header(s.len()) + pcm_bytes(s)
}

/// The PCM chunk holds two bytes per sample.
pub proof fn lemma_pcm_bytes_len(s: Seq<i32>)
    ensures
        pcm_bytes(s).len() == 2 * s.len(),
    decreases s.len(),
{
    if s.len() > 0 {
        lemma_pcm_bytes_len(s.drop_last());
    }
}

/// The WAV payload holds the 44-byte header and two bytes per sample.
pub proof fn lemma_wav_bytes_len(s: Seq<i32>)
    ensures
        wav_bytes(s).len() == 44 + 2 * s.len(),
{
    reveal(wav_header);
    lemma_pcm_bytes_len(s);
}

/// Appending one sample extends the PCM chunk by its two bytes.
proof fn lemma_pcm_bytes_snoc(s: Seq<i32>, i: int)
    requires
        0 <= i < s.len(),
    ensures
        pcm_bytes(s.take(i + 1)) == pcm_bytes(s.take(i)) + le16(clamp_pcm(s[i] as int)),
{
    assert(s.take(i + 1).drop_last() =~= s.take(i));
    assert(s.take(i + 1).last() == s[i]);
}

/// Convert one fixed-point sample to its clamped 16-bit PCM value.
fn pcm_of_sample(s: i32) -> (p: i16)
    ensures
        p as int == clamp_pcm(s as int),
{
    let wide: i64 = (s as i64) * 32767;
    let q: i64 = if wide >= 0 {
        ((wide as u64) / 65536) as i64
    } else {
        -((((-wide) as u64) / 65536) as i64)
    };
    if q > 32767 {
        32767
    } else if q < -32768 {
        -32768
    } else {
        q as i16
    }
}

/// Append the little-endian bytes of a 16-bit value.
fn push_le16(out: &mut Vec<u8>, v: u16)
    ensures
        final(out)@ == old(out)@ + le16(v as int),
{
    out.push((v % 256) as u8);
    out.push((v / 256) as u8);
    proof {
        assert(out@ =~= old(out)@ + le16(v as int));
    }
}

/// Append the little-endian bytes of a 32-bit value.
fn push_le32(out: &mut Vec<u8>, v: u32)
    ensures
        final(out)@ == old(out)@ + le32(v as int),
{
    out.push((v % 256) as u8);
    out.push(((v / 256) % 256) as u8);
    out.push(((v / 65536) % 256) as u8);
    out.push(((v / 16777216) % 256) as u8);
    proof {
        assert(out@ =~= old(out)@ + le32(v as int));
    }
}

/// Encode a mono fixed-point buffer as a complete 16 kHz, 16-bit PCM
/// WAV payload. The length bound keeps the RIFF chunk size inside its
/// 32-bit header field.
#[verifier::rlimit(30)]
pub fn encode_wav(samples: &Vec<i32>) -> (r: Vec<u8>)
    requires
        36 + 2 * samples@.len() <= u32::MAX as nat,
    ensures
        r@ == wav_bytes(samples@),
{
    let n: usize = samples.len();
    let data_size: u32 = 2 * (n as u32);
    let mut out: Vec<u8> = Vec::new();
    out.push(0x52);
    out.push(0x49);
    out.push(0x46);
    out.push(0x46);
    push_le32(&mut out, 36 + data_size);
    out.push(0x57);
    out.push(0x41);
    out.push(0x56);
    out.push(0x45);
    out.push(0x66);
    out.push(0x6d);
    out.push(0x74);
    out.push(0x20);
    push_le32(&mut out, 16);
    push_le16(&mut out, 1);
    push_le16(&mut out, 1);
    push_le32(&mut out, 16000);
    push_le32(&mut out, 32000);
    push_le16(&mut out, 2);
    push_le16(&mut out, 16);
    out.push(0x64);
    out.push(0x61);
    out.push(0x74);
    out.push(0x61);
    push_le32(&mut out, data_size);
    proof {
        reveal(wav_header);
        assert(out@ =~= wav_header(samples@.len()));
    }
    let ghost header = out@;
    let mut i: usize = 0;
    while i < n
        invariant
            n == samples@.len(),
            i <= n,
            header == wav_header(samples@.len()),
            out@ == header + pcm_bytes(samples@.take(i as int)),
        decreases n - i,
    {
        let p: i16 = pcm_of_sample(samples[i]);
        let u: u16 = if p >= 0 {
            p as u16
        } else {
            ((p as i32) + 65536) as u16
        };
        proof {
            lemma_mod_add_multiples_vanish(p as int, 65536);
            if p >= 0 {
                lemma_small_mod(p as nat, 65536);
            } else {
                lemma_small_mod((p + 65536) as nat, 65536);
            }
            assert(u as int == (p as int) % 65536);
            lemma_small_mod(u as nat, 65536);
        }
        push_le16(&mut out, u);
        proof {
            assert(le16(u as int) == le16(clamp_pcm(samples@[i as int] as int)));
            lemma_pcm_bytes_snoc(samples@, i as int);
            assert(out@ =~= header + pcm_bytes(samples@.take(i as int + 1)));
        }
        i = i + 1;
    }
    proof {
        assert(samples@.take(n as int) =~= samples@);
    }
    out
}

} // verus!
