//! Pure audio conditioning: stereo-to-mono downmix and linear resampling.
//!
//! Samples are fixed-point: an `i32` with 16 fractional bits, so
//! `SAMPLE_UNIT` stands for a full-scale amplitude of one. Both
//! conditioning steps are deterministic single-pass algorithms; the
//! resampler interpolates linearly and performs no filtering, so
//! aliasing on downsampling is an accepted accuracy trade-off.

use vstd::prelude::*;
use vstd::arithmetic::div_mod::{
    lemma_fundamental_div_mod, lemma_div_is_ordered, lemma_div_multiples_vanish,
    lemma_multiply_divide_lt, lemma_remainder_lower,
    lemma_div_pos_is_pos, lemma_mod_division_less_than_divisor, lemma_div_of0,
};
use vstd::arithmetic::mul::{
    lemma_mul_inequality, lemma_mul_is_commutative,
    lemma_mul_left_inequality, lemma_mul_nonnegative, lemma_mul_upper_bound,
};

verus! {

/// Fixed-point scale of one audio sample: `65536` stands for `1.0`.
pub const SAMPLE_UNIT: i32 = 65536;

/// Capture configuration: the rate every frame is resampled to.
#[derive(Debug, Clone)]
pub struct AudioConfig {
    /// Target sample rate in Hz.
    pub target_sample_rate: u32,
}

impl Default for AudioConfig {
    /// The default target rate is 16 kHz, the rate the engines expect.
    fn default() -> (c: AudioConfig)
        ensures
            c.target_sample_rate == 16000,
    {
        AudioConfig { target_sample_rate: 16000 }
    }
}

/// Failures of the capture session. All are terminal for the `start`
/// call that raised them; there is no automatic retry.
#[derive(Debug, Clone, PartialEq, Eq)]
pub enum MicrophoneError {
    /// No default input device is available.
    NoDevice,
    /// The device cannot report a default configuration.
    ConfigError(String),
    /// The device refused to build, start or stop the stream.
    StreamError(String),
    /// The capture thread was never started.
    NotStarted,
}

/// Integer division truncating toward zero (the rounding the fixed-point
/// sample arithmetic uses), defined for positive divisors.
pub open spec fn tdiv(a: int, b: int) -> int
    recommends
        b > 0,
{
    if a >= 0 {
        a / b
    } else {
        -((-a) / b)
    }
}

/// Sum of the `count` samples starting at `start`.
pub open spec fn group_sum(s: Seq<i32>, start: int, count: int) -> int
    decreases count,
{
    if count <= 0 {
        0
    } else {
        group_sum(s, start, count - 1) + s[start + count - 1]
    }
}

/// The mono sample for group `i`: the truncated average of the group's
/// `ch` interleaved channel samples.
pub open spec fn mono_sample(s: Seq<i32>, ch: int, i: int) -> int
    recommends
        ch >= 1,
{
    tdiv(group_sum(s, i * ch, ch), ch)
}

/// Downmix: one channel passes through unchanged; otherwise each
/// contiguous group of `channels` samples becomes its average, and a
/// trailing partial group is dropped.
pub open spec fn stereo_to_mono_spec(s: Seq<i32>, channels: u16) -> Seq<i32>
    recommends
        channels >= 1,
{
    if channels == 1 {
        s
    } else {
        Seq::new(
            s.len() / (channels as nat),
            |i: int| mono_sample(s, channels as int, i) as i32,
        )
    }
}

/// Length of the resampled signal: `floor(n * target / source)`.
pub open spec fn resample_len(n: nat, source_rate: u32, target_rate: u32) -> nat
    recommends
        source_rate >= 1,
{
    ((n * target_rate) / (source_rate as int)) as nat
}

/// Output sample `i` of the resampler: the linear interpolation between
/// the two source samples bracketing position `i * source / target`,
/// the upper index clamped to the last valid one.
pub open spec fn interp_at(s: Seq<i32>, source_rate: int, target_rate: int, i: int) -> int
    recommends
        source_rate >= 1,
        target_rate >= 1,
        s.len() >= 1,
{
    let pos = i * source_rate;
    let idx = pos / target_rate;
    let rem = pos % target_rate;
    let idx2 = if idx + 1 < s.len() {
        idx + 1
    } else {
        s.len() - 1
    };
    s[idx] + tdiv((s[idx2] - s[idx]) * rem, target_rate)
}

/// Resampling: equal rates pass the signal through unchanged (no
/// precision loss); otherwise every output sample is a linear
/// interpolation of its two bracketing source samples.
pub open spec fn resample_spec(s: Seq<i32>, source_rate: u32, target_rate: u32) -> Seq<i32>
    recommends
        source_rate == target_rate || (source_rate >= 1 && target_rate >= 1),
{
    if source_rate == target_rate {
        s
    } else {
        Seq::new(
            resample_len(s.len(), source_rate, target_rate),
            |i: int| interp_at(s, source_rate as int, target_rate as int, i) as i32,
        )
    }
}

/// Resampling at equal rates is the identity, for any rate.
pub proof fn lemma_resample_identity(s: Seq<i32>, rate: u32)
    ensures
        resample_spec(s, rate, rate) == s,
{
}

/// The resampled signal has exactly `floor(len * target / source)` samples.
pub proof fn lemma_resample_length(s: Seq<i32>, source_rate: u32, target_rate: u32)
    requires
        source_rate >= 1,
        target_rate >= 1,
    ensures
        resample_spec(s, source_rate, target_rate).len()
            == ((s.len() * target_rate) / (source_rate as int)) as nat,
{
    if source_rate == target_rate {
        lemma_div_multiples_vanish(s.len() as int, source_rate as int);
        lemma_mul_is_commutative(s.len() as int, source_rate as int);
    }
}

/// Downmixing a single-channel signal passes it through unchanged.
pub proof fn lemma_mono_passthrough(s: Seq<i32>)
    ensures
        stereo_to_mono_spec(s, 1) == s,
{
}

/// The sum of `count` samples is bounded by `count` times the sample range.
proof fn lemma_group_sum_bounds(s: Seq<i32>, start: int, count: int)
    requires
        count >= 0,
    ensures
        count * (i32::MIN as int) <= group_sum(s, start, count) <= count * (i32::MAX as int),
    decreases count,
{
    if count > 0 {
        lemma_group_sum_bounds(s, start, count - 1);
    }
}

/// Copy a sample buffer; the identity paths of the conditioning
/// functions return a fresh copy of their input.
fn copy_samples(s: &Vec<i32>) -> (r: Vec<i32>)
    ensures
        r@ == s@,
{
    let mut out: Vec<i32> = Vec::new();
    let mut i: usize = 0;
    while i < s.len()
        invariant
            i <= s@.len(),
            out@ == s@.take(i as int),
        decreases s@.len() - i,
    {
        out.push(s[i]);
        i = i + 1;
        proof {
            assert(out@ =~= s@.take(i as int));
        }
    }
    proof {
        assert(out@ =~= s@);
    }
    out
}

/// Downmix interleaved samples to mono. One channel is passed through
/// unchanged; otherwise each contiguous group of `channels` samples is
/// averaged into one mono sample, and a trailing partial group is
/// dropped rather than rejected.
pub fn stereo_to_mono(samples: &Vec<i32>, channels: u16) -> (r: Vec<i32>)
    requires
        channels >= 1,
    ensures
        r@ == stereo_to_mono_spec(samples@, channels),
        channels == 1 ==> r@ == samples@,
{
    if channels == 1 {
        return copy_samples(samples);
    }
    let ch: usize = channels as usize;
    let out_len: usize = samples.len() / ch;
    proof {
        lemma_fundamental_div_mod(samples@.len() as int, ch as int);
        lemma_remainder_lower(samples@.len() as int, ch as int);
    }
    let mut out: Vec<i32> = Vec::new();
    let mut i: usize = 0;
    while i < out_len
        invariant
            channels >= 2,
            ch == channels as usize,
            samples@.len() <= usize::MAX as nat,
            out_len == samples@.len() / (ch as nat),
            (out_len * ch) <= samples@.len(),
            i <= out_len,
            out@.len() == i as nat,
            forall|k: int|
                0 <= k < i ==> out@[k] == mono_sample(samples@, ch as int, k) as i32,
        decreases out_len - i,
    {
        proof {
            lemma_mul_inequality(i as int + 1, out_len as int, ch as int);
            lemma_mul_nonnegative(i as int, ch as int);
            assert((i as int + 1) * (ch as int) <= (out_len as int) * (ch as int));
            assert((i as int) * (ch as int) + (ch as int) == (i as int + 1) * (ch as int))
                by (nonlinear_arith);
            assert((i as int) * (ch as int) + (ch as int) <= (out_len as int) * (ch as int));
            assert((i as int) * (ch as int) + (ch as int) <= samples@.len());
        }
        let base: usize = i * ch;
        proof {
            lemma_group_sum_bounds(samples@, base as int, ch as int);
        }
        let mut acc: i64 = 0;
        let mut j: usize = 0;
        while j < ch
            invariant
                ch >= 1,
                samples@.len() <= usize::MAX as nat,
                base + ch <= samples@.len(),
                base == i as int * ch as int,
                j <= ch,
                acc == group_sum(samples@, base as int, j as int),
                (j as int) * (i32::MIN as int) <= acc <= (j as int) * (i32::MAX as int),
                ch <= u16::MAX as usize,
            decreases ch - j,
        {
            acc = acc + samples[base + j] as i64;
            j = j + 1;
        }
        let avg: i64 = if acc >= 0 {
            ((acc as u64) / (ch as u64)) as i64
        } else {
            proof {
                lemma_div_pos_is_pos(-(acc as int), ch as int);
            }
            -((((-acc) as u64) / (ch as u64)) as i64)
        };
        proof {
            let sum = group_sum(samples@, base as int, ch as int);
            assert(acc == sum);
            if sum >= 0 {
                lemma_div_is_ordered(sum, ch as int * (i32::MAX as int), ch as int);
                lemma_div_multiples_vanish(i32::MAX as int, ch as int);
                lemma_div_pos_is_pos(sum, ch as int);
            } else {
                lemma_div_is_ordered(-sum, ch as int * (-(i32::MIN as int)), ch as int);
                lemma_div_multiples_vanish(-(i32::MIN as int), ch as int);
                lemma_div_pos_is_pos(-sum, ch as int);
            }
            assert(i32::MIN as int <= avg as int <= i32::MAX as int);
            assert(avg as int == tdiv(sum, ch as int));
            assert(avg as int == mono_sample(samples@, ch as int, i as int));
        }
        out.push(avg as i32);
        i = i + 1;
    }
    proof {
        assert(out@ =~= stereo_to_mono_spec(samples@, channels));
    }
    out
}

/// Resample by linear interpolation from `source_rate` to `target_rate`.
/// Equal rates return the input unchanged. The output holds
/// `floor(len * target / source)` samples; sample `i` interpolates
/// between the source samples bracketing position `i * source / target`.
pub fn resample(samples: &Vec<i32>, source_rate: u32, target_rate: u32) -> (r: Vec<i32>)
    requires
        source_rate == target_rate || (source_rate >= 1 && target_rate >= 1
            && (samples@.len() * target_rate) / (source_rate as int) <= usize::MAX as int),
    ensures
        r@ == resample_spec(samples@, source_rate, target_rate),
        source_rate == target_rate ==> r@ == samples@,
{
    if source_rate == target_rate {
        return copy_samples(samples);
    }
    let n: u128 = samples.len() as u128;
    let sr: u128 = source_rate as u128;
    let tr: u128 = target_rate as u128;
    proof {
        lemma_mul_upper_bound(n as int, u64::MAX as int, tr as int, u32::MAX as int);
        lemma_mul_nonnegative(n as int, tr as int);
        lemma_div_pos_is_pos(n as int * tr as int, sr as int);
    }
    let out_len: usize = ((n * tr) / sr) as usize;
    let mut out: Vec<i32> = Vec::new();
    let mut i: usize = 0;
    while i < out_len
        invariant
            source_rate >= 1,
            target_rate >= 1,
            source_rate != target_rate,
            samples@.len() <= usize::MAX as nat,
            n == samples@.len() as u128,
            sr == source_rate as u128,
            tr == target_rate as u128,
            out_len as nat == resample_len(samples@.len(), source_rate, target_rate),
            i <= out_len,
            out@.len() == i as nat,
            forall|k: int|
                0 <= k < i ==> out@[k] == interp_at(
                    samples@,
                    source_rate as int,
                    target_rate as int,
                    k,
                ) as i32,
        decreases out_len - i,
    {
        proof {
            lemma_mul_upper_bound(i as int, usize::MAX as int, sr as int, u32::MAX as int);
        }
        let pos: u128 = (i as u128) * sr;
        let idx128: u128 = pos / tr;
        let rem: u128 = pos % tr;
        proof {
            // i < out_len == (n * tr) / sr forces idx == pos / tr < n.
            let ni = n as int;
            let sri = sr as int;
            let tri = tr as int;
            let ii = i as int;
            let q = (ni * tri) / sri;
            lemma_mul_upper_bound(ni, u64::MAX as int, tri, u32::MAX as int);
            lemma_mul_nonnegative(ni, tri);
            lemma_remainder_lower(ni * tri, sri);
            lemma_mul_is_commutative(q, sri);
            assert(sri * q <= ni * tri);
            lemma_mul_inequality(ii + 1, out_len as int, sri);
            lemma_mul_is_commutative(out_len as int, sri);
            assert((ii + 1) * sri <= q * sri);
            assert((ii + 1) * sri <= ni * tri);
            assert(ii * sri + sri == (ii + 1) * sri) by (nonlinear_arith);
            assert(ii * sri <= ni * tri - sri);
            lemma_mul_nonnegative(ii, sri);
            lemma_div_is_ordered(ii * sri, ni * tri - 1, tri);
            lemma_mul_is_commutative(ni, tri);
            lemma_multiply_divide_lt(ni * tri - 1, tri, ni);
            assert((ii * sri) / tri < ni);
            lemma_div_pos_is_pos(ii * sri, tri);
            lemma_mod_division_less_than_divisor(ii * sri, tri);
            assert(pos as int == ii * sri);
            assert(idx128 < n);
            assert(rem < tr);
        }
        let idx: usize = idx128 as usize;
        let idx2: usize = if idx + 1 < samples.len() {
            idx + 1
        } else {
            samples.len() - 1
        };
        let a: i32 = samples[idx];
        let b: i32 = samples[idx2];
        let val: i64 = if b >= a {
            proof {
                lemma_mul_upper_bound(b as int - a as int, 0xFFFF_FFFF, rem as int, 0xFFFF_FFFF);
                lemma_interp_step_bound(b as int - a as int, rem as int, tr as int);
            }
            let mag: u128 = ((b as i64 - a as i64) as u128) * rem;
            a as i64 + ((mag / tr) as i64)
        } else {
            proof {
                lemma_mul_upper_bound(a as int - b as int, 0xFFFF_FFFF, rem as int, 0xFFFF_FFFF);
                lemma_interp_step_bound(a as int - b as int, rem as int, tr as int);
            }
            let mag: u128 = ((a as i64 - b as i64) as u128) * rem;
            a as i64 - ((mag / tr) as i64)
        };
        proof {
            let ii = i as int;
            let sri = source_rate as int;
            let tri = target_rate as int;
            let posi = ii * sri;
            let ai = a as int;
            let bi = b as int;
            let remi = rem as int;
            assert(idx as int == posi / tri);
            assert(remi == posi % tri);
            assert(a == samples@[posi / tri]);
            assert(b == samples@[
                if posi / tri + 1 < samples@.len() {
                    posi / tri + 1
                } else {
                    samples@.len() - 1
                }
            ]);
            if b >= a {
                lemma_mul_nonnegative(bi - ai, remi);
                assert(val as int == ai + ((bi - ai) * remi) / tri);
                assert(tdiv((bi - ai) * remi, tri) == ((bi - ai) * remi) / tri);
            } else {
                assert(-((bi - ai) * remi) == (ai - bi) * remi) by (nonlinear_arith);
                lemma_mul_nonnegative(ai - bi, remi);
                assert(val as int == ai - ((ai - bi) * remi) / tri);
                if (bi - ai) * remi >= 0 {
                    assert((ai - bi) * remi <= 0);
                    assert((ai - bi) * remi == 0);
                    lemma_div_of0(tri);
                    assert(tdiv((bi - ai) * remi, tri) == 0);
                } else {
                    assert(tdiv((bi - ai) * remi, tri) == -(((ai - bi) * remi) / tri));
                }
            }
            assert(val as int == interp_at(
                samples@,
                source_rate as int,
                target_rate as int,
                i as int,
            ));
            assert(i32::MIN as int <= val as int <= i32::MAX as int);
        }
        out.push(val as i32);
        i = i + 1;
    }
    proof {
        assert(out@ =~= resample_spec(samples@, source_rate, target_rate));
    }
    out
}

/// The interpolation step `diff * rem / tr` never exceeds `diff` when
/// `0 <= rem < tr`, so every interpolated sample stays between its two
/// bracketing source samples.
proof fn lemma_interp_step_bound(diff: int, rem: int, tr: int)
    requires
        diff >= 0,
        0 <= rem < tr,
    ensures
        0 <= (diff * rem) / tr <= diff,
{
    lemma_mul_nonnegative(diff, rem);
    lemma_div_pos_is_pos(diff * rem, tr);
    if diff > 0 {
        lemma_mul_left_inequality(diff, rem, tr);
        lemma_div_is_ordered(diff * rem, diff * tr, tr);
        lemma_mul_is_commutative(diff, tr);
        lemma_div_multiples_vanish(diff, tr);
    } else {
        lemma_div_of0(tr);
    }
}

/// The whole conditioning step the capture callback performs on one
/// hardware buffer: downmix to mono, then resample to the target rate.
pub fn mix_and_resample(
    samples: &Vec<i32>,
    channels: u16,
    source_rate: u32,
    target_rate: u32,
) -> (r: Vec<i32>)
    requires
        channels >= 1,
        source_rate == target_rate || (source_rate >= 1 && target_rate >= 1
            && (stereo_to_mono_spec(samples@, channels).len() * target_rate)
                / (source_rate as int) <= usize::MAX as int),
    ensures
        r@ == resample_spec(stereo_to_mono_spec(samples@, channels), source_rate, target_rate),
{
    let mono = stereo_to_mono(samples, channels);
    resample(&mono, source_rate, target_rate)
}

} // verus!
