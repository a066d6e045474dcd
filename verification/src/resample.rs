//! Rate conversion: adapts a finished mono buffer from its native capture
//! rate to the engine's fixed 16 kHz input rate.
//!
//! A source buffer at an equal rate passes through unchanged. Otherwise the
//! output holds `floor(len * 16000 / rate)` samples, each interpolated
//! between the two nearest source samples at its rational source position.

use vstd::prelude::*;
use crate::level::{all_in_range, sample_in_range};
use vstd::arithmetic::div_mod::{
    lemma_div_is_ordered, lemma_div_multiples_vanish, lemma_div_pos_is_pos,
    lemma_fundamental_div_mod, lemma_fundamental_div_mod_converse_div,
    lemma_fundamental_div_mod_converse_mod, lemma_mod_bound, lemma_mod_multiples_basic,
};

verus! {

/// The engine's fixed input rate in Hz.
pub const TARGET_RATE: u32 = 16000;

/// Why a buffer could not be resampled.
#[derive(Clone, Copy, PartialEq, Eq, Structural, Debug)]
pub enum ResampleError {
    /// The claimed source rate is zero: no ratio can be formed.
    InvalidRate,
}

/// Number of output samples for `len` input samples at `rate` Hz.
pub open spec fn resampled_len(len: int, rate: int) -> int {
    (len * 16000) / rate
}

/// The whole part of output index `i`'s position in the source buffer.
pub open spec fn src_index(i: int, rate: int) -> int {
    (i * rate) / 16000
}

/// The fractional part, in sixteen-thousandths, of that position.
pub open spec fn src_frac(i: int, rate: int) -> int {
    (i * rate) % 16000
}

/// The value of output sample `i`: linear interpolation between the two
/// source samples around its position; the final source sample is held
/// where no successor exists.
pub open spec fn resample_at(s: Seq<i32>, rate: int, i: int) -> int {
    let idx = src_index(i, rate);
    let f = src_frac(i, rate);
    if idx + 1 < s.len() {
        s[idx] + ((s[idx + 1] - s[idx]) * f) / 16000
    } else {
        s[idx] as int
    }
}

/// The output length follows the rate ratio to within one sample of
/// rounding: `resampled_len` is the largest count whose span at `rate`
/// does not exceed the input's span at 16000.
pub proof fn lemma_resample_length_ratio(len: int, rate: int)
    requires
        0 <= len,
        1 <= rate,
    ensures
        rate * resampled_len(len, rate) <= len * 16000,
        len * 16000 < rate * (resampled_len(len, rate) + 1),
        0 <= resampled_len(len, rate),
{
    let q = resampled_len(len, rate);
    let m = (len * 16000) % rate;
    lemma_fundamental_div_mod(len * 16000, rate);
    lemma_mod_bound(len * 16000, rate);
    assert(rate * (q + 1) == rate * q + rate) by (nonlinear_arith);
    assert(len * 16000 >= 0) by (nonlinear_arith)
        requires len >= 0;
    lemma_div_pos_is_pos(len * 16000, rate);
}

/// Every valid output index reads source samples in bounds.
pub proof fn lemma_src_index_bounds(len: int, rate: int, i: int)
    requires
        1 <= rate,
        0 <= i < resampled_len(len, rate),
    ensures
        0 <= src_index(i, rate) < len,
        0 <= src_frac(i, rate) < 16000,
        i * rate <= len * 16000 - rate,
{
    let q = resampled_len(len, rate);
    assert(len >= 0) by {
        if len < 0 {
            assert(len * 16000 < 0) by (nonlinear_arith)
                requires len < 0;
            lemma_div_is_ordered(len * 16000, 0, rate);
            assert(0int / rate == 0) by {
                lemma_div_multiples_vanish(0, rate);
            }
        }
    }
    lemma_resample_length_ratio(len, rate);
    assert(i * rate <= (q - 1) * rate && (q - 1) * rate == q * rate - rate
        && q * rate == rate * q && i * rate >= 0) by (nonlinear_arith)
        requires
            0 <= i <= q - 1,
            rate >= 1,
    ;
    // i * rate <= rate * q - rate <= len * 16000 - rate
    lemma_div_is_ordered(i * rate, len * 16000 - rate, 16000);
    lemma_div_is_ordered(len * 16000 - rate, len * 16000 - 1, 16000);
    assert(len * 16000 - 1 == 16000 * (len - 1) + 15999) by (nonlinear_arith);
    lemma_fundamental_div_mod_converse_div(len * 16000 - 1, 16000, len - 1, 15999);
    lemma_div_pos_is_pos(i * rate, 16000);
    lemma_mod_bound(i * rate, 16000);
}

/// A linear interpolation between two in-range samples stays in range.
proof fn lemma_lerp_in_range(a: int, b: int, f: int)
    requires
        sample_in_range(a),
        sample_in_range(b),
        0 <= f < 16000,
    ensures
        sample_in_range(a + ((b - a) * f) / 16000),
{
    let d = b - a;
    lemma_div_multiples_vanish(d, 16000);
    assert((16000 * d) == (d * 16000)) by (nonlinear_arith);
    if d >= 0 {
        assert(0 <= d * f <= d * 16000) by (nonlinear_arith)
            requires d >= 0, 0 <= f <= 16000;
        lemma_div_is_ordered(0, d * f, 16000);
        lemma_div_is_ordered(d * f, d * 16000, 16000);
    } else {
        assert(d * 16000 <= d * f <= 0) by (nonlinear_arith)
            requires d < 0, 0 <= f <= 16000;
        lemma_div_is_ordered(d * 16000, d * f, 16000);
        lemma_div_is_ordered(d * f, 0, 16000);
    }
}

/// At an equal source and target rate every output sample is the input
/// sample at the same index: resampling is the identity there.
pub proof fn lemma_resample_identity(s: Seq<i32>, i: int)
    requires
        0 <= i < s.len(),
    ensures
        resample_at(s, 16000, i) == s[i],
{
    lemma_div_multiples_vanish(i, 16000);
    lemma_mod_multiples_basic(i, 16000);
    assert(i * 16000 == 16000 * i) by (nonlinear_arith);
    assert(src_index(i, 16000) == i);
    assert(src_frac(i, 16000) == 0);
    if i + 1 < s.len() {
        assert((s[i + 1] - s[i]) * 0 == 0) by (nonlinear_arith);
        assert(0int / 16000 == 0) by {
            lemma_div_multiples_vanish(0, 16000);
        }
    }
}

/// Resampling an all-zero buffer yields only zeros: interpolation between
/// silent samples is silent.
pub proof fn lemma_resample_silence(s: Seq<i32>, rate: int, i: int)
    requires
        1 <= rate,
        0 <= i < resampled_len(s.len() as int, rate),
        forall|k: int| 0 <= k < s.len() ==> s[k] == 0,
    ensures
        resample_at(s, rate, i) == 0,
{
    lemma_src_index_bounds(s.len() as int, rate, i);
    let idx = src_index(i, rate);
    let f = src_frac(i, rate);
    if idx + 1 < s.len() {
        assert(s[idx] == 0 && s[idx + 1] == 0);
        assert((0int - 0int) * f == 0) by (nonlinear_arith);
        assert(0int / 16000 == 0) by {
            lemma_div_multiples_vanish(0, 16000);
        }
    }
}

/// Converts a mono buffer captured at `source_rate` Hz to 16000 Hz. An
/// equal-rate buffer is returned unchanged, bit for bit; a zero rate is
/// rejected; otherwise the output holds exactly
/// `floor(len * 16000 / source_rate)` interpolated samples.
pub fn resample_to_16khz(samples: &Vec<i32>, source_rate: u32) -> (r: Result<Vec<i32>, ResampleError>)
    requires
        all_in_range(samples@),
        samples@.len() * 16000 <= usize::MAX,
    ensures
        r is Err <==> source_rate == 0,
        r matches Err(e) ==> e == ResampleError::InvalidRate,
        r matches Ok(out) ==> {
            &&& out@.len() == resampled_len(samples@.len() as int, source_rate as int)
            &&& forall|i: int| 0 <= i < out@.len()
                ==> (#[trigger] out@[i]) as int == resample_at(samples@, source_rate as int, i)
            &&& all_in_range(out@)
        },
        source_rate == 16000 ==> (r matches Ok(out) && out@ == samples@),
{
    if source_rate == 0 {
        return Err(ResampleError::InvalidRate);
    }
    let len = samples.len();
    if source_rate == 16000 {
        let mut out: Vec<i32> = Vec::new();
        let mut i: usize = 0;
        while i < len
            invariant
                i <= len,
                len == samples@.len(),
                out@ =~= samples@.subrange(0, i as int),
            decreases len - i,
        {
            out.push(samples[i]);
            i = i + 1;
        }
        proof {
            assert(out@ =~= samples@);
            assert(len * 16000 == 16000 * (len as int)) by (nonlinear_arith);
            lemma_div_multiples_vanish(len as int, 16000);
            assert forall|i: int| 0 <= i < out@.len()
                implies (#[trigger] out@[i]) as int == resample_at(samples@, 16000, i) by {
                lemma_resample_identity(samples@, i);
            }
        }
        return Ok(out);
    }
    let rate = source_rate as usize;
    let out_len = (len * 16000) / rate;
    proof {
        assert(out_len == resampled_len(len as int, rate as int));
    }
    let mut out: Vec<i32> = Vec::new();
    let mut i: usize = 0;
    while i < out_len
        invariant
            all_in_range(samples@),
            len == samples@.len(),
            1 <= rate <= u32::MAX,
            len * 16000 <= usize::MAX,
            out_len == resampled_len(len as int, rate as int),
            i <= out_len,
            out@.len() == i,
            forall|k: int| 0 <= k < i
                ==> (#[trigger] out@[k]) as int == resample_at(samples@, rate as int, k),
            all_in_range(out@),
        decreases out_len - i,
    {
        proof {
            lemma_src_index_bounds(len as int, rate as int, i as int);
        }
        let pos: u64 = (i as u64) * (rate as u64);
        let idx = (pos / 16000) as usize;
        let frac = (pos % 16000) as i64;
        let s0 = samples[idx];
        let value: i64 = if idx + 1 < len {
            let s1 = samples[idx + 1];
            let d = (s1 as i64) - (s0 as i64);
            proof {
                assert(-0x8000_0000_0000 <= (d as int) * (frac as int) <= 0x8000_0000_0000)
                    by (nonlinear_arith)
                    requires
                        -65536 <= (d as int) <= 65536,
                        0 <= (frac as int) < 16000,
                ;
            }
            let t = d * frac;
            let q = t.checked_div_euclid(16000).unwrap();
            proof {
                lemma_lerp_in_range(s0 as int, s1 as int, frac as int);
            }
            (s0 as i64) + q
        } else {
            s0 as i64
        };
        proof {
            assert(value as int == resample_at(samples@, rate as int, i as int));
        }
        out.push(value as i32);
        i = i + 1;
    }
    Ok(out)
}

} // verus!
