//! The loudness meter: root-mean-square of the tail of the capture buffer,
//! normalized to a 0..=32768 fixed-point level for live visual feedback.
//!
//! Samples are fixed-point: full scale 1.0 is 32768, so a squared sample is
//! at most 0x4000_0000 and windowed sums fit comfortably in a `u64`.

use vstd::prelude::*;

verus! {

/// A sample is within the nominal [-1, 1] range.
pub open spec fn sample_in_range(s: int) -> bool {
    -32768 <= s <= 32768
}

/// Every sample of the sequence is within the nominal range.
pub open spec fn all_in_range(s: Seq<i32>) -> bool {
    forall|i: int| 0 <= i < s.len() ==> sample_in_range(#[trigger] s[i] as int)
}

/// Sum of the squares of a sample sequence.
pub open spec fn sum_squares(s: Seq<i32>) -> int
    decreases s.len(),
{
    if s.len() == 0 {
        0
    } else {
        sum_squares(s.drop_last()) + s.last() * s.last()
    }
}

/// The window the meter reads: the last `w` samples, or everything when the
/// buffer is shorter than the window.
pub open spec fn meter_window(s: Seq<i32>, w: int) -> Seq<i32> {
    if s.len() > w {
        s.subrange(s.len() - w, s.len() as int)
    } else {
        s
    }
}

/// Floor of the square root: the unique `r` with `r^2 <= x < (r+1)^2`.
fn isqrt(x: u64) -> (r: u32)
    ensures
        (r as int) * (r as int) <= x as int,
        x < (r as int + 1) * (r as int + 1),
{
    let mut lo: u64 = 0;
    let mut hi: u64 = 0x1_0000_0000;
    while lo + 1 < hi
        invariant
            lo < hi <= 0x1_0000_0000,
            (lo as int) * (lo as int) <= x as int,
            (x as int) < (hi as int) * (hi as int),
        decreases hi - lo,
    {
        let mid = lo + (hi - lo) / 2;
        proof {
            assert((mid as int) * (mid as int) <= 0x1_0000_0000_0000_0000) by (nonlinear_arith)
                requires mid <= 0x1_0000_0000;
        }
        let sq: u128 = (mid as u128) * (mid as u128);
        if sq <= x as u128 {
            lo = mid;
        } else {
            hi = mid;
        }
    }
    lo as u32
}

/// Computes the root-mean-square of the last `window_size` samples (all of
/// them when the buffer is shorter), in the same fixed-point unit as the
/// samples; an empty buffer reads 0. The result is the floor of the square
/// root of the floor of the mean of the squared window samples.
pub fn compute_rms(samples: &Vec<i32>, window_size: usize) -> (r: u32)
    requires
        all_in_range(samples@),
        1 <= window_size <= 0x1_0000_0000,
    ensures
        samples@.len() == 0 ==> r == 0,
        samples@.len() > 0 ==> {
            let w = meter_window(samples@, window_size as int);
            let mean = sum_squares(w) / (w.len() as int);
            (r as int) * (r as int) <= mean < (r as int + 1) * (r as int + 1)
        },
{
    if samples.len() == 0 {
        return 0;
    }
    let start = if samples.len() > window_size {
        samples.len() - window_size
    } else {
        0
    };
    let ghost w = meter_window(samples@, window_size as int);
    proof {
        assert(w =~= samples@.subrange(start as int, samples@.len() as int));
    }
    let mut i = start;
    let mut sum: u64 = 0;
    while i < samples.len()
        invariant
            all_in_range(samples@),
            start <= i <= samples@.len(),
            samples@.len() - start <= 0x1_0000_0000,
            sum == sum_squares(samples@.subrange(start as int, i as int)),
            sum <= (i - start) * 0x4000_0000,
        decreases samples@.len() - i,
    {
        let s = samples[i];
        proof {
            assert(0 <= (s as int) * (s as int) <= 0x4000_0000) by (nonlinear_arith)
                requires -32768 <= s as int <= 32768;
        }
        let wide: i64 = (s as i64) * (s as i64);
        proof {
            assert(samples@.subrange(start as int, i as int + 1).drop_last()
                =~= samples@.subrange(start as int, i as int));
        }
        sum = sum + (wide as u64);
        i = i + 1;
    }
    let count = (samples.len() - start) as u64;
    let mean = sum / count;
    isqrt(mean)
}

/// Scales an RMS reading to the 0..=32768 level shown to the user: speech
/// is quiet relative to full scale, so the reading is amplified tenfold and
/// clipped at full scale.
pub fn normalized_level(rms: u32) -> (lv: u32)
    ensures
        lv == if 10 * (rms as int) < 32768 { 10 * (rms as int) } else { 32768int },
{
    let x: u64 = (rms as u64) * 10;
    if x >= 32768 {
        32768
    } else {
        x as u32
    }
}

} // verus!
