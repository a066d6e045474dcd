//! The capture session's shared buffer and the per-chunk callback logic:
//! downmixing interleaved device frames to mono, appending to the buffer,
//! and throttled level reporting.

use vstd::prelude::*;
use crate::level::{all_in_range, compute_rms, meter_window, normalized_level, sample_in_range, sum_squares};
use vstd::arithmetic::div_mod::{
    lemma_div_is_ordered, lemma_div_multiples_vanish, lemma_fundamental_div_mod_converse_div,
};

verus! {

/// Sum of a sample sequence.
pub open spec fn sum_samples(s: Seq<i32>) -> int
    decreases s.len(),
{
    if s.len() == 0 {
        0
    } else {
        sum_samples(s.drop_last()) + s.last()
    }
}

/// The mono sample for one frame: the floor of the average of its channel
/// samples.
pub open spec fn frame_avg(frame: Seq<i32>) -> int {
    sum_samples(frame) / (frame.len() as int)
}

/// The mono sequence obtained by averaging each consecutive group of
/// `channels` interleaved samples.
pub open spec fn downmix_seq(data: Seq<i32>, channels: int) -> Seq<i32> {
    Seq::new(((data.len() as int) / channels) as nat, |i: int| frame_avg(data.subrange(i * channels, (i + 1) * channels)) as i32)
}

/// Audio context holding the samples captured so far, the rate they were
/// captured at, and the cooperative stop flag the capture loop polls.
pub struct AudioContext {
    pub buffer: Vec<i32>,
    pub sample_rate: u32,
    pub stop_requested: bool,
}

impl AudioContext {
    /// Every buffered sample stays in the nominal range.
    pub open spec fn wf(self) -> bool {
        all_in_range(self.buffer@)
    }

    pub fn new(sample_rate: u32) -> (r: AudioContext)
        ensures
            r.buffer@.len() == 0,
            r.sample_rate == sample_rate,
            !r.stop_requested,
            r.wf(),
    {
        AudioContext { buffer: Vec::new(), sample_rate, stop_requested: false }
    }

    /// Prepares for a fresh recording: clears the buffer, records the
    /// device's native rate, and rearms the stop flag.
    pub fn begin_recording(&mut self, sample_rate: u32)
        ensures
            final(self).buffer@.len() == 0,
            final(self).sample_rate == sample_rate,
            !final(self).stop_requested,
            final(self).wf(),
    {
        self.buffer.clear();
        self.sample_rate = sample_rate;
        self.stop_requested = false;
    }

    /// Asks the capture loop to tear the stream down; the buffer and rate
    /// are left untouched for the drain that follows.
    pub fn request_stop(&mut self)
        ensures
            final(self).stop_requested,
            final(self).buffer@ == old(self).buffer@,
            final(self).sample_rate == old(self).sample_rate,
    {
        self.stop_requested = true;
    }

    /// Drains the finished recording: moves the samples out together with
    /// their rate and leaves the buffer empty for the next recording.
    pub fn take_recording(&mut self) -> (r: (Vec<i32>, u32))
        ensures
            r.0@ == old(self).buffer@,
            r.1 == old(self).sample_rate,
            final(self).buffer@.len() == 0,
            final(self).sample_rate == old(self).sample_rate,
            final(self).stop_requested == old(self).stop_requested,
            final(self).wf(),
    {
        let mut taken: Vec<i32> = Vec::new();
        core::mem::swap(&mut taken, &mut self.buffer);
        let rate = self.sample_rate;
        (taken, rate)
    }
}

/// Converts a 16-bit signed device sample to the fixed-point unit; the
/// representations coincide, so the value is kept exactly.
pub fn sample_from_i16(v: i16) -> (s: i32)
    ensures
        s as int == v as int,
        sample_in_range(s as int),
{
    v as i32
}

/// Converts a 16-bit unsigned device sample, whose midpoint 32768 is
/// silence, to the signed fixed-point unit, exactly.
pub fn sample_from_u16(v: u16) -> (s: i32)
    ensures
        s as int == v as int - 32768,
        sample_in_range(s as int),
{
    (v as i32) - 32768
}

/// Converts a 32-bit signed device sample to the fixed-point unit by
/// dropping the 16 extra fractional bits, rounding toward negative
/// infinity: exact at the 16-bit resolution.
pub fn sample_from_i32(v: i32) -> (s: i32)
    ensures
        s as int == (v as int) / 65536,
        sample_in_range(s as int),
{
    proof {
        lemma_div_is_ordered(i32::MIN as int, v as int, 65536);
        lemma_div_is_ordered(v as int, i32::MAX as int, 65536);
        assert((i32::MIN as int) == 65536 * -32768);
        lemma_div_multiples_vanish(-32768, 65536);
        lemma_fundamental_div_mod_converse_div(i32::MAX as int, 65536, 32767, 65535);
    }
    v.checked_div_euclid(65536).unwrap()
}

/// Downmixes one frame of interleaved channel samples to a single mono
/// sample by averaging; a one-channel frame passes through unchanged.
pub fn downmix_frame(frame: &Vec<i32>) -> (s: i32)
    requires
        1 <= frame@.len() <= 0x1_0000_0000,
        all_in_range(frame@),
    ensures
        s as int == frame_avg(frame@),
        sample_in_range(s as int),
        frame@.len() == 1 ==> s == frame@[0],
{
    let n = frame.len();
    let mut c: usize = 0;
    let mut sum: i64 = 0;
    while c < n
        invariant
            all_in_range(frame@),
            n == frame@.len() <= 0x1_0000_0000,
            c <= n,
            sum == sum_samples(frame@.subrange(0, c as int)),
            -32768 * c <= sum <= 32768 * c,
        decreases n - c,
    {
        proof {
            assert(frame@.subrange(0, c as int + 1).drop_last() =~= frame@.subrange(0, c as int));
        }
        sum = sum + (frame[c] as i64);
        c = c + 1;
    }
    proof {
        assert(frame@.subrange(0, n as int) =~= frame@);
        assert(-32768 <= sum_samples(frame@) / (n as int) <= 32768) by (nonlinear_arith)
            requires
                n >= 1,
                -32768 * (n as int) <= sum_samples(frame@) <= 32768 * (n as int),
        ;
    }
    let q = sum.checked_div_euclid(n as i64).unwrap();
    proof {
        if frame@.len() == 1 {
            assert(frame@.drop_last() =~= Seq::<i32>::empty());
            assert(sum_samples(Seq::<i32>::empty()) == 0);
            assert(sum_samples(frame@) == frame@.last());
            assert(frame@.last() == frame@[0]);
        }
    }
    q as i32
}

/// A plausible meter reading for the buffer `s`: the RMS of the last 4096
/// samples (all of them when shorter, 0 when empty), amplified tenfold and
/// clipped to full scale.
pub open spec fn is_rms_of(r: int, s: Seq<i32>) -> bool {
    if s.len() == 0 {
        r == 0
    } else {
        let w = meter_window(s, 4096);
        let mean = sum_squares(w) / (w.len() as int);
        r * r <= mean < (r + 1) * (r + 1)
    }
}

/// Tenfold amplification clipped to full scale.
pub open spec fn clipped_level(r: int) -> int {
    if 10 * r < 32768 {
        10 * r
    } else {
        32768
    }
}

pub open spec fn is_level_of(lv: int, s: Seq<i32>) -> bool {
    exists|r: int| #[trigger] is_rms_of(r, s) && lv == clipped_level(r)
}

/// The per-chunk capture callback: downmixes every frame of the delivered
/// chunk into the shared buffer, and once at least 2048 samples have
/// accumulated since the last report, reads the level over the freshest
/// 4096 samples and resets the throttle counter.
pub fn ingest_chunk(ctx: &mut AudioContext, data: &Vec<i32>, channels: usize, counter: &mut usize) -> (level: Option<u32>)
    requires
        old(ctx).wf(),
        1 <= channels,
        (data@.len() as int) % (channels as int) == 0,
        data@.len() <= 0x1000_0000,
        all_in_range(data@),
        *old(counter) < 2048,
    ensures
        final(ctx).buffer@ == old(ctx).buffer@ + downmix_seq(data@, channels as int),
        final(ctx).sample_rate == old(ctx).sample_rate,
        final(ctx).stop_requested == old(ctx).stop_requested,
        final(ctx).wf(),
        ({
            let frames = (data@.len() as int) / (channels as int);
            &&& (*old(counter) + frames >= 2048 ==> *final(counter) == 0 && level is Some)
            &&& (*old(counter) + frames < 2048 ==> *final(counter) == *old(counter) + frames
                && level is None)
        }),
        level matches Some(lv) ==> is_level_of(lv as int, final(ctx).buffer@),
{
    let frames = data.len() / channels;
    let ghost dm = downmix_seq(data@, channels as int);
    let ghost buf0 = ctx.buffer@;
    proof {
        assert(dm.len() == frames);
    }
    let mut f: usize = 0;
    while f < frames
        invariant
            1 <= channels,
            (data@.len() as int) % (channels as int) == 0,
            data@.len() <= 0x1000_0000,
            all_in_range(data@),
            frames == (data@.len() as int) / (channels as int),
            dm == downmix_seq(data@, channels as int),
            f <= frames,
            ctx.buffer@ == buf0 + dm.subrange(0, f as int),
            all_in_range(ctx.buffer@),
            ctx.sample_rate == old(ctx).sample_rate,
            ctx.stop_requested == old(ctx).stop_requested,
        decreases frames - f,
    {
        proof {
            assert((f as int + 1) * (channels as int) <= (frames as int) * (channels as int)
                && (f as int) * (channels as int) >= 0
                && (f as int + 1) * (channels as int) == (f as int) * (channels as int)
                    + channels as int) by (nonlinear_arith)
                requires
                    f as int + 1 <= frames as int,
                    f as int >= 0,
                    channels as int >= 1,
            ;
            assert((frames as int) * (channels as int) == data@.len()) by (nonlinear_arith)
                requires
                    frames == (data@.len() as int) / (channels as int),
                    (data@.len() as int) % (channels as int) == 0,
                    channels as int >= 1,
            ;
        }
        let base = f * channels;
        let mut c: usize = 0;
        let mut sum: i64 = 0;
        let ghost frame = data@.subrange(base as int, base as int + channels as int);
        proof {
            assert(frame.len() == channels as int);
        }
        while c < channels
            invariant
                all_in_range(data@),
                c <= channels,
                data@.len() <= 0x1000_0000,
                base + channels <= data@.len(),
                frame == data@.subrange(base as int, base as int + channels as int),
                frame.len() == channels as int,
                channels <= 0x1000_0000,
                sum == sum_samples(frame.subrange(0, c as int)),
                -32768 * c <= sum <= 32768 * c,
            decreases channels - c,
        {
            proof {
                assert(frame.subrange(0, c as int + 1).drop_last() =~= frame.subrange(0, c as int));
                assert(frame[c as int] == data@[base + c]);
            }
            sum = sum + (data[base + c] as i64);
            c = c + 1;
        }
        proof {
            assert(frame.subrange(0, channels as int) =~= frame);
            assert(frame =~= data@.subrange(f as int * channels as int, (f as int + 1) * channels as int));
            assert(-32768 <= sum_samples(frame) / (channels as int) <= 32768) by (nonlinear_arith)
                requires
                    channels as int >= 1,
                    -32768 * (channels as int) <= sum_samples(frame) <= 32768 * (channels as int),
            ;
        }
        let avg = sum.checked_div_euclid(channels as i64).unwrap();
        ctx.buffer.push(avg as i32);
        proof {
            assert(dm[f as int] == avg as i32);
            assert(ctx.buffer@ =~= buf0 + dm.subrange(0, f as int + 1));
        }
        f = f + 1;
    }
    proof {
        assert(dm.subrange(0, frames as int) =~= dm);
    }
    let next = *counter + frames;
    if next >= 2048 {
        let rms = compute_rms(&ctx.buffer, 4096);
        let lv = normalized_level(rms);
        *counter = 0;
        proof {
            assert(is_rms_of(rms as int, ctx.buffer@));
            assert(lv as int == clipped_level(rms as int));
        }
        Some(lv)
    } else {
        *counter = next;
        None
    }
}

/// Duration of a recording in milliseconds, rounded down: the sample
/// count over the rate.
pub fn recording_duration_ms(samples: usize, sample_rate: u32) -> (ms: u64)
    requires
        sample_rate >= 1,
        samples * 1000 <= u64::MAX,
    ensures
        ms == (samples as int) * 1000 / (sample_rate as int),
{
    ((samples as u64) * 1000) / (sample_rate as u64)
}

} // verus!
