use dictation_core::audio::{
    downmix_frame, ingest_chunk, recording_duration_ms, sample_from_i16, sample_from_i32,
    sample_from_u16, AudioContext,
};
use dictation_core::level::{compute_rms, normalized_level};
use dictation_core::resample::{resample_to_16khz, ResampleError};

#[test]
fn rms_of_empty_buffer_is_zero() {
    let samples: Vec<i32> = Vec::new();
    assert_eq!(compute_rms(&samples, 4096), 0);
}

#[test]
fn rms_uses_whole_buffer_when_shorter_than_window() {
    // mean of squares = (9 + 16) / 2 = 12, floor sqrt = 3
    let samples = vec![3, 4];
    assert_eq!(compute_rms(&samples, 4096), 3);
}

#[test]
fn rms_reads_only_the_window_tail() {
    // the loud leading sample lies outside the 2-sample window
    let samples = vec![32768, 0, 0, 0, 3, 4];
    assert_eq!(compute_rms(&samples, 2), 3);
    // with a window spanning everything the leading sample dominates
    assert!(compute_rms(&samples, 4096) > 3);
}

#[test]
fn level_is_amplified_and_clipped() {
    assert_eq!(normalized_level(100), 1000);
    assert_eq!(normalized_level(3276), 32760);
    assert_eq!(normalized_level(3277), 32768);
    assert_eq!(normalized_level(40000), 32768);
}

#[test]
fn device_samples_normalize_exactly() {
    // 16-bit signed: identical representation
    assert_eq!(sample_from_i16(0), 0);
    assert_eq!(sample_from_i16(-32768), -32768);
    assert_eq!(sample_from_i16(32767), 32767);
    // 16-bit unsigned: midpoint is silence
    assert_eq!(sample_from_u16(32768), 0);
    assert_eq!(sample_from_u16(0), -32768);
    assert_eq!(sample_from_u16(65535), 32767);
    // 32-bit signed: extra fractional bits dropped
    assert_eq!(sample_from_i32(0), 0);
    assert_eq!(sample_from_i32(i32::MIN), -32768);
    assert_eq!(sample_from_i32(i32::MAX), 32767);
    assert_eq!(sample_from_i32(65536), 1);
    assert_eq!(sample_from_i32(-1), -1);
}

#[test]
fn downmix_single_channel_is_identity() {
    assert_eq!(downmix_frame(&vec![1234]), 1234);
    assert_eq!(downmix_frame(&vec![-32768]), -32768);
}

#[test]
fn downmix_averages_channels() {
    assert_eq!(downmix_frame(&vec![100, 200]), 150);
    assert_eq!(downmix_frame(&vec![1, 2]), 1); // floor of 1.5
    assert_eq!(downmix_frame(&vec![-1, -2]), -2); // floor of -1.5
    assert_eq!(downmix_frame(&vec![300, 0, 0]), 100);
}

#[test]
fn ingest_chunk_appends_mono_and_throttles_level() {
    let mut ctx = AudioContext::new(48000);
    let mut counter: usize = 0;

    // a small stereo chunk: below the threshold, no level is emitted
    let small = vec![10, 30, -10, -30];
    let level = ingest_chunk(&mut ctx, &small, 2, &mut counter);
    assert!(level.is_none());
    assert_eq!(counter, 2);
    assert_eq!(ctx.buffer, vec![20, -20]);

    // a big chunk crosses the threshold: level emitted, counter reset
    let big: Vec<i32> = std::iter::repeat([100, 100]).take(4096).flatten().collect();
    let level = ingest_chunk(&mut ctx, &big, 2, &mut counter);
    assert_eq!(counter, 0);
    // the freshest 4096 samples are all 100, so rms is 100, level 1000
    assert_eq!(level, Some(1000));
    assert_eq!(ctx.buffer.len(), 2 + 4096);
}

#[test]
fn take_recording_drains_buffer() {
    let mut ctx = AudioContext::new(44100);
    let mut counter: usize = 0;
    let _ = ingest_chunk(&mut ctx, &vec![5, 15], 1, &mut counter);
    ctx.request_stop();
    assert!(ctx.stop_requested);
    let (taken, rate) = ctx.take_recording();
    assert_eq!(taken, vec![5, 15]);
    assert_eq!(rate, 44100);
    assert!(ctx.buffer.is_empty());
}

#[test]
fn duration_follows_samples_over_rate() {
    assert_eq!(recording_duration_ms(88200, 44100), 2000);
    assert_eq!(recording_duration_ms(44100, 44100), 1000);
    assert_eq!(recording_duration_ms(0, 48000), 0);
    assert_eq!(recording_duration_ms(24000, 16000), 1500);
}

#[test]
fn resample_at_target_rate_is_identity() {
    let samples = vec![0, 1, -1, 32768, -32768, 7];
    let out = resample_to_16khz(&samples, 16000).unwrap();
    assert_eq!(out, samples);
}

#[test]
fn resample_rejects_zero_rate() {
    let samples = vec![1, 2, 3];
    assert_eq!(resample_to_16khz(&samples, 0), Err(ResampleError::InvalidRate));
}

#[test]
fn resample_length_tracks_ratio() {
    let two_seconds_at_44100 = vec![0i32; 88200];
    let out = resample_to_16khz(&two_seconds_at_44100, 44100).unwrap();
    assert_eq!(out.len(), 32000);

    let one_second_at_48000 = vec![0i32; 48000];
    let out = resample_to_16khz(&one_second_at_48000, 48000).unwrap();
    assert_eq!(out.len(), 16000);

    // length is within one sample of len * 16000 / rate for an odd rate
    let odd = vec![0i32; 12345];
    let out = resample_to_16khz(&odd, 22050).unwrap();
    let exact_scaled = 12345u64 * 16000;
    let got = out.len() as u64 * 22050;
    assert!(got <= exact_scaled && exact_scaled - got < 22050);
}

#[test]
fn resample_of_silence_is_silent() {
    let silence = vec![0i32; 88200];
    let out = resample_to_16khz(&silence, 44100).unwrap();
    assert_eq!(out.len(), 32000);
    assert!(out.iter().all(|&s| s == 0));
}

#[test]
fn resample_interpolates_between_samples() {
    // doubling the length of a two-sample ramp at half the target rate
    let ramp = vec![0, 16384];
    let out = resample_to_16khz(&ramp, 8000).unwrap();
    assert_eq!(out, vec![0, 8192, 16384, 16384]);
}
