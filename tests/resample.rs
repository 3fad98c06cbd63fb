use super_whisper::audio::{capture_block, encode_wav, resample, CaptureConfig};

#[test]
fn same_rate_is_identity() {
    let s: Vec<i16> = vec![5, -7, 32767, -32768, 0];
    assert_eq!(resample(&s, 16000, 16000), s);
}

#[test]
fn empty_input_gives_empty_output() {
    let s: Vec<i16> = Vec::new();
    assert!(resample(&s, 44100, 16000).is_empty());
}

#[test]
fn upsampling_interpolates_linearly() {
    let s: Vec<i16> = vec![0, 100];
    assert_eq!(resample(&s, 2, 4), vec![0, 50, 100, 100]);
    let n: Vec<i16> = vec![-100, 0];
    assert_eq!(resample(&n, 2, 4), vec![-100, -50, 0, 0]);
}

#[test]
fn downsampling_picks_every_other_sample() {
    let s: Vec<i16> = vec![1, 2, 3, 4, 5, 6];
    assert_eq!(resample(&s, 2, 1), vec![1, 3, 5]);
}

#[test]
fn output_length_rounds_to_nearest() {
    // 3 * 2 / 4 = 1.5 rounds up to 2; 5 * 1 / 3 = 1.67 rounds to 2; 4 * 1 / 3 = 1.33 to 1.
    assert_eq!(resample(&vec![1, 2, 3], 4, 2).len(), 2);
    assert_eq!(resample(&vec![1, 2, 3, 4, 5], 3, 1).len(), 2);
    assert_eq!(resample(&vec![1, 2, 3, 4], 3, 1).len(), 1);
}

#[test]
fn three_seconds_at_cd_rate_to_16k() {
    // 48000 samples at 44.1 kHz last 1088 ms; at 16 kHz that is
    // round(48000 * 16000 / 44100) = round(17414.97) samples.
    let s: Vec<i16> = vec![1000; 48000];
    let out = resample(&s, 44100, 16000);
    assert_eq!(out.len(), 17415);
    assert!(out.iter().all(|&v| v == 1000));
    let audio = super_whisper::stt::AudioData::new(out, 16000);
    assert_eq!(audio.duration(), 1088);
}

#[test]
fn full_scale_extremes_stay_in_range() {
    let s: Vec<i16> = vec![-32768, 32767, -32768, 32767];
    let out = resample(&s, 3, 7);
    assert_eq!(out.len(), 9);
    assert_eq!(out[0], -32768);
}

#[test]
fn capture_block_gated_by_flag() {
    assert_eq!(capture_block(false, vec![1, 2, 3], 48000, 16000), None);
    assert_eq!(capture_block(true, vec![1, 2, 3], 16000, 16000), Some(vec![1, 2, 3]));
    assert_eq!(capture_block(true, vec![1, 2, 3, 4, 5, 6], 2, 1), Some(vec![1, 3, 5]));
}

#[test]
fn capture_config_defaults() {
    let c = CaptureConfig::default();
    assert_eq!(c.sample_rate, 16000);
    assert_eq!(c.device_name, None);
    assert_eq!(c.buffer_size, 4096);
}

#[test]
fn wav_has_header_and_two_bytes_per_sample() {
    let b = encode_wav(&vec![1, -2, 258], 16000).unwrap();
    assert_eq!(b.len(), 44 + 6);
    assert_eq!(&b[0..4], b"RIFF");
    assert_eq!(&b[8..12], b"WAVE");
    assert_eq!(&b[36..40], b"data");
    assert_eq!(&b[44..50], &[1, 0, 0xfe, 0xff, 2, 1]);
    // sample rate field
    assert_eq!(&b[24..28], &16000u32.to_le_bytes());
}

#[test]
fn wav_header_fields() {
    let b = encode_wav(&vec![0, 0], 44100).unwrap();
    // RIFF size: 36 + data bytes
    assert_eq!(&b[4..8], &40u32.to_le_bytes());
    assert_eq!(&b[12..16], b"fmt ");
    assert_eq!(&b[16..20], &16u32.to_le_bytes());
    // format 1 (PCM), one channel
    assert_eq!(&b[20..24], &[1, 0, 1, 0]);
    assert_eq!(&b[24..28], &44100u32.to_le_bytes());
    assert_eq!(&b[28..32], &88200u32.to_le_bytes());
    // block align 2, 16 bits
    assert_eq!(&b[32..36], &[2, 0, 16, 0]);
    assert_eq!(&b[40..44], &4u32.to_le_bytes());
}

#[test]
fn wav_of_nothing_is_header_only() {
    let b = encode_wav(&Vec::new(), 8000).unwrap();
    assert_eq!(b.len(), 44);
}
