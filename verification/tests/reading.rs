use lyte_mastering::logs::{audio_sample_rate, has_mono_or_stereo, metric_tokens, progression_token};
use lyte_mastering::number::{format_signed, format_unsigned, parse_u32_chars};
use lyte_mastering::text::{chars_of, split_lines, trim_chars};
use lyte_mastering::waveform::{waveform_peaks, WAVEFORM_BINS};
use lyte_mastering::rules::MasteringError;

const SUMMARY: &str = "[Parsed_ebur128_0 @ 0x1] t: 0.4  TARGET:-23 LUFS    M: -20.1 S:-120.7     I: -21.0 LUFS\n\
[Parsed_ebur128_0 @ 0x1] Summary:\n\
\n\
  Integrated loudness:\n\
    I:         -14.8 LUFS\r\n\
    Threshold: -25.0 LUFS\n\
\n\
  True peak:\n\
    Peak:       -0.9 dBFS\n";

#[test]
fn metric_tokens_read_trimmed_lines_in_order() {
    assert_eq!(metric_tokens(SUMMARY, "I:"), vec!["-14.8".to_string()]);
    assert_eq!(metric_tokens(SUMMARY, "Peak:"), vec!["-0.9".to_string()]);
    assert_eq!(metric_tokens(SUMMARY, "Threshold:"), vec!["-25.0".to_string()]);
    assert!(metric_tokens(SUMMARY, "RMS level dB:").is_empty());
    let repeated = "I: -30.0\nI: oops\n  I:\nI: -12.5 LUFS";
    assert_eq!(metric_tokens(repeated, "I:"), vec!["-30.0", "oops", "-12.5"]);
    // The last readable value is what a caller keeps.
    let last = metric_tokens(repeated, "I:").iter().rev().find_map(|t| t.parse::<f64>().ok());
    assert_eq!(last, Some(-12.5));
}

#[test]
fn metric_tokens_use_unicode_whitespace() {
    let log = "\u{3000}mean_volume:\u{A0}-18.2\u{2003}dB";
    assert_eq!(metric_tokens(log, "mean_volume:"), vec!["-18.2"]);
}

#[test]
fn progression_token_takes_the_first_marker() {
    assert_eq!(progression_token("x progression:0.5 progression: 0.9").as_deref(), Some("0.5"));
    assert_eq!(progression_token("progression:   \n"), None);
}

#[test]
fn sample_rate_comes_from_the_first_audio_line() {
    let log = "Input #0, wav, from 'a.wav':\n  Stream #0:0: Audio: pcm_f32le ([3][0][0][0] / 0x0003), 48000 Hz, stereo, flt, 3072 kb/s\n  Stream #0:1: Audio: aac, 44100 Hz, mono\n";
    assert_eq!(audio_sample_rate(log), Some(48000));
    assert_eq!(audio_sample_rate("Audio: weird Hz\nAudio: x, +44100 Hz"), Some(44100));
    assert_eq!(audio_sample_rate("Audio: x, 99999999999 Hz"), None);
    assert_eq!(audio_sample_rate("Stream: 48000 Hz"), None);
    assert!(has_mono_or_stereo(log));
    assert!(!has_mono_or_stereo("5.1(side)"));
}

#[test]
fn decimal_text_round_trips() {
    for n in [0u32, 7, 10, 44100, 48000, 192000, u32::MAX] {
        let text = format_unsigned(n as u128);
        assert_eq!(text, n.to_string());
        assert_eq!(parse_u32_chars(&chars_of(&text)), Some(n));
    }
    assert_eq!(format_unsigned(u128::MAX), u128::MAX.to_string());
    assert_eq!(format_signed(-42), "-42");
    assert_eq!(format_signed(i32::MIN), i32::MIN.to_string());
    for bad in ["", "+", "-1", "4294967296", "12a", " 1"] {
        assert_eq!(parse_u32_chars(&chars_of(bad)), bad.parse::<u32>().ok(), "{bad}");
    }
    assert_eq!(parse_u32_chars(&chars_of("+0042")), Some(42));
}

#[test]
fn lines_and_trimming() {
    let lines = split_lines(&chars_of("a\n\nb\r\n"));
    let texts: Vec<String> = lines.iter().map(|l| l.iter().collect()).collect();
    assert_eq!(texts, vec!["a", "", "b\r", ""]);
    let trimmed: String = trim_chars(&chars_of(" \t x y \r")).iter().collect();
    assert_eq!(trimmed, "x y");
}

fn pcm(samples: &[f32]) -> Vec<u8> {
    samples.iter().flat_map(|s| s.to_le_bytes()).collect()
}

#[test]
fn waveform_keeps_the_loudest_sample_of_each_slice() {
    let mut samples = vec![0.0_f32; 480];
    samples[0] = -0.5;
    samples[1] = 0.25;
    samples[2] = 0.75;
    samples[3] = f32::NAN;
    samples[479] = -1.5;
    let mut bytes = pcm(&samples);
    bytes.push(0xff); // a partial sample is ignored
    let peaks = waveform_peaks(&bytes).unwrap();
    assert_eq!(peaks.sample_count, 480);
    assert_eq!(peaks.peaks.len(), WAVEFORM_BINS);
    assert_eq!(f32::from_bits(peaks.peaks[0]), 0.5);
    assert_eq!(f32::from_bits(peaks.peaks[1]), 0.75);
    assert_eq!(f32::from_bits(peaks.peaks[239]), 1.5);
    assert_eq!(peaks.peaks[100], 0);
}

#[test]
fn waveform_matches_float_maximum() {
    let samples: Vec<f32> = (0..1000).map(|i| ((i * 37 % 101) as f32 - 50.0) / 37.0).collect();
    let peaks = waveform_peaks(&pcm(&samples)).unwrap();
    let mut expected = vec![0.0_f32; WAVEFORM_BINS];
    for (i, s) in samples.iter().enumerate() {
        let bin = i * WAVEFORM_BINS / samples.len();
        expected[bin] = expected[bin].max(s.abs());
    }
    let got: Vec<f32> = peaks.peaks.iter().map(|b| f32::from_bits(*b)).collect();
    assert_eq!(got, expected);
}

#[test]
fn waveform_needs_one_whole_sample() {
    assert_eq!(waveform_peaks(&[1, 2, 3]).err(), Some(MasteringError::NoWaveformSamples));
    let one = waveform_peaks(&pcm(&[-2.0])).unwrap();
    assert_eq!(f32::from_bits(one.peaks[0]), 2.0);
}
