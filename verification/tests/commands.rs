use lyte_mastering::commands::{
    aac_encode_arguments, aac_meter_arguments, band_filter, delivery_probe_arguments,
    final_level_filter, final_render_arguments, finish_arguments, measured_input_args,
    meter_arguments, pcm24_arguments, pcm24_passage_arguments, volume_arguments,
    waveform_arguments, BAND_COUNT,
};
use lyte_mastering::files::{
    check_audio_extension, check_wav_header, export_filename, find_variant, help_link,
    locate_program, render_filename, session_name, shaped_filename, ProgramLocation,
};
use lyte_mastering::rules::{default_reference_segment, validate_segment};
use lyte_mastering::float_bits::FloatBits;
use lyte_mastering::rules::MasteringError;

fn bits(x: f64) -> FloatBits {
    FloatBits { bits: x.to_bits() }
}

#[test]
fn measurement_commands() {
    assert_eq!(measured_input_args("a.wav", None), vec!["-hide_banner", "-i", "a.wav"]);
    assert_eq!(
        meter_arguments("a.wav", Some(("45.000", "30.000"))),
        vec!["-hide_banner", "-ss", "45.000", "-t", "30.000", "-i", "a.wav", "-filter:a", "ebur128=peak=true,astats=metadata=0:reset=0", "-f", "null", "-"]
    );
    assert_eq!(volume_arguments("a.wav", None, "volumedetect"), vec!["-hide_banner", "-i", "a.wav", "-af", "volumedetect", "-f", "null", "-"]);
    let bands: Vec<String> = (0..BAND_COUNT).map(band_filter).collect();
    assert_eq!(bands, vec![
        "highpass=f=30,lowpass=f=150,volumedetect",
        "highpass=f=150,lowpass=f=500,volumedetect",
        "highpass=f=500,lowpass=f=4000,volumedetect",
        "highpass=f=4000,lowpass=f=16000,volumedetect",
    ]);
    assert_eq!(waveform_arguments("in.mp3")[4], "in.mp3");
    assert_eq!(delivery_probe_arguments("x.wav").len(), 9);
    assert_eq!(aac_encode_arguments("x.wav", "y.m4a"), vec!["-y", "-i", "x.wav", "-c:a", "aac", "-b:a", "256k", "y.m4a"]);
    assert_eq!(aac_meter_arguments("y.m4a")[2], "y.m4a");
}

#[test]
fn rendering_commands() {
    assert_eq!(pcm24_arguments("a.wav", "b.wav", &format!("{:.3}", -0.25f64)), vec!["-y", "-i", "a.wav", "-af", "volume=-0.250dB", "-c:a", "pcm_s24le", "b.wav"]);
    assert_eq!(pcm24_passage_arguments("a.wav", "b.wav", "45.000", "30.000"), vec!["-y", "-ss", "45.000", "-t", "30.000", "-i", "a.wav", "-c:a", "pcm_s24le", "b.wav"]);
    assert_eq!(final_render_arguments("s.wav", "F", "o.wav"), vec!["-y", "-i", "s.wav", "-filter_complex", "F", "-map", "[finished]", "-c:a", "pcm_f32le", "o.wav"]);
}

#[test]
fn finishing_stage_graphs() {
    assert_eq!(finish_arguments("s", "o", false, bits(0.0), "0.000").unwrap(), vec!["-y", "-i", "s", "-c:a", "pcm_f32le", "o"]);
    assert_eq!(finish_arguments("s", "o", false, bits(2.5), "2.500"), Err(MasteringError::SoftClipOutOfRange));
    assert_eq!(finish_arguments("s", "o", true, bits(f64::NAN), "NaN"), Err(MasteringError::SoftClipOutOfRange));
    let dynamic = finish_arguments("s", "o", true, bits(0.0), "0.000").unwrap();
    assert_eq!(dynamic[4], "[0:a]acrossover=split=150:order=4th[lowin][high];[lowin]compand=attacks=0.02:decays=0.25:points=-90/-90|-20/-20|-8/-9.5|0/-4[low];[low][high]amix=inputs=2:normalize=0[finished]");
    let clipped = finish_arguments("s", "o", false, bits(1.0), "1.000").unwrap();
    assert_eq!(clipped, vec![
        "-y", "-i", "s", "-filter_complex",
        "[0:a]acrossover=split=150:order=4th[lowin][high];[lowin]anull[low];[low]volume=1.000dB,asoftclip=type=tanh:param=0.95[clipped_low];[high]volume=1.000dB,asoftclip=type=tanh:param=0.95[clipped_high];[clipped_low][clipped_high]amix=inputs=2:normalize=0[finished]",
        "-map", "[finished]", "-c:a", "pcm_f32le", "o",
    ]);
}

#[test]
fn final_level_filter_chooses_plain_gain_under_the_ceiling() {
    assert_eq!(final_level_filter("3.000", bits(-4.0 + 3.0), 48000), "[0:a]volume=3.000dB[finished]");
    assert_eq!(
        final_level_filter("8.000", bits(0.0 + 8.0), 48000),
        "[0:a]aresample=192000,acrossover=split=150:order=4th[low][high];[low]volume=8.000dB,asoftclip=type=tanh[limited_low];[high]volume=8.000dB,asoftclip=type=tanh[limited_high];[limited_low][limited_high]amix=inputs=2:normalize=0,volume=0.70710678,asoftclip=type=hard,aresample=48000[finished]"
    );
}

#[test]
fn export_names_count_up() {
    assert_eq!(export_filename("Track", "dense", "-6.0", 1), "Track_hard-techno_dense_target--6.0LUFS_auto.wav");
    assert_eq!(export_filename("Track", "dense", "-6.0", 2), "Track_hard-techno_dense_target--6.0LUFS_auto_2.wav");
    assert_eq!(export_filename("Track", "dense", "-6.0", 12), "Track_hard-techno_dense_target--6.0LUFS_auto_12.wav");
    assert_eq!(shaped_filename("dense", 1), "dense-1-shaped.wav");
    assert_eq!(render_filename("dense", 1), "dense-1.wav");
    assert_eq!(session_name(1_700_000_000_123, 7), "1700000000123-7");
}

#[test]
fn help_links_are_fixed() {
    assert_eq!(help_link("bakuage"), Ok("https://github.com/ai-mastering/bakuage".to_string()));
    assert_eq!(help_link("phaselimiter"), Ok("https://github.com/ai-mastering/phaselimiter".to_string()));
    assert_eq!(help_link("PhaseLimiter"), Err(MasteringError::HelpLinkUnavailable));
    assert_eq!(MasteringError::HelpLinkUnavailable.message(), "This help link is not available.");
}

#[test]
fn audio_types_by_extension() {
    for ok in ["wav", "WAV", "Flac", "mP3"] {
        assert_eq!(check_audio_extension(ok), Ok(()), "{ok}");
    }
    for bad in ["", "ogg", "wav ", "wa", "ẃav"] {
        assert_eq!(check_audio_extension(bad), Err(MasteringError::UnsupportedAudioType), "{bad}");
    }
}

#[test]
fn wav_header_check() {
    let header = *b"RIFF\x24\x00\x00\x00WAVE";
    assert_eq!(check_wav_header(&header, Some(45)), Ok(()));
    assert_eq!(check_wav_header(&header, Some(44)), Err(MasteringError::InvalidWav));
    assert_eq!(check_wav_header(&header, None), Err(MasteringError::InvalidWav));
    assert_eq!(check_wav_header(b"RIFX\x24\x00\x00\x00WAVE", Some(100)), Err(MasteringError::InvalidWav));
    assert_eq!(check_wav_header(b"RIFF\x24\x00\x00\x00AVI ", Some(100)), Err(MasteringError::InvalidWav));
}

#[test]
fn variant_lookup() {
    let ids = vec!["faithful".to_string(), "dense".to_string(), "dense".to_string()];
    assert_eq!(find_variant(Some("s1"), "s1", &ids, "dense"), Ok(1));
    assert_eq!(find_variant(Some("s1"), "s1", &ids, "loud"), Err(MasteringError::UnknownVariant));
    assert_eq!(find_variant(Some("s1"), "s2", &ids, "dense"), Err(MasteringError::SessionUnavailable));
    assert_eq!(find_variant(None, "s1", &ids, "dense"), Err(MasteringError::SessionUnavailable));
}

#[test]
fn programs_are_taken_from_the_bundle_first() {
    let entries = vec![(false, true), (true, false), (true, true), (true, true)];
    assert_eq!(locate_program(true, true, &entries), Some(ProgramLocation::Bundled));
    assert_eq!(locate_program(false, true, &entries), Some(ProgramLocation::SearchPath(2)));
    assert_eq!(locate_program(false, false, &entries), None);
    assert_eq!(locate_program(false, true, &vec![(false, true)]), None);
}

#[test]
fn built_in_reference_passage() {
    let s = default_reference_segment();
    assert_eq!(f64::from_bits(s.start_seconds.bits), 45.0);
    assert_eq!(f64::from_bits(s.duration_seconds.bits), 30.0);
    assert_eq!(validate_segment(&s), Ok(()));
}
