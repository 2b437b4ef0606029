use lyte_mastering::auto::{
    auto_profiles, diagnose, recommendation_text, recommended_or_error, select_recommended,
    Candidate, DiagnosisInput, AUTO_TARGET_TOLERANCE_LU,
};
use lyte_mastering::float_bits::FloatBits;
use lyte_mastering::rules::{
    aac_risk, check_auto_target, check_mastering_settings, check_soft_clip, delivery_reading,
    soft_clip_active, validate_segment, window_levels, within_true_peak_ceiling, MasteringError,
    Segment, AAC_TRUE_PEAK_LIMIT, AUTO_TARGET_MAX_LUFS, AUTO_TARGET_MIN_LUFS, LOUDNESS_MIN_DB,
    PASSAGE_MAX_SECONDS, PASSAGE_MIN_SECONDS, SILENCE_LUFS, TRUE_PEAK_CEILING,
};

fn bits(x: f64) -> FloatBits {
    FloatBits { bits: x.to_bits() }
}

#[test]
fn constants_are_the_stated_doubles() {
    assert_eq!(PASSAGE_MIN_SECONDS, 15.0f64.to_bits());
    assert_eq!(PASSAGE_MAX_SECONDS, 60.0f64.to_bits());
    assert_eq!(LOUDNESS_MIN_DB, (-20.0f64).to_bits());
    assert_eq!(AUTO_TARGET_MIN_LUFS, (-9.0f64).to_bits());
    assert_eq!(AUTO_TARGET_MAX_LUFS, (-2.0f64).to_bits());
    assert_eq!(SILENCE_LUFS, (-70.0f64).to_bits());
    assert_eq!(TRUE_PEAK_CEILING, (-1.0f64).to_bits());
    assert_eq!(AAC_TRUE_PEAK_LIMIT, 0.0f64.to_bits());
    assert_eq!(AUTO_TARGET_TOLERANCE_LU, 0.3f64.to_bits());
    let p = auto_profiles();
    let ids: Vec<&str> = p.iter().map(|p| p.id.as_str()).collect();
    assert_eq!(ids, vec!["faithful", "dense", "aggressive"]);
    assert_eq!(p[0].label, "Fidèle");
    let f = |b: FloatBits| f64::from_bits(b.bits);
    assert_eq!((f(p[0].intensity), f(p[1].intensity), f(p[2].intensity)), (0.65, 0.85, 1.0));
    assert_eq!((f(p[0].soft_clip_db), f(p[1].soft_clip_db), f(p[2].soft_clip_db)), (0.0, 0.5, 1.0));
    assert_eq!((f(p[0].crest_budget_db), f(p[1].crest_budget_db), f(p[2].crest_budget_db)), (2.0, 4.0, 6.0));
    assert_eq!((f(p[0].bass_budget_db), f(p[1].bass_budget_db), f(p[2].bass_budget_db)), (1.5, 2.5, 4.0));
    assert_eq!((p[0].preserve_bass, p[1].preserve_bass, p[2].preserve_bass), (true, true, false));
    assert_eq!((p[0].dynamic_bass, p[1].dynamic_bass, p[2].dynamic_bass), (false, true, true));
}

#[test]
fn comparisons_follow_the_doubles() {
    let values = [f64::NEG_INFINITY, -70.0, -1.0, -0.0, 0.0, 1e-300, 0.3, 2.0, f64::INFINITY, f64::NAN];
    for a in values {
        for b in values {
            assert_eq!(bits(a).less_than(bits(b)), a < b, "{a} < {b}");
            assert_eq!(bits(a).less_or_equal(bits(b)), a <= b, "{a} <= {b}");
        }
        assert_eq!(bits(a).is_finite(), a.is_finite());
        assert_eq!(bits(a).is_nan(), a.is_nan());
        assert_eq!(bits(a).abs().bits, a.abs().to_bits());
    }
}

fn segment(start: f64, duration: f64) -> Segment {
    Segment { start_seconds: bits(start), duration_seconds: bits(duration) }
}

#[test]
fn passage_rules_and_their_messages() {
    assert_eq!(validate_segment(&segment(-0.0, 15.0)), Ok(()));
    assert_eq!(validate_segment(&segment(3.5, 60.0)), Ok(()));
    assert_eq!(validate_segment(&segment(f64::NAN, 30.0)), Err(MasteringError::PassageStart));
    assert_eq!(validate_segment(&segment(-1.0, 5.0)), Err(MasteringError::PassageStart));
    assert_eq!(validate_segment(&segment(0.0, 60.5)), Err(MasteringError::PassageDuration));
    assert_eq!(validate_segment(&segment(0.0, f64::INFINITY)), Err(MasteringError::PassageDuration));
    assert_eq!(MasteringError::PassageDuration.message(), "Choose a passage between 15 and 60 seconds.");
    assert_eq!(MasteringError::AutoTargetOutOfRange.message(), "Choose an Auto target between −9 and −2 LUFS.");
}

#[test]
fn setting_ranges() {
    assert_eq!(check_mastering_settings(bits(-8.5), bits(1.0)), Ok(()));
    assert_eq!(check_mastering_settings(bits(-20.0), bits(0.0)), Ok(()));
    assert_eq!(check_mastering_settings(bits(0.5), bits(0.5)), Err(MasteringError::SettingsOutOfRange));
    assert_eq!(check_mastering_settings(bits(-8.0), bits(f64::NAN)), Err(MasteringError::SettingsOutOfRange));
    assert_eq!(check_auto_target(bits(-9.5)), Err(MasteringError::AutoTargetOutOfRange));
    assert_eq!(check_auto_target(bits(-9.0)), Ok(()));
    assert_eq!(check_soft_clip(bits(2.0)), Ok(()));
    assert_eq!(check_soft_clip(bits(-0.1)), Err(MasteringError::SoftClipOutOfRange));
    assert!(!soft_clip_active(bits(0.0)));
    assert!(soft_clip_active(bits(0.5)));
    assert!(within_true_peak_ceiling(bits(-1.0)));
    assert!(!within_true_peak_ceiling(bits(-0.99)));
    assert!(aac_risk(None));
    assert!(!aac_risk(Some(bits(0.0))));
    assert!(aac_risk(Some(bits(0.1))));
}

const AUDIO: &str = "Stream #0:0: Audio: pcm_s24le, 44100 Hz, stereo\n";

#[test]
fn delivery_reading_refuses_in_order() {
    assert_eq!(delivery_reading(None, None, AUDIO).err(), Some(MasteringError::FinalLoudnessMissing));
    assert_eq!(delivery_reading(Some(bits(-9.0)), None, AUDIO).err(), Some(MasteringError::FinalPeakMissing));
    assert_eq!(delivery_reading(Some(bits(-70.0)), Some(bits(-1.0)), AUDIO).err(), Some(MasteringError::NoMeasurableLoudness));
    assert_eq!(delivery_reading(Some(bits(-9.0)), Some(bits(f64::INFINITY)), AUDIO).err(), Some(MasteringError::NoMeasurableLoudness));
    assert_eq!(delivery_reading(Some(bits(-9.0)), Some(bits(-1.0)), "no stream").err(), Some(MasteringError::SampleRateMissing));
    let (l, p, r) = delivery_reading(Some(bits(-9.0)), Some(bits(-1.2)), AUDIO).unwrap();
    assert_eq!((f64::from_bits(l.bits), f64::from_bits(p.bits), r), (-9.0, -1.2, 44100));
}

#[test]
fn window_levels_fall_back() {
    let f = |r: Result<(FloatBits, FloatBits, FloatBits), MasteringError>| {
        r.map(|(a, b, c)| (f64::from_bits(a.bits), f64::from_bits(b.bits), f64::from_bits(c.bits)))
    };
    assert_eq!(f(window_levels("5.1", Some(bits(-9.0)), None, None, None)), Err(MasteringError::UnsupportedChannels));
    assert_eq!(f(window_levels(AUDIO, None, None, None, None)), Err(MasteringError::IntegratedLoudnessMissing));
    assert_eq!(f(window_levels(AUDIO, Some(bits(-9.0)), None, None, None)), Err(MasteringError::TruePeakMissing));
    assert_eq!(f(window_levels(" mono", Some(bits(-9.0)), None, Some(bits(-2.0)), None)), Ok((-9.0, -2.0, -9.0)));
    assert_eq!(f(window_levels(AUDIO, Some(bits(-9.0)), Some(bits(-1.0)), Some(bits(-2.0)), Some(bits(-12.0)))), Ok((-9.0, -1.0, -12.0)));
}

fn input(delta: f64, loss: f64, bass: f64, aac: Option<f64>) -> DiagnosisInput {
    DiagnosisInput {
        achieved_delta_lu: bits(delta),
        achieved_delta_text: format!("{:+.1}", delta),
        attempts: 1,
        peak_factor_loss_db: bits(loss),
        peak_factor_loss_text: format!("{:.1}", loss),
        bass_change_db: bits(bass),
        bass_change_text: format!("{:+.1}", bass),
        aac_true_peak_dbtp: aac.map(bits),
        crest_budget_text: "2.0".into(),
        bass_budget_text: "1.5".into(),
    }
}

#[test]
fn diagnosis_notes_each_budget() {
    let profiles = auto_profiles();
    let faithful = &profiles[0];
    let calm = diagnose(&input(0.2, 1.0, -1.0, Some(-0.5)), faithful);
    assert!(!calm.aac_risk);
    assert_eq!(calm.diagnostics, vec!["Target, low-end movement and impact remain within this profile’s stated trade-offs."]);
    let all = diagnose(&input(-0.5, 2.5, -2.0, None), faithful);
    assert!(all.aac_risk);
    assert_eq!(all.diagnostics, vec![
        "Target missed by -0.5 LU after 1 attempts. Final drive is bounded to avoid forcing saturation or broadband pumping.",
        "Transient/impact change is 2.5 dB (Fidèle profile budget: 2.0 dB).",
        "Sustained 30–150 Hz energy moved -2.0 dB (Fidèle profile budget: ±1.5 dB).",
        "AAC simulation reaches above 0 dBTP; use caution for lossy delivery.",
    ]);
}

fn candidate(similarity: Option<i32>, delta: f64) -> Candidate {
    Candidate { similarity, achieved_delta_lu: bits(delta) }
}

#[test]
fn recommendation_prefers_similarity_then_accuracy() {
    assert_eq!(select_recommended(&vec![]), None);
    assert_eq!(recommended_or_error(&vec![]), Err(MasteringError::NoAutoMaster));
    let cs = vec![candidate(Some(80), 0.1), candidate(Some(90), -1.0), candidate(Some(90), 0.5), candidate(None, 0.0)];
    assert_eq!(select_recommended(&cs), Some(2));
    assert_eq!(recommended_or_error(&cs), Ok(2));
    assert_eq!(recommended_or_error(&vec![candidate(None, 1.0)]), Ok(0));
    let ties = vec![candidate(Some(70), 0.2), candidate(Some(70), -0.2), candidate(Some(60), 0.0)];
    assert_eq!(select_recommended(&ties), Some(1));
    let unscored = vec![candidate(None, 0.3), candidate(Some(0), -0.3)];
    assert_eq!(select_recommended(&unscored), Some(1));
    // Same choice as `Iterator::max_by` with the ranking comparator.
    let key = |c: &Candidate| c.similarity.unwrap_or(0);
    let picked = cs.iter().enumerate().max_by(|(_, l), (_, r)| {
        key(l).cmp(&key(r)).then_with(|| f64::from_bits(r.achieved_delta_lu.bits).abs().total_cmp(&f64::from_bits(l.achieved_delta_lu.bits).abs()))
    }).map(|(i, _)| i);
    assert_eq!(select_recommended(&cs), picked);
}

#[test]
fn recommendation_sentence() {
    assert_eq!(
        recommendation_text("Dense", true, Some(87), "+0.1"),
        "Dense is closest to the built-in reference passage (87/100 measured similarity) while landing at +0.1 LU from the requested target."
    );
    assert_eq!(
        recommendation_text("Agressif", false, None, "-0.4"),
        "Agressif is closest to the selected reference passage (0/100 measured similarity) while landing at -0.4 LU from the requested target."
    );
}

#[test]
fn every_refusal_has_its_message() {
    let cases = [
        (MasteringError::PassageStart, "The passage start must be a positive number of seconds."),
        (MasteringError::PassageDuration, "Choose a passage between 15 and 60 seconds."),
        (MasteringError::SettingsOutOfRange, "The mastering settings are outside the allowed range."),
        (MasteringError::AutoTargetOutOfRange, "Choose an Auto target between −9 and −2 LUFS."),
        (MasteringError::SoftClipOutOfRange, "Soft clip must be between 0.0 and 2.0 dB."),
        (MasteringError::FinalLoudnessMissing, "Cannot measure final loudness."),
        (MasteringError::FinalPeakMissing, "Cannot measure final true peak."),
        (MasteringError::NoMeasurableLoudness, "The audio has no measurable loudness for calibration."),
        (MasteringError::SampleRateMissing, "Cannot read audio sample rate."),
        (MasteringError::UnsupportedChannels, "Auto Hard Techno supports mono or stereo files only."),
        (MasteringError::IntegratedLoudnessMissing, "Could not measure integrated loudness."),
        (MasteringError::TruePeakMissing, "Could not measure true peak."),
        (MasteringError::UnsupportedAudioType, "Choose a WAV, FLAC or MP3 file."),
        (MasteringError::InvalidWav, "PhaseLimiter did not produce a valid WAV file."),
        (MasteringError::NoWaveformSamples, "The audio file contains no samples for the waveform."),
        (MasteringError::NoAutoMaster, "The Auto profiles did not produce a master."),
        (MasteringError::SessionUnavailable, "This mastering session is no longer available."),
        (MasteringError::UnknownVariant, "Unknown master variant."),
        (MasteringError::HelpLinkUnavailable, "This help link is not available."),
        (MasteringError::Cancelled, "Mastering was cancelled."),
        (MasteringError::NoMasterWithinCeiling, "Cannot produce a master within the true-peak ceiling."),
        (MasteringError::EngineWaitFailed, "Could not wait for PhaseLimiter to finish."),
        (MasteringError::EngineFailed, "Mastering failed. Check the audio file, the matching PhaseLimiter cache, its DLLs and available memory. Technical details are in the development console."),
    ];
    for (error, text) in cases {
        assert_eq!(error.message(), text);
    }
}
