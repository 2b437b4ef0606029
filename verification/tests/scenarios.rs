use lyte_mastering::auto::{auto_profiles, diagnose, DiagnosisInput};
use lyte_mastering::commands::{engine_setting_arguments, output_filename};
use lyte_mastering::float_bits::FloatBits;
use lyte_mastering::logs::progression_token;
use lyte_mastering::rules::{check_auto_target, validate_segment, Segment};

fn bits(x: f64) -> FloatBits {
    FloatBits { bits: x.to_bits() }
}

fn segment(start: f64, duration: f64) -> Segment {
    Segment { start_seconds: bits(start), duration_seconds: bits(duration) }
}

/// The engine reports a fraction of one; the tool shows a percentage.
fn progression(line: &str) -> Option<f64> {
    let raw = progression_token(line)?;
    let value: f64 = raw.parse().ok()?;
    if value.is_finite() {
        Some(value.clamp(0.0, 1.0) * 100.0)
    } else {
        None
    }
}

#[test]
fn parses_real_progress_and_rejects_noise() {
    assert_eq!(progression_token("progression: 0.42\r\n").as_deref(), Some("0.42"));
    assert_eq!(progression_token("progression: NaN").as_deref(), Some("NaN"));
    assert_eq!(progression_token("diagnostic"), None);
    assert_eq!(progression("progression: 0.42\r\n"), Some(42.0));
    assert_eq!(progression("progression: 1.2"), Some(100.0));
    assert_eq!(progression("progression: NaN"), None);
    assert_eq!(progression("diagnostic"), None);
}

#[test]
fn includes_mastering_settings_in_output_filename() {
    let loudness = -7.0_f64;
    let intensity = 0.80_f64;
    let preserve_bass = false;
    assert_eq!(
        output_filename(
            "LET THE KICK HIT",
            &format!("{:.1}", loudness),
            &format!("{:.2}", intensity),
            preserve_bass,
        ),
        "LET THE KICK HIT_mastered_-7.0dB_i0.80_bass-off.wav"
    );
}

#[test]
fn diagnoses_aac_risk_without_rejecting_an_aggressive_profile() {
    // Source and variant measurements of an aggressive render with a hot AAC peak.
    let source_peak_factor = 7.0_f64;
    let source_bass_ratio = -6.0_f64;
    let variant_peak_factor = 7.0_f64;
    let variant_bass_ratio = -6.0_f64;
    let achieved_delta = 0.0_f64;
    let aac_peak = 1.4_f64;
    let profiles = auto_profiles();
    let profile = &profiles[2];
    let loss = source_peak_factor - variant_peak_factor;
    let bass_change = variant_bass_ratio - source_bass_ratio;
    let input = DiagnosisInput {
        achieved_delta_lu: bits(achieved_delta),
        achieved_delta_text: format!("{:+.1}", achieved_delta),
        attempts: 1,
        peak_factor_loss_db: bits(loss),
        peak_factor_loss_text: format!("{:.1}", loss),
        bass_change_db: bits(bass_change),
        bass_change_text: format!("{:+.1}", bass_change),
        aac_true_peak_dbtp: Some(bits(aac_peak)),
        crest_budget_text: format!("{:.1}", f64::from_bits(profile.crest_budget_db.bits)),
        bass_budget_text: format!("{:.1}", f64::from_bits(profile.bass_budget_db.bits)),
    };
    let diagnosis = diagnose(&input, profile);
    assert!(diagnosis.aac_risk);
    assert!(diagnosis.diagnostics.iter().any(|note| note.contains("AAC simulation")));
}

#[test]
fn validates_auto_target_and_passage_bounds() {
    assert!(validate_segment(&segment(0.0, 30.0)).is_ok());
    assert!(validate_segment(&segment(-1.0, 30.0)).is_err());
    assert!(validate_segment(&segment(0.0, 10.0)).is_err());
    assert!(check_auto_target(bits(-5.0)).is_ok());
    assert!(check_auto_target(bits(-2.0)).is_ok());
}

#[test]
fn preserves_upstream_mapping() {
    let loudness = -8.5_f64;
    let intensity = 1.0_f64;
    let preserve_bass = true;
    let args = engine_setting_arguments(&intensity.to_string(), preserve_bass, &loudness.to_string());
    let pairs: Vec<(&str, &str)> = args.chunks(2).map(|p| (p[0].as_str(), p[1].as_str())).collect();
    for pair in [
        ("--reference", "-8.5"),
        ("--mastering_mode", "mastering5"),
        ("--mastering_matching_level", "1"),
        ("--mastering_ms_matching_level", "1"),
        ("--mastering5_mastering_level", "1"),
        ("--erb_eval_func_weighting", "true"),
    ] {
        assert!(pairs.contains(&pair));
    }
}
