use lyte_mastering::auto::auto_profiles;
use lyte_mastering::calibration::{
    calibration_outcome, may_attempt, record_attempt, start_calibration, AttemptDecision,
    MAX_CALIBRATION_ATTEMPTS, MIN_GAIN_STEP_DB,
};
use lyte_mastering::engine::{
    engine_pass_settings, engine_wait_step, finishing_pass_settings, EngineStatus, EngineWait,
};
use lyte_mastering::files::next_export_try;
use lyte_mastering::float_bits::FloatBits;
use lyte_mastering::rules::MasteringError;

fn bits(x: f64) -> FloatBits {
    FloatBits { bits: x.to_bits() }
}

#[test]
fn calibration_keeps_closer_attempts_within_the_ceiling() {
    assert_eq!(MIN_GAIN_STEP_DB, 0.05f64.to_bits());
    let mut c = start_calibration();
    assert_eq!(f64::from_bits(c.best_error.bits), f64::INFINITY);
    assert_eq!(calibration_outcome(&c), Err(MasteringError::NoMasterWithinCeiling));
    // Over the ceiling: not kept.
    assert_eq!(record_attempt(&mut c, bits(-0.5), bits(1.0), bits(1.0)), AttemptDecision { keep: false, stop: false });
    // Within the ceiling and closer: kept.
    assert_eq!(record_attempt(&mut c, bits(-1.0), bits(1.0), bits(1.0)), AttemptDecision { keep: true, stop: false });
    // Not strictly closer: not kept.
    assert_eq!(record_attempt(&mut c, bits(-1.2), bits(1.0), bits(1.0)), AttemptDecision { keep: false, stop: false });
    assert_eq!(calibration_outcome(&c), Ok(()));
    // Within tolerance: kept and stop.
    assert_eq!(record_attempt(&mut c, bits(-1.1), bits(0.3), bits(1.0)), AttemptDecision { keep: true, stop: true });
    assert_eq!(c.attempts, 4);
}

#[test]
fn calibration_stops_on_small_steps_and_after_eight_attempts() {
    let mut c = start_calibration();
    assert_eq!(record_attempt(&mut c, bits(-2.0), bits(2.0), bits(0.04)), AttemptDecision { keep: true, stop: true });
    let mut c = start_calibration();
    let mut attempts = 0;
    while may_attempt(&c) {
        attempts += 1;
        let d = record_attempt(&mut c, bits(0.0), bits(5.0), bits(1.0));
        assert_eq!(d.stop, attempts == MAX_CALIBRATION_ATTEMPTS);
    }
    assert_eq!(attempts, 8);
    assert_eq!(calibration_outcome(&c), Err(MasteringError::NoMasterWithinCeiling));
}

#[test]
fn engine_passes_of_a_profile() {
    let profiles = auto_profiles();
    let dense = &profiles[1];
    let engine = engine_pass_settings(dense, bits(-6.0));
    assert_eq!(f64::from_bits(engine.loudness.bits), -6.0);
    assert_eq!(f64::from_bits(engine.intensity.bits), 0.85);
    assert!(engine.preserve_bass && !engine.dynamic_bass);
    assert_eq!(f64::from_bits(engine.soft_clip_db.bits), 0.0);
    let finishing = finishing_pass_settings(dense, bits(-6.0));
    assert!(finishing.dynamic_bass);
    assert_eq!(f64::from_bits(finishing.soft_clip_db.bits), 0.5);
}

#[test]
fn waiting_for_the_engine() {
    assert_eq!(engine_wait_step(true, None), EngineWait::KillAndCancel);
    assert_eq!(engine_wait_step(true, Some(EngineStatus::Exited(true))), EngineWait::KillAndCancel);
    assert_eq!(engine_wait_step(false, Some(EngineStatus::Running)), EngineWait::Sleep);
    assert_eq!(engine_wait_step(false, Some(EngineStatus::Exited(true))), EngineWait::Done(Ok(())));
    assert_eq!(engine_wait_step(false, Some(EngineStatus::Exited(false))), EngineWait::Done(Err(MasteringError::EngineFailed)));
    assert_eq!(engine_wait_step(false, Some(EngineStatus::Unreadable)), EngineWait::Done(Err(MasteringError::EngineWaitFailed)));
}

#[test]
fn export_tries_count_up_while_taken() {
    assert_eq!(next_export_try(1, true), Some(2));
    assert_eq!(next_export_try(2, false), None);
}
