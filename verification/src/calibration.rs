//! The decisions of the final level calibration.
//!
//! Each attempt renders the shaped master with one gain, trims it under the
//! true-peak ceiling and measures it. The gains and the distances from the
//! target are doubles, computed by the caller; this module decides which
//! attempt is kept, when to stop, and whether the calibration produced a master.
use vstd::prelude::*;
use crate::float_bits::{float, FloatBits, INFINITY_BITS};
use crate::rules::{MasteringError, TRUE_PEAK_CEILING};
use crate::auto::AUTO_TARGET_TOLERANCE_LU;

verus! {

/// The most attempts a calibration makes.
pub const MAX_CALIBRATION_ATTEMPTS: usize = 8;

/// `0.05`: a gain correction smaller than this, in dB, is not worth another attempt.
pub const MIN_GAIN_STEP_DB: u64 = 0x3fa9_9999_9999_999a;

/// How far a calibration has come.
#[derive(Clone, Copy)]
pub struct Calibration {
    /// Attempts made so far.
    pub attempts: usize,
    /// The distance from the target of the kept attempt, in LU; infinity
    /// before one is kept.
    pub best_error: FloatBits,
}

/// What to do with an attempt just measured.
#[derive(Clone, Copy, PartialEq, Eq, Debug)]
pub struct AttemptDecision {
    /// Save this attempt as the master.
    pub keep: bool,
    /// Make no further attempt.
    pub stop: bool,
}

/// A calibration before its first attempt.
pub fn start_calibration() -> (c: Calibration)
    ensures
        c.attempts == 0,
        c.best_error.bits == INFINITY_BITS,
{
    Calibration { attempts: 0, best_error: FloatBits { bits: INFINITY_BITS } }
}

/// Whether another attempt may be made: fewer than eight so far.
pub fn may_attempt(c: &Calibration) -> (r: bool)
    ensures
        r == (c.attempts < MAX_CALIBRATION_ATTEMPTS),
{
    c.attempts < MAX_CALIBRATION_ATTEMPTS
}

/// Records an attempt. It is kept when its true peak is at or below the
/// ceiling and it is strictly closer to the target (`error`, the absolute
/// distance) than the attempt kept so far. The calibration stops when the kept
/// attempt is within the tolerance of the target, when the next correction of
/// the gain (`gain_step`, its absolute size) would be below 0.05 dB, or after
/// the eighth attempt.
pub fn record_attempt(c: &mut Calibration, peak: FloatBits, error: FloatBits, gain_step: FloatBits) -> (d:
    AttemptDecision)
    requires
        old(c).attempts < MAX_CALIBRATION_ATTEMPTS,
    ensures
        final(c).attempts == old(c).attempts + 1,
        d.keep == (peak.le(float(TRUE_PEAK_CEILING)) && error.lt(old(c).best_error)),
        final(c).best_error == kept_error(old(c).best_error, peak, error),
        d.stop == (final(c).best_error.le(float(AUTO_TARGET_TOLERANCE_LU)) || gain_step.lt(
            float(MIN_GAIN_STEP_DB),
        ) || final(c).attempts == MAX_CALIBRATION_ATTEMPTS),
{
    let keep = peak.less_or_equal(FloatBits { bits: TRUE_PEAK_CEILING }) && error.less_than(
        c.best_error,
    );
    if keep {
        c.best_error = error;
    }
    c.attempts = c.attempts + 1;
    let stop = c.best_error.less_or_equal(FloatBits { bits: AUTO_TARGET_TOLERANCE_LU })
        || gain_step.less_than(FloatBits { bits: MIN_GAIN_STEP_DB }) || c.attempts
        == MAX_CALIBRATION_ATTEMPTS;
    AttemptDecision { keep, stop }
}

/// The outcome of a finished calibration: a master exists once an attempt was
/// kept, which is when the kept distance is finite.
pub fn calibration_outcome(c: &Calibration) -> (r: Result<(), MasteringError>)
    ensures
        r is Ok <==> c.best_error.finite(),
        r is Err ==> r == Err::<(), _>(MasteringError::NoMasterWithinCeiling),
{
    if c.best_error.is_finite() {
        Ok(())
    } else {
        Err(MasteringError::NoMasterWithinCeiling)
    }
}

/// The distance kept after recording an attempt.
pub open spec fn kept_error(best: FloatBits, peak: FloatBits, error: FloatBits) -> FloatBits {
    if peak.le(float(TRUE_PEAK_CEILING)) && error.lt(best) {
        error
    } else {
        best
    }
}

/// The kept distance from the target never grows from one attempt to the next,
/// and a kept attempt is one within the true-peak ceiling.
pub proof fn lemma_kept_error_never_grows(best: FloatBits, peak: FloatBits, error: FloatBits)
    requires
        !best.nan(),
    ensures
        kept_error(best, peak, error).le(best),
        !kept_error(best, peak, error).nan(),
        kept_error(best, peak, error) != best ==> peak.le(float(TRUE_PEAK_CEILING)),
{
}

/// A calibration that kept no attempt ends without a master: infinity is not finite.
pub proof fn lemma_nothing_kept_is_refused(c: Calibration)
    requires
        c.best_error.bits == INFINITY_BITS,
    ensures
        !c.best_error.finite(),
{
}

} // verus!
