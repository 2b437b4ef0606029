//! Running PhaseLimiter: the settings of each pass, and what to do while the
//! engine runs.
use vstd::prelude::*;
use crate::auto::AutoProfile;
use crate::float_bits::{FloatBits, ZERO};
use crate::rules::MasteringError;

verus! {

/// The settings of one mastering pass: the engine's loudness reference and
/// intensity, bass preservation, and the finishing stage's dynamic bass and
/// soft-clip drive.
#[derive(Clone, Copy)]
pub struct MasteringSettings {
    pub loudness: FloatBits,
    pub intensity: FloatBits,
    pub preserve_bass: bool,
    pub dynamic_bass: bool,
    pub soft_clip_db: FloatBits,
}

/// The engine pass of an Auto profile: the profile's intensity and bass
/// preservation at the given reference, with the finishing stage neutral (no
/// dynamic bass, no soft clipping); the profile's own finishing is applied
/// afterwards to the engine's output.
pub fn engine_pass_settings(profile: &AutoProfile, engine_reference_db: FloatBits) -> (s:
    MasteringSettings)
    ensures
        s.loudness == engine_reference_db,
        s.intensity == profile.intensity,
        s.preserve_bass == profile.preserve_bass,
        !s.dynamic_bass,
        s.soft_clip_db.bits == ZERO,
{
    MasteringSettings {
        loudness: engine_reference_db,
        intensity: profile.intensity,
        preserve_bass: profile.preserve_bass,
        dynamic_bass: false,
        soft_clip_db: FloatBits { bits: ZERO },
    }
}

/// The finishing pass of an Auto profile: everything as the profile says.
pub fn finishing_pass_settings(profile: &AutoProfile, engine_reference_db: FloatBits) -> (s:
    MasteringSettings)
    ensures
        s.loudness == engine_reference_db,
        s.intensity == profile.intensity,
        s.preserve_bass == profile.preserve_bass,
        s.dynamic_bass == profile.dynamic_bass,
        s.soft_clip_db == profile.soft_clip_db,
{
    MasteringSettings {
        loudness: engine_reference_db,
        intensity: profile.intensity,
        preserve_bass: profile.preserve_bass,
        dynamic_bass: profile.dynamic_bass,
        soft_clip_db: profile.soft_clip_db,
    }
}

/// What polling the engine process gave.
#[derive(Clone, Copy, PartialEq, Eq, Debug)]
pub enum EngineStatus {
    /// It has exited, successfully or not.
    Exited(bool),
    /// It is still running.
    Running,
    /// Its state could not be read.
    Unreadable,
}

/// What to do next while the engine runs.
#[derive(Clone, Copy, PartialEq, Eq, Debug)]
pub enum EngineWait {
    /// Stop the engine and end with the cancellation.
    KillAndCancel,
    /// Wait a moment and ask again.
    Sleep,
    /// It is over: the pass succeeded, or why it did not.
    Done(Result<(), MasteringError>),
}

/// One round of waiting for the engine. A cancellation request wins and is
/// decided before the engine is polled (`status` is `None` then); otherwise a
/// successful exit ends the pass, a failed exit or an unreadable state ends it
/// with its error, and a running engine is waited for.
pub fn engine_wait_step(cancel_requested: bool, status: Option<EngineStatus>) -> (w: EngineWait)
    requires
        !cancel_requested ==> status is Some,
    ensures
        cancel_requested ==> w == EngineWait::KillAndCancel,
        !cancel_requested ==> w == match status {
            Some(EngineStatus::Exited(true)) => EngineWait::Done(Ok(())),
            Some(EngineStatus::Exited(false)) => EngineWait::Done(
                Err(MasteringError::EngineFailed),
            ),
            Some(EngineStatus::Unreadable) => EngineWait::Done(
                Err(MasteringError::EngineWaitFailed),
            ),
            _ => EngineWait::Sleep,
        },
{
    if cancel_requested {
        return EngineWait::KillAndCancel;
    }
    match status {
        Some(EngineStatus::Exited(true)) => EngineWait::Done(Ok(())),
        Some(EngineStatus::Exited(false)) => EngineWait::Done(Err(MasteringError::EngineFailed)),
        Some(EngineStatus::Unreadable) => EngineWait::Done(Err(MasteringError::EngineWaitFailed)),
        _ => EngineWait::Sleep,
    }
}

} // verus!
