//! The limits that a mastering request and its measurements must respect, and
//! the messages that tell the user which one was not met.
use vstd::prelude::*;
use crate::float_bits::{float, FloatBits, MINUS_ONE, ONE, TWO, ZERO};
use crate::logs::{first_sample_rate, audio_sample_rate, has_mono_or_stereo};
use crate::text::{contains, lines};

verus! {

/// `15.0`: the shortest passage, in seconds.
pub const PASSAGE_MIN_SECONDS: u64 = 0x402e_0000_0000_0000;

/// `60.0`: the longest passage, in seconds.
pub const PASSAGE_MAX_SECONDS: u64 = 0x404e_0000_0000_0000;

/// `-20.0`: the lowest loudness reference the engine accepts, in dB.
pub const LOUDNESS_MIN_DB: u64 = 0xc034_0000_0000_0000;

/// `-9.0`: the quietest Auto target, in LUFS.
pub const AUTO_TARGET_MIN_LUFS: u64 = 0xc022_0000_0000_0000;

/// `-2.0`: the loudest Auto target, in LUFS.
pub const AUTO_TARGET_MAX_LUFS: u64 = 0xc000_0000_0000_0000;

/// `-70.0`: at or below this integrated loudness a signal counts as silent.
pub const SILENCE_LUFS: u64 = 0xc051_8000_0000_0000;

/// `-1.0`: the true-peak ceiling of every delivered master, in dBTP.
pub const TRUE_PEAK_CEILING: u64 = MINUS_ONE;

/// `0.0`: above this true peak after AAC encoding, lossy delivery may clip.
pub const AAC_TRUE_PEAK_LIMIT: u64 = ZERO;

/// A passage of a track, in seconds.
#[derive(Clone, Copy)]
pub struct Segment {
    pub start_seconds: FloatBits,
    pub duration_seconds: FloatBits,
}

/// Why a request or a measurement was refused.
#[derive(Clone, Copy, PartialEq, Eq, Debug)]
pub enum MasteringError {
    PassageStart,
    PassageDuration,
    SettingsOutOfRange,
    AutoTargetOutOfRange,
    SoftClipOutOfRange,
    FinalLoudnessMissing,
    FinalPeakMissing,
    NoMeasurableLoudness,
    SampleRateMissing,
    UnsupportedChannels,
    IntegratedLoudnessMissing,
    TruePeakMissing,
    UnsupportedAudioType,
    InvalidWav,
    NoWaveformSamples,
    NoAutoMaster,
    SessionUnavailable,
    UnknownVariant,
    HelpLinkUnavailable,
    Cancelled,
    NoMasterWithinCeiling,
    EngineWaitFailed,
    EngineFailed,
}

impl MasteringError {
    /// The message shown to the user.
    pub open spec fn text(self) -> Seq<char> {
        match self {
            MasteringError::PassageStart => "The passage start must be a positive number of seconds."@,
            MasteringError::PassageDuration => "Choose a passage between 15 and 60 seconds."@,
            MasteringError::SettingsOutOfRange => "The mastering settings are outside the allowed range."@,
            MasteringError::AutoTargetOutOfRange => "Choose an Auto target between −9 and −2 LUFS."@,
            MasteringError::SoftClipOutOfRange => "Soft clip must be between 0.0 and 2.0 dB."@,
            MasteringError::FinalLoudnessMissing => "Cannot measure final loudness."@,
            MasteringError::FinalPeakMissing => "Cannot measure final true peak."@,
            MasteringError::NoMeasurableLoudness => "The audio has no measurable loudness for calibration."@,
            MasteringError::SampleRateMissing => "Cannot read audio sample rate."@,
            MasteringError::UnsupportedChannels => "Auto Hard Techno supports mono or stereo files only."@,
            MasteringError::IntegratedLoudnessMissing => "Could not measure integrated loudness."@,
            MasteringError::TruePeakMissing => "Could not measure true peak."@,
            MasteringError::UnsupportedAudioType => "Choose a WAV, FLAC or MP3 file."@,
            MasteringError::InvalidWav => "PhaseLimiter did not produce a valid WAV file."@,
            MasteringError::NoWaveformSamples => "The audio file contains no samples for the waveform."@,
            MasteringError::NoAutoMaster => "The Auto profiles did not produce a master."@,
            MasteringError::SessionUnavailable => "This mastering session is no longer available."@,
            MasteringError::UnknownVariant => "Unknown master variant."@,
            MasteringError::HelpLinkUnavailable => "This help link is not available."@,
            MasteringError::Cancelled => "Mastering was cancelled."@,
            MasteringError::NoMasterWithinCeiling => "Cannot produce a master within the true-peak ceiling."@,
            MasteringError::EngineWaitFailed => "Could not wait for PhaseLimiter to finish."@,
            MasteringError::EngineFailed => "Mastering failed. Check the audio file, the matching PhaseLimiter cache, its DLLs and available memory. Technical details are in the development console."@,
        }
    }

    /// The message shown to the user.
    pub fn message(&self) -> (s: String)
        ensures
            s@ == self.text(),
    {
        let text = match self {
            MasteringError::PassageStart => "The passage start must be a positive number of seconds.",
            MasteringError::PassageDuration => "Choose a passage between 15 and 60 seconds.",
            MasteringError::SettingsOutOfRange => "The mastering settings are outside the allowed range.",
            MasteringError::AutoTargetOutOfRange => "Choose an Auto target between −9 and −2 LUFS.",
            MasteringError::SoftClipOutOfRange => "Soft clip must be between 0.0 and 2.0 dB.",
            MasteringError::FinalLoudnessMissing => "Cannot measure final loudness.",
            MasteringError::FinalPeakMissing => "Cannot measure final true peak.",
            MasteringError::NoMeasurableLoudness => "The audio has no measurable loudness for calibration.",
            MasteringError::SampleRateMissing => "Cannot read audio sample rate.",
            MasteringError::UnsupportedChannels => "Auto Hard Techno supports mono or stereo files only.",
            MasteringError::IntegratedLoudnessMissing => "Could not measure integrated loudness.",
            MasteringError::TruePeakMissing => "Could not measure true peak.",
            MasteringError::UnsupportedAudioType => "Choose a WAV, FLAC or MP3 file.",
            MasteringError::InvalidWav => "PhaseLimiter did not produce a valid WAV file.",
            MasteringError::NoWaveformSamples => "The audio file contains no samples for the waveform.",
            MasteringError::NoAutoMaster => "The Auto profiles did not produce a master.",
            MasteringError::SessionUnavailable => "This mastering session is no longer available.",
            MasteringError::UnknownVariant => "Unknown master variant.",
            MasteringError::HelpLinkUnavailable => "This help link is not available.",
            MasteringError::Cancelled => "Mastering was cancelled.",
            MasteringError::NoMasterWithinCeiling => "Cannot produce a master within the true-peak ceiling.",
            MasteringError::EngineWaitFailed => "Could not wait for PhaseLimiter to finish.",
            MasteringError::EngineFailed => "Mastering failed. Check the audio file, the matching PhaseLimiter cache, its DLLs and available memory. Technical details are in the development console.",
        };
        String::from_str(text)
    }
}

/// `45.0`: where the built-in reference passage starts, in seconds.
pub const DEFAULT_REFERENCE_START_SECONDS: u64 = 0x4046_8000_0000_0000;

/// `30.0`: how long the built-in reference passage lasts, in seconds.
pub const DEFAULT_REFERENCE_DURATION_SECONDS: u64 = 0x403e_0000_0000_0000;

/// The passage of the built-in reference track that Auto compares with.
pub fn default_reference_segment() -> (s: Segment)
    ensures
        s.start_seconds.bits == DEFAULT_REFERENCE_START_SECONDS,
        s.duration_seconds.bits == DEFAULT_REFERENCE_DURATION_SECONDS,
{
    Segment {
        start_seconds: FloatBits { bits: DEFAULT_REFERENCE_START_SECONDS },
        duration_seconds: FloatBits { bits: DEFAULT_REFERENCE_DURATION_SECONDS },
    }
}

/// The built-in reference passage is one the tool accepts.
pub proof fn lemma_default_reference_is_valid()
    ensures
        passage_start_ok(float(DEFAULT_REFERENCE_START_SECONDS)),
        passage_duration_ok(float(DEFAULT_REFERENCE_DURATION_SECONDS)),
{
}

/// A passage may start at any finite time that is not below zero.
pub open spec fn passage_start_ok(start: FloatBits) -> bool {
    start.finite() && !start.lt(float(ZERO))
}

/// A passage lasts between 15 and 60 seconds, both included.
pub open spec fn passage_duration_ok(duration: FloatBits) -> bool {
    duration.finite() && float(PASSAGE_MIN_SECONDS).le(duration) && duration.le(
        float(PASSAGE_MAX_SECONDS),
    )
}

/// Checks a passage chosen for measurement: its start first, then its length.
pub fn validate_segment(segment: &Segment) -> (r: Result<(), MasteringError>)
    ensures
        !passage_start_ok(segment.start_seconds) ==> r == Err::<(), _>(
            MasteringError::PassageStart,
        ),
        passage_start_ok(segment.start_seconds) && !passage_duration_ok(segment.duration_seconds)
            ==> r == Err::<(), _>(MasteringError::PassageDuration),
        r is Ok <==> passage_start_ok(segment.start_seconds) && passage_duration_ok(
            segment.duration_seconds,
        ),
{
    let start = segment.start_seconds;
    if !start.is_finite() || start.less_than(FloatBits { bits: ZERO }) {
        return Err(MasteringError::PassageStart);
    }
    let duration = segment.duration_seconds;
    if !duration.is_finite() || !(FloatBits { bits: PASSAGE_MIN_SECONDS }.less_or_equal(duration)
        && duration.less_or_equal(FloatBits { bits: PASSAGE_MAX_SECONDS })) {
        return Err(MasteringError::PassageDuration);
    }
    Ok(())
}

/// The engine takes a loudness reference from -20 to 0 dB and an intensity from 0 to 1.
pub open spec fn settings_ok(loudness: FloatBits, intensity: FloatBits) -> bool {
    &&& loudness.finite()
    &&& float(LOUDNESS_MIN_DB).le(loudness)
    &&& loudness.le(float(ZERO))
    &&& intensity.finite()
    &&& float(ZERO).le(intensity)
    &&& intensity.le(float(ONE))
}

/// Checks the loudness reference and intensity handed to the engine.
pub fn check_mastering_settings(loudness: FloatBits, intensity: FloatBits) -> (r: Result<
    (),
    MasteringError,
>)
    ensures
        r is Ok <==> settings_ok(loudness, intensity),
        r is Err ==> r == Err::<(), _>(MasteringError::SettingsOutOfRange),
{
    if !loudness.is_finite() || !(FloatBits { bits: LOUDNESS_MIN_DB }.less_or_equal(loudness)
        && loudness.less_or_equal(FloatBits { bits: ZERO })) || !intensity.is_finite() || !(
    FloatBits { bits: ZERO }.less_or_equal(intensity) && intensity.less_or_equal(
        FloatBits { bits: ONE },
    )) {
        return Err(MasteringError::SettingsOutOfRange);
    }
    Ok(())
}

/// An Auto target lies between -9 and -2 LUFS, both included.
pub open spec fn auto_target_ok(target: FloatBits) -> bool {
    target.finite() && float(AUTO_TARGET_MIN_LUFS).le(target) && target.le(
        float(AUTO_TARGET_MAX_LUFS),
    )
}

/// Checks the loudness target of an Auto session.
pub fn check_auto_target(target: FloatBits) -> (r: Result<(), MasteringError>)
    ensures
        r is Ok <==> auto_target_ok(target),
        r is Err ==> r == Err::<(), _>(MasteringError::AutoTargetOutOfRange),
{
    if !target.is_finite() || !(FloatBits { bits: AUTO_TARGET_MIN_LUFS }.less_or_equal(target)
        && target.less_or_equal(FloatBits { bits: AUTO_TARGET_MAX_LUFS })) {
        return Err(MasteringError::AutoTargetOutOfRange);
    }
    Ok(())
}

/// Soft clipping drives each band by 0 to 2 dB.
pub open spec fn soft_clip_ok(soft_clip: FloatBits) -> bool {
    soft_clip.finite() && float(ZERO).le(soft_clip) && soft_clip.le(float(TWO))
}

/// Checks the soft-clip drive of the finishing stage.
pub fn check_soft_clip(soft_clip: FloatBits) -> (r: Result<(), MasteringError>)
    ensures
        r is Ok <==> soft_clip_ok(soft_clip),
        r is Err ==> r == Err::<(), _>(MasteringError::SoftClipOutOfRange),
{
    if !soft_clip.is_finite() || !(FloatBits { bits: ZERO }.less_or_equal(soft_clip)
        && soft_clip.less_or_equal(FloatBits { bits: TWO })) {
        return Err(MasteringError::SoftClipOutOfRange);
    }
    Ok(())
}

/// Whether the finishing stage clips at all: a drive above zero.
pub fn soft_clip_active(soft_clip: FloatBits) -> (r: bool)
    ensures
        r == float(ZERO).lt(soft_clip),
{
    FloatBits { bits: ZERO }.less_than(soft_clip)
}

/// A true peak at or below the ceiling.
pub fn within_true_peak_ceiling(peak: FloatBits) -> (r: bool)
    ensures
        r == peak.le(float(TRUE_PEAK_CEILING)),
{
    peak.less_or_equal(FloatBits { bits: TRUE_PEAK_CEILING })
}

/// Whether lossy delivery risks clipping: the true peak after AAC encoding is
/// above 0 dBTP, or was not measured.
pub fn aac_risk(aac_true_peak: Option<FloatBits>) -> (r: bool)
    ensures
        r == match aac_true_peak {
            Some(p) => float(AAC_TRUE_PEAK_LIMIT).lt(p),
            None => true,
        },
{
    match aac_true_peak {
        Some(p) => FloatBits { bits: AAC_TRUE_PEAK_LIMIT }.less_than(p),
        None => true,
    }
}

/// The reading of a delivery-level probe: the integrated loudness and true peak
/// that the log gave (read by the caller from its `I:` and `Peak:` lines) and
/// the sample rate of the stream.
pub open spec fn delivery_outcome(
    loudness: Option<FloatBits>,
    peak: Option<FloatBits>,
    log: Seq<char>,
) -> Result<(FloatBits, FloatBits, u32), MasteringError> {
    match loudness {
        None => Err(MasteringError::FinalLoudnessMissing),
        Some(l) => match peak {
            None => Err(MasteringError::FinalPeakMissing),
            Some(p) => if !l.finite() || !p.finite() || l.le(float(SILENCE_LUFS)) {
                Err(MasteringError::NoMeasurableLoudness)
            } else {
                match first_sample_rate(lines(log)) {
                    None => Err(MasteringError::SampleRateMissing),
                    Some(rate) => Ok((l, p, rate)),
                }
            },
        },
    }
}

/// Accepts a delivery-level probe only with a finite loudness above silence, a
/// finite true peak and a readable sample rate.
pub fn delivery_reading(loudness: Option<FloatBits>, peak: Option<FloatBits>, log: &str) -> (r:
    Result<(FloatBits, FloatBits, u32), MasteringError>)
    ensures
        r == delivery_outcome(loudness, peak, log@),
{
    let l = match loudness {
        None => {
            return Err(MasteringError::FinalLoudnessMissing);
        },
        Some(l) => l,
    };
    let p = match peak {
        None => {
            return Err(MasteringError::FinalPeakMissing);
        },
        Some(p) => p,
    };
    if !l.is_finite() || !p.is_finite() || l.less_or_equal(FloatBits { bits: SILENCE_LUFS }) {
        return Err(MasteringError::NoMeasurableLoudness);
    }
    match audio_sample_rate(log) {
        None => Err(MasteringError::SampleRateMissing),
        Some(rate) => Ok((l, p, rate)),
    }
}

/// The levels of a measured window, as the caller read them from the meter log:
/// `I:`, `Peak:`, `Peak level dB:` and `RMS level dB:`.
pub open spec fn window_outcome(
    log: Seq<char>,
    integrated: Option<FloatBits>,
    peak: Option<FloatBits>,
    peak_level: Option<FloatBits>,
    rms: Option<FloatBits>,
) -> Result<(FloatBits, FloatBits, FloatBits), MasteringError> {
    if !(contains(log, " mono"@) || contains(log, " stereo"@)) {
        Err(MasteringError::UnsupportedChannels)
    } else {
        match integrated {
            None => Err(MasteringError::IntegratedLoudnessMissing),
            Some(i) => {
                let p = match peak {
                    Some(p) => Some(p),
                    None => peak_level,
                };
                match p {
                    None => Err(MasteringError::TruePeakMissing),
                    Some(p) => Ok(
                        (
                            i,
                            p,
                            match rms {
                                Some(r) => r,
                                None => i,
                            },
                        ),
                    ),
                }
            },
        }
    }
}

/// The integrated loudness, true peak and RMS level of a measured window: mono
/// or stereo only; the true peak falls back on the peak level, the RMS level on
/// the integrated loudness.
pub fn window_levels(
    log: &str,
    integrated: Option<FloatBits>,
    peak: Option<FloatBits>,
    peak_level: Option<FloatBits>,
    rms: Option<FloatBits>,
) -> (r: Result<(FloatBits, FloatBits, FloatBits), MasteringError>)
    ensures
        r == window_outcome(log@, integrated, peak, peak_level, rms),
{
    if !has_mono_or_stereo(log) {
        return Err(MasteringError::UnsupportedChannels);
    }
    let i = match integrated {
        None => {
            return Err(MasteringError::IntegratedLoudnessMissing);
        },
        Some(i) => i,
    };
    let p = match peak {
        Some(p) => p,
        None => match peak_level {
            Some(p) => p,
            None => {
                return Err(MasteringError::TruePeakMissing);
            },
        },
    };
    let r = match rms {
        Some(r) => r,
        None => i,
    };
    Ok((i, p, r))
}

} // verus!
