//! The command lines that drive PhaseLimiter and FFmpeg, the filter graphs they
//! run, and the names of the files they write.
//!
//! Decimal fractions (gains, seconds, levels) are formatted by the caller and
//! passed as text; whole numbers are formatted here.
use vstd::prelude::*;
use crate::float_bits::FloatBits;
use crate::number::{decimal, format_unsigned};
use crate::rules::{check_soft_clip, soft_clip_active, soft_clip_ok, within_true_peak_ceiling, MasteringError, TRUE_PEAK_CEILING};
use crate::float_bits::{float, ZERO};
use crate::text::{occurs_at, views};

verus! {

/// The two-band split used by every band-wise stage.
pub open spec fn crossover() -> Seq<char> {
    "acrossover=split=150:order=4th"@
}

/// Appends a copy of `s`.
pub fn push_str(v: &mut Vec<String>, s: &str)
    ensures
        views(final(v)@) == views(old(v)@).push(s@),
{
    let ghost before = views(v@);
    v.push(String::from_str(s));
    assert(views(v@) =~= before.push(s@));
}

/// The decoding that feeds the overview waveform: mono, 4000 samples per
/// second, 32-bit float samples on standard output.
pub fn waveform_arguments(input: &str) -> (v: Vec<String>)
    ensures
        views(v@) == seq![
            "-hide_banner"@,
            "-loglevel"@,
            "error"@,
            "-i"@,
            input@,
            "-vn"@,
            "-ac"@,
            "1"@,
            "-ar"@,
            "4000"@,
            "-f"@,
            "f32le"@,
            "-"@,
        ],
{
    let mut v: Vec<String> = Vec::new();
    push_str(&mut v, "-hide_banner");
    push_str(&mut v, "-loglevel");
    push_str(&mut v, "error");
    push_str(&mut v, "-i");
    push_str(&mut v, input);
    push_str(&mut v, "-vn");
    push_str(&mut v, "-ac");
    push_str(&mut v, "1");
    push_str(&mut v, "-ar");
    push_str(&mut v, "4000");
    push_str(&mut v, "-f");
    push_str(&mut v, "f32le");
    push_str(&mut v, "-");
    v
}

/// `bool::to_string`.
pub open spec fn bool_text(b: bool) -> Seq<char> {
    if b {
        "true"@
    } else {
        "false"@
    }
}

/// The mastering settings handed to PhaseLimiter, as flag and value pairs.
pub open spec fn engine_settings(intensity: Seq<char>, preserve_bass: bool, loudness: Seq<char>) -> Seq<
    Seq<char>,
> {
    seq![
        "--mastering"@,
        "true"@,
        "--mastering_mode"@,
        "mastering5"@,
        "--mastering_matching_level"@,
        intensity,
        "--mastering_ms_matching_level"@,
        intensity,
        "--mastering5_mastering_level"@,
        intensity,
        "--erb_eval_func_weighting"@,
        bool_text(preserve_bass),
        "--reference"@,
        loudness,
    ]
}

/// The engine gets bass preservation as it was asked for: the value after
/// `--erb_eval_func_weighting` is `true` with it and `false` without it, so the
/// two settings give different command lines; the three matching levels all
/// carry the intensity and the reference carries the loudness.
pub proof fn lemma_engine_settings_follow_request(
    intensity: Seq<char>,
    preserve_bass: bool,
    loudness: Seq<char>,
)
    ensures
        engine_settings(intensity, preserve_bass, loudness).len() == 14,
        engine_settings(intensity, preserve_bass, loudness)[10] == "--erb_eval_func_weighting"@,
        preserve_bass ==> engine_settings(intensity, preserve_bass, loudness)[11] == "true"@,
        !preserve_bass ==> engine_settings(intensity, preserve_bass, loudness)[11] == "false"@,
        engine_settings(intensity, true, loudness) != engine_settings(intensity, false, loudness),
        engine_settings(intensity, preserve_bass, loudness)[4] == "--mastering_matching_level"@,
        engine_settings(intensity, preserve_bass, loudness)[5] == intensity,
        engine_settings(intensity, preserve_bass, loudness)[7] == intensity,
        engine_settings(intensity, preserve_bass, loudness)[9] == intensity,
        engine_settings(intensity, preserve_bass, loudness)[12] == "--reference"@,
        engine_settings(intensity, preserve_bass, loudness)[13] == loudness,
{
    reveal_strlit("true");
    reveal_strlit("false");
    assert("true"@.len() == 4);
    assert("false"@.len() == 5);
    assert("true"@ != "false"@);
    assert(engine_settings(intensity, true, loudness)[11] != engine_settings(
        intensity,
        false,
        loudness,
    )[11]);
}

/// The mastering settings handed to PhaseLimiter, as flag and value pairs: the
/// intensity drives all three matching levels, bass preservation selects the
/// ERB weighting, and the loudness is the engine's reference.
pub fn engine_setting_arguments(intensity: &str, preserve_bass: bool, loudness: &str) -> (v: Vec<
    String,
>)
    ensures
        views(v@) == engine_settings(intensity@, preserve_bass, loudness@),
        views(v@) == seq![
            "--mastering"@,
            "true"@,
            "--mastering_mode"@,
            "mastering5"@,
            "--mastering_matching_level"@,
            intensity@,
            "--mastering_ms_matching_level"@,
            intensity@,
            "--mastering5_mastering_level"@,
            intensity@,
            "--erb_eval_func_weighting"@,
            bool_text(preserve_bass),
            "--reference"@,
            loudness@,
        ],
{
    let mut v: Vec<String> = Vec::new();
    push_str(&mut v, "--mastering");
    push_str(&mut v, "true");
    push_str(&mut v, "--mastering_mode");
    push_str(&mut v, "mastering5");
    push_str(&mut v, "--mastering_matching_level");
    push_str(&mut v, intensity);
    push_str(&mut v, "--mastering_ms_matching_level");
    push_str(&mut v, intensity);
    push_str(&mut v, "--mastering5_mastering_level");
    push_str(&mut v, intensity);
    push_str(&mut v, "--erb_eval_func_weighting");
    if preserve_bass {
        push_str(&mut v, "true");
    } else {
        push_str(&mut v, "false");
    }
    push_str(&mut v, "--reference");
    push_str(&mut v, loudness);
    v
}

/// The name of a manual master: the track's stem, then the loudness (one
/// decimal), the intensity (two decimals) and whether the bass was preserved.
pub open spec fn master_file_name(
    stem: Seq<char>,
    loudness: Seq<char>,
    intensity: Seq<char>,
    preserve_bass: bool,
) -> Seq<char> {
    stem + "_mastered_"@ + loudness + "dB_i"@ + intensity + "_bass-"@ + (if preserve_bass {
        "on"@
    } else {
        "off"@
    }) + ".wav"@
}

/// A manual master's name ends in `_bass-on.wav` when the bass was preserved
/// and in `_bass-off.wav` otherwise, after the track's stem; so two masters that
/// differ only in bass preservation never share a name.
pub proof fn lemma_master_name_reports_bass(
    stem: Seq<char>,
    loudness: Seq<char>,
    intensity: Seq<char>,
    preserve_bass: bool,
)
    ensures
        master_file_name(stem, loudness, intensity, preserve_bass).take(stem.len() as int) == stem,
        preserve_bass ==> ({
            let n = master_file_name(stem, loudness, intensity, preserve_bass);
            &&& n.len() >= 12
            &&& n.subrange(n.len() - 12, n.len() as int) == "_bass-on.wav"@
        }),
        !preserve_bass ==> ({
            let n = master_file_name(stem, loudness, intensity, preserve_bass);
            &&& n.len() >= 13
            &&& n.subrange(n.len() - 13, n.len() as int) == "_bass-off.wav"@
        }),
        master_file_name(stem, loudness, intensity, true) != master_file_name(
            stem,
            loudness,
            intensity,
            false,
        ),
{
    reveal_strlit("_mastered_");
    reveal_strlit("dB_i");
    reveal_strlit("_bass-");
    reveal_strlit("on");
    reveal_strlit("off");
    reveal_strlit(".wav");
    reveal_strlit("_bass-on.wav");
    reveal_strlit("_bass-off.wav");
    let base = stem + "_mastered_"@ + loudness + "dB_i"@ + intensity;
    let on = master_file_name(stem, loudness, intensity, true);
    let off = master_file_name(stem, loudness, intensity, false);
    assert(on =~= base + "_bass-on.wav"@);
    assert(off =~= base + "_bass-off.wav"@);
    assert(on.subrange(on.len() - 12, on.len() as int) =~= "_bass-on.wav"@);
    assert(off.subrange(off.len() - 13, off.len() as int) =~= "_bass-off.wav"@);
    assert(on.len() != off.len());
    let n = master_file_name(stem, loudness, intensity, preserve_bass);
    assert(n.take(stem.len() as int) =~= stem);
}

/// Names a manual master after its settings.
pub fn output_filename(stem: &str, loudness: &str, intensity: &str, preserve_bass: bool) -> (s:
    String)
    ensures
        s@ == master_file_name(stem@, loudness@, intensity@, preserve_bass),
{
    let mut s = String::from_str(stem);
    s.append("_mastered_");
    s.append(loudness);
    s.append("dB_i");
    s.append(intensity);
    s.append("_bass-");
    if preserve_bass {
        s.append("on");
    } else {
        s.append("off");
    }
    s.append(".wav");
    s
}

/// The input part of a measurement: an optional passage (start and length in
/// seconds, as printed), then the file.
pub open spec fn measured_input(path: Seq<char>, passage: Option<(Seq<char>, Seq<char>)>) -> Seq<
    Seq<char>,
> {
    seq!["-hide_banner"@] + match passage {
        Some((start, duration)) => seq!["-ss"@, start, "-t"@, duration],
        None => seq![],
    } + seq!["-i"@, path]
}

pub open spec fn passage_view(passage: Option<(&str, &str)>) -> Option<(Seq<char>, Seq<char>)> {
    match passage {
        Some((start, duration)) => Some((start@, duration@)),
        None => None,
    }
}

/// The input part of a measurement of `path`, or of a passage of it.
pub fn measured_input_args(path: &str, passage: Option<(&str, &str)>) -> (v: Vec<String>)
    ensures
        views(v@) == measured_input(path@, passage_view(passage)),
{
    let mut v: Vec<String> = Vec::new();
    push_str(&mut v, "-hide_banner");
    match passage {
        Some((start, duration)) => {
            push_str(&mut v, "-ss");
            push_str(&mut v, start);
            push_str(&mut v, "-t");
            push_str(&mut v, duration);
        },
        None => {},
    }
    push_str(&mut v, "-i");
    push_str(&mut v, path);
    assert(views(v@) =~= measured_input(path@, passage_view(passage)));
    v
}

/// The loudness meter: EBU R128 with true peak, and overall statistics.
pub fn meter_arguments(path: &str, passage: Option<(&str, &str)>) -> (v: Vec<String>)
    ensures
        views(v@) == measured_input(path@, passage_view(passage)) + seq![
            "-filter:a"@,
            "ebur128=peak=true,astats=metadata=0:reset=0"@,
            "-f"@,
            "null"@,
            "-"@,
        ],
{
    let mut v = measured_input_args(path, passage);
    push_str(&mut v, "-filter:a");
    push_str(&mut v, "ebur128=peak=true,astats=metadata=0:reset=0");
    push_str(&mut v, "-f");
    push_str(&mut v, "null");
    push_str(&mut v, "-");
    assert(views(v@) =~= measured_input(path@, passage_view(passage)) + seq![
        "-filter:a"@,
        "ebur128=peak=true,astats=metadata=0:reset=0"@,
        "-f"@,
        "null"@,
        "-"@,
    ]);
    v
}

/// A mean-volume measurement through the audio filter `filter`.
pub fn volume_arguments(path: &str, passage: Option<(&str, &str)>, filter: &str) -> (v: Vec<String>)
    ensures
        views(v@) == measured_input(path@, passage_view(passage)) + seq![
            "-af"@,
            filter@,
            "-f"@,
            "null"@,
            "-"@,
        ],
{
    let mut v = measured_input_args(path, passage);
    push_str(&mut v, "-af");
    push_str(&mut v, filter);
    push_str(&mut v, "-f");
    push_str(&mut v, "null");
    push_str(&mut v, "-");
    assert(views(v@) =~= measured_input(path@, passage_view(passage)) + seq![
        "-af"@,
        filter@,
        "-f"@,
        "null"@,
        "-"@,
    ]);
    v
}

/// The four analysis bands, in Hz: low and high edge.
pub open spec fn band_edges(index: int) -> (int, int) {
    if index == 0 {
        (30, 150)
    } else if index == 1 {
        (150, 500)
    } else if index == 2 {
        (500, 4000)
    } else {
        (4000, 16000)
    }
}

/// The number of analysis bands.
pub const BAND_COUNT: usize = 4;

/// The filter that measures band `index`: a high-pass at its low edge, a
/// low-pass at its high edge, then the mean volume.
pub fn band_filter(index: usize) -> (s: String)
    requires
        index < BAND_COUNT,
    ensures
        s@ == "highpass=f="@ + decimal(band_edges(index as int).0 as nat) + ",lowpass=f="@
            + decimal(band_edges(index as int).1 as nat) + ",volumedetect"@,
{
    let (low, high): (u32, u32) = if index == 0 {
        (30, 150)
    } else if index == 1 {
        (150, 500)
    } else if index == 2 {
        (500, 4000)
    } else {
        (4000, 16000)
    };
    let mut s = String::from_str("highpass=f=");
    let low_text = format_unsigned(low as u128);
    let high_text = format_unsigned(high as u128);
    s.append(low_text.as_str());
    s.append(",lowpass=f=");
    s.append(high_text.as_str());
    s.append(",volumedetect");
    s
}

/// Encoding to AAC at 256 kb/s, to see what lossy delivery does to the peaks.
pub fn aac_encode_arguments(path: &str, encoded: &str) -> (v: Vec<String>)
    ensures
        views(v@) == seq![
            "-y"@,
            "-i"@,
            path@,
            "-c:a"@,
            "aac"@,
            "-b:a"@,
            "256k"@,
            encoded@,
        ],
{
    let mut v: Vec<String> = Vec::new();
    push_str(&mut v, "-y");
    push_str(&mut v, "-i");
    push_str(&mut v, path);
    push_str(&mut v, "-c:a");
    push_str(&mut v, "aac");
    push_str(&mut v, "-b:a");
    push_str(&mut v, "256k");
    push_str(&mut v, encoded);
    v
}

/// The true-peak meter on the AAC encoding.
pub fn aac_meter_arguments(encoded: &str) -> (v: Vec<String>)
    ensures
        views(v@) == seq![
            "-hide_banner"@,
            "-i"@,
            encoded@,
            "-filter:a"@,
            "ebur128=peak=true"@,
            "-f"@,
            "null"@,
            "-"@,
        ],
{
    let mut v: Vec<String> = Vec::new();
    push_str(&mut v, "-hide_banner");
    push_str(&mut v, "-i");
    push_str(&mut v, encoded);
    push_str(&mut v, "-filter:a");
    push_str(&mut v, "ebur128=peak=true");
    push_str(&mut v, "-f");
    push_str(&mut v, "null");
    push_str(&mut v, "-");
    v
}

/// A 24-bit PCM copy of `source` with a constant gain (in dB, as printed).
pub fn pcm24_arguments(source: &str, output: &str, gain: &str) -> (v: Vec<String>)
    ensures
        views(v@) == seq![
            "-y"@,
            "-i"@,
            source@,
            "-af"@,
            "volume="@ + gain@ + "dB"@,
            "-c:a"@,
            "pcm_s24le"@,
            output@,
        ],
{
    let mut v: Vec<String> = Vec::new();
    push_str(&mut v, "-y");
    push_str(&mut v, "-i");
    push_str(&mut v, source);
    push_str(&mut v, "-af");
    let mut volume = String::from_str("volume=");
    volume.append(gain);
    volume.append("dB");
    let ghost before = views(v@);
    v.push(volume);
    assert(views(v@) =~= before.push("volume="@ + gain@ + "dB"@));
    push_str(&mut v, "-c:a");
    push_str(&mut v, "pcm_s24le");
    push_str(&mut v, output);
    v
}

/// A 24-bit PCM copy of a passage of `source` (start and length, as printed).
pub fn pcm24_passage_arguments(source: &str, output: &str, start: &str, duration: &str) -> (v:
    Vec<String>)
    ensures
        views(v@) == seq![
            "-y"@,
            "-ss"@,
            start@,
            "-t"@,
            duration@,
            "-i"@,
            source@,
            "-c:a"@,
            "pcm_s24le"@,
            output@,
        ],
{
    let mut v: Vec<String> = Vec::new();
    push_str(&mut v, "-y");
    push_str(&mut v, "-ss");
    push_str(&mut v, start);
    push_str(&mut v, "-t");
    push_str(&mut v, duration);
    push_str(&mut v, "-i");
    push_str(&mut v, source);
    push_str(&mut v, "-c:a");
    push_str(&mut v, "pcm_s24le");
    push_str(&mut v, output);
    v
}

/// The finishing graph: split at 150 Hz, compress the low band when dynamic
/// bass is on, soft-clip each band by the drive when it is above zero, and sum.
pub open spec fn finishing_graph(dynamic_bass: bool, clipping: bool, drive: Seq<char>) -> Seq<
    char,
> {
    "[0:a]"@ + crossover() + "[lowin][high];[lowin]"@ + (if dynamic_bass {
        "compand=attacks=0.02:decays=0.25:points=-90/-90|-20/-20|-8/-9.5|0/-4"@
    } else {
        "anull"@
    }) + "[low]"@ + if clipping {
        ";[low]volume="@ + drive + "dB,asoftclip=type=tanh:param=0.95[clipped_low];[high]volume="@
            + drive
            + "dB,asoftclip=type=tanh:param=0.95[clipped_high];[clipped_low][clipped_high]amix=inputs=2:normalize=0[finished]"@
    } else {
        ";[low][high]amix=inputs=2:normalize=0[finished]"@
    }
}

/// The low band's processor right after the split depends on dynamic bass
/// alone: with it, the compressor, whether or not the bands are clipped;
/// without it, a pass-through.
pub proof fn lemma_low_band_follows_dynamic_bass(dynamic_bass: bool, clipping: bool, drive: Seq<char>)
    ensures
        ({
            let head = "[0:a]"@ + crossover() + "[lowin][high];"@;
            let g = finishing_graph(dynamic_bass, clipping, drive);
            let compressor = "[lowin]compand=attacks=0.02:decays=0.25:points=-90/-90|-20/-20|-8/-9.5|0/-4[low]"@;
            let bypass = "[lowin]anull[low]"@;
            &&& dynamic_bass ==> g.len() >= head.len() + compressor.len() && g.subrange(
                head.len() as int,
                (head.len() + compressor.len()) as int,
            ) == compressor
            &&& !dynamic_bass ==> g.len() >= head.len() + bypass.len() && g.subrange(
                head.len() as int,
                (head.len() + bypass.len()) as int,
            ) == bypass
        }),
{
    reveal_strlit("[0:a]");
    reveal_strlit("acrossover=split=150:order=4th");
    reveal_strlit("[lowin][high];");
    reveal_strlit("[lowin][high];[lowin]");
    reveal_strlit("[lowin]compand=attacks=0.02:decays=0.25:points=-90/-90|-20/-20|-8/-9.5|0/-4[low]");
    reveal_strlit("compand=attacks=0.02:decays=0.25:points=-90/-90|-20/-20|-8/-9.5|0/-4");
    reveal_strlit("[lowin]anull[low]");
    reveal_strlit("anull");
    reveal_strlit("[low]");
    let head = "[0:a]"@ + crossover() + "[lowin][high];"@;
    let tail = if clipping {
        ";[low]volume="@ + drive + "dB,asoftclip=type=tanh:param=0.95[clipped_low];[high]volume="@
            + drive
            + "dB,asoftclip=type=tanh:param=0.95[clipped_high];[clipped_low][clipped_high]amix=inputs=2:normalize=0[finished]"@
    } else {
        ";[low][high]amix=inputs=2:normalize=0[finished]"@
    };
    let g = finishing_graph(dynamic_bass, clipping, drive);
    if dynamic_bass {
        let c = "[lowin]compand=attacks=0.02:decays=0.25:points=-90/-90|-20/-20|-8/-9.5|0/-4[low]"@;
        assert(g =~= head + c + tail);
        assert(g.subrange(head.len() as int, (head.len() + c.len()) as int) =~= c);
    } else {
        let c = "[lowin]anull[low]"@;
        assert(g =~= head + c + tail);
        assert(g.subrange(head.len() as int, (head.len() + c.len()) as int) =~= c);
    }
}

/// With clipping, both bands are driven by the same drive and soft-clipped:
/// the graph holds `[low]volume=<drive>dB,asoftclip=type=tanh:param=0.95` and,
/// after it, the same for `[high]`. Without clipping the drive is not used.
/// Either way the two bands are summed without normalisation to `[finished]`.
pub proof fn lemma_clipping_drives_both_bands(dynamic_bass: bool, drive: Seq<char>, other: Seq<char>)
    ensures
        ({
            let g = finishing_graph(dynamic_bass, true, drive);
            let clip = "dB,asoftclip=type=tanh:param=0.95"@;
            exists|i: int, j: int|
                i < j && #[trigger] occurs_at(g, "[low]volume="@ + drive + clip, i)
                    && #[trigger] occurs_at(g, "[high]volume="@ + drive + clip, j)
        }),
        finishing_graph(dynamic_bass, false, drive) == finishing_graph(dynamic_bass, false, other),
        ({
            let end = "amix=inputs=2:normalize=0[finished]"@;
            let a = finishing_graph(dynamic_bass, true, drive);
            let b = finishing_graph(dynamic_bass, false, drive);
            &&& a.len() >= end.len() && a.subrange(a.len() - end.len(), a.len() as int) == end
            &&& b.len() >= end.len() && b.subrange(b.len() - end.len(), b.len() as int) == end
        }),
{
    let clip = "dB,asoftclip=type=tanh:param=0.95"@;
    let l1 = ";[low]volume="@;
    let l2 = "dB,asoftclip=type=tanh:param=0.95[clipped_low];[high]volume="@;
    let l3 = "dB,asoftclip=type=tanh:param=0.95[clipped_high];[clipped_low][clipped_high]amix=inputs=2:normalize=0[finished]"@;
    let l4 = ";[low][high]amix=inputs=2:normalize=0[finished]"@;
    let end = "amix=inputs=2:normalize=0[finished]"@;
    reveal_strlit(";[low]volume=");
    reveal_strlit("dB,asoftclip=type=tanh:param=0.95[clipped_low];[high]volume=");
    reveal_strlit(
        "dB,asoftclip=type=tanh:param=0.95[clipped_high];[clipped_low][clipped_high]amix=inputs=2:normalize=0[finished]",
    );
    reveal_strlit(";[low][high]amix=inputs=2:normalize=0[finished]");
    reveal_strlit("amix=inputs=2:normalize=0[finished]");
    reveal_strlit("dB,asoftclip=type=tanh:param=0.95");
    reveal_strlit("[low]volume=");
    reveal_strlit("[high]volume=");
    let front = "[0:a]"@ + crossover() + "[lowin][high];[lowin]"@ + (if dynamic_bass {
        "compand=attacks=0.02:decays=0.25:points=-90/-90|-20/-20|-8/-9.5|0/-4"@
    } else {
        "anull"@
    }) + "[low]"@;
    let a = finishing_graph(dynamic_bass, true, drive);
    let b = finishing_graph(dynamic_bass, false, drive);
    assert(a =~= front + l1 + drive + l2 + drive + l3);
    assert(b =~= front + l4);
    let low = "[low]volume="@ + drive + clip;
    let high = "[high]volume="@ + drive + clip;
    let i: int = front.len() as int + 1;
    let j: int = front.len() + l1.len() + drive.len() + l2.len() - 13;
    assert(l1 =~= seq![';'] + "[low]volume="@);
    assert(l2.take(33) =~= clip);
    assert(l2.skip(l2.len() - 13) =~= "[high]volume="@);
    assert(l3.take(33) =~= clip);
    assert(a.subrange(i, i + low.len()) =~= low);
    assert(a.subrange(j, j + high.len()) =~= high);
    assert(occurs_at(a, low, i));
    assert(occurs_at(a, high, j));
    assert(l3.skip(l3.len() - end.len()) =~= end);
    assert(l4.skip(l4.len() - end.len()) =~= end);
    assert(a.subrange(a.len() - end.len(), a.len() as int) =~= end);
    assert(b.subrange(b.len() - end.len(), b.len() as int) =~= end);
}

/// The finishing command: the graph only when it changes something, then
/// 32-bit float output.
pub open spec fn finishing_command(
    source: Seq<char>,
    output: Seq<char>,
    dynamic_bass: bool,
    clipping: bool,
    drive: Seq<char>,
) -> Seq<Seq<char>> {
    seq!["-y"@, "-i"@, source] + (if dynamic_bass || clipping {
        seq![
            "-filter_complex"@,
            finishing_graph(dynamic_bass, clipping, drive),
            "-map"@,
            "[finished]"@,
        ]
    } else {
        seq![]
    }) + seq!["-c:a"@, "pcm_f32le"@, output]
}

fn finishing_graph_text(dynamic_bass: bool, clipping: bool, drive: &str) -> (s: String)
    ensures
        s@ == finishing_graph(dynamic_bass, clipping, drive@),
{
    let mut s = String::from_str("[0:a]");
    s.append("acrossover=split=150:order=4th");
    s.append("[lowin][high];[lowin]");
    if dynamic_bass {
        s.append("compand=attacks=0.02:decays=0.25:points=-90/-90|-20/-20|-8/-9.5|0/-4");
    } else {
        s.append("anull");
    }
    s.append("[low]");
    if clipping {
        s.append(";[low]volume=");
        s.append(drive);
        s.append("dB,asoftclip=type=tanh:param=0.95[clipped_low];[high]volume=");
        s.append(drive);
        s.append(
            "dB,asoftclip=type=tanh:param=0.95[clipped_high];[clipped_low][clipped_high]amix=inputs=2:normalize=0[finished]",
        );
    } else {
        s.append(";[low][high]amix=inputs=2:normalize=0[finished]");
    }
    s
}

/// The finishing stage of a master: refuses a soft-clip drive outside 0 to 2
/// dB; `drive` is that drive as printed (three decimals).
pub fn finish_arguments(
    source: &str,
    output: &str,
    dynamic_bass: bool,
    soft_clip_db: FloatBits,
    drive: &str,
) -> (r: Result<Vec<String>, MasteringError>)
    ensures
        !soft_clip_ok(soft_clip_db) ==> r == Err::<Vec<String>, _>(
            MasteringError::SoftClipOutOfRange,
        ),
        soft_clip_ok(soft_clip_db) ==> (r matches Ok(v) && views(v@) == finishing_command(
            source@,
            output@,
            dynamic_bass,
            float(ZERO).lt(soft_clip_db),
            drive@,
        )),
{
    match check_soft_clip(soft_clip_db) {
        Err(e) => {
            return Err(e);
        },
        Ok(()) => {},
    }
    let clipping = soft_clip_active(soft_clip_db);
    let mut v: Vec<String> = Vec::new();
    push_str(&mut v, "-y");
    push_str(&mut v, "-i");
    push_str(&mut v, source);
    if dynamic_bass || clipping {
        push_str(&mut v, "-filter_complex");
        let graph = finishing_graph_text(dynamic_bass, clipping, drive);
        let ghost before = views(v@);
        v.push(graph);
        assert(views(v@) =~= before.push(finishing_graph(dynamic_bass, clipping, drive@)));
        push_str(&mut v, "-map");
        push_str(&mut v, "[finished]");
    }
    push_str(&mut v, "-c:a");
    push_str(&mut v, "pcm_f32le");
    push_str(&mut v, output);
    assert(views(v@) =~= finishing_command(source@, output@, dynamic_bass, clipping, drive@));
    Ok(v)
}

/// The delivery-level probe: EBU R128 with true peak, without progress lines.
pub fn delivery_probe_arguments(path: &str) -> (v: Vec<String>)
    ensures
        views(v@) == seq![
            "-hide_banner"@,
            "-nostats"@,
            "-i"@,
            path@,
            "-af"@,
            "ebur128=peak=true"@,
            "-f"@,
            "null"@,
            "-"@,
        ],
{
    let mut v: Vec<String> = Vec::new();
    push_str(&mut v, "-hide_banner");
    push_str(&mut v, "-nostats");
    push_str(&mut v, "-i");
    push_str(&mut v, path);
    push_str(&mut v, "-af");
    push_str(&mut v, "ebur128=peak=true");
    push_str(&mut v, "-f");
    push_str(&mut v, "null");
    push_str(&mut v, "-");
    v
}

/// The final level stage. When the gain keeps the true peak at or below the
/// ceiling, a plain gain. Otherwise each band is driven and saturated on its
/// own, at four times the sample rate; the sum is lowered by 3 dB, hard-limited
/// and brought back to the sample rate, so there is no broadband gain envelope.
pub open spec fn final_level_graph(gain: Seq<char>, plain: bool, sample_rate: nat) -> Seq<char> {
    if plain {
        "[0:a]volume="@ + gain + "dB[finished]"@
    } else {
        "[0:a]aresample="@ + decimal(sample_rate * 4) + ","@ + crossover()
            + "[low][high];[low]volume="@ + gain
            + "dB,asoftclip=type=tanh[limited_low];[high]volume="@ + gain
            + "dB,asoftclip=type=tanh[limited_high];[limited_low][limited_high]amix=inputs=2:normalize=0,volume=0.70710678,asoftclip=type=hard,aresample="@
            + decimal(sample_rate) + "[finished]"@
    }
}

/// When the gain would take the true peak over the ceiling, the graph ends by
/// resampling to the source's own rate, whatever that rate is, after working
/// at four times that rate.
pub proof fn lemma_saturated_graph_returns_to_source_rate(gain: Seq<char>, sample_rate: nat)
    ensures
        ({
            let g = final_level_graph(gain, false, sample_rate);
            let tail = "aresample="@ + decimal(sample_rate) + "[finished]"@;
            let head = "[0:a]aresample="@ + decimal(sample_rate * 4) + ","@;
            &&& g.len() >= tail.len()
            &&& g.subrange(g.len() - tail.len(), g.len() as int) == tail
            &&& g.len() >= head.len()
            &&& g.take(head.len() as int) == head
        }),
{
    let lit = "dB,asoftclip=type=tanh[limited_high];[limited_low][limited_high]amix=inputs=2:normalize=0,volume=0.70710678,asoftclip=type=hard,aresample="@;
    reveal_strlit("dB,asoftclip=type=tanh[limited_high];[limited_low][limited_high]amix=inputs=2:normalize=0,volume=0.70710678,asoftclip=type=hard,aresample=");
    reveal_strlit("aresample=");
    let g = final_level_graph(gain, false, sample_rate);
    let head = "[0:a]aresample="@ + decimal(sample_rate * 4) + ","@;
    let middle = crossover() + "[low][high];[low]volume="@ + gain
        + "dB,asoftclip=type=tanh[limited_low];[high]volume="@ + gain;
    let tail = "aresample="@ + decimal(sample_rate) + "[finished]"@;
    let cut = lit.len() - 10;
    assert(lit.skip(cut) =~= "aresample="@);
    assert(lit =~= lit.take(cut) + "aresample="@);
    assert(g =~= head + middle + lit + decimal(sample_rate) + "[finished]"@);
    assert(g =~= (head + middle + lit.take(cut)) + tail);
    assert(g.subrange(g.len() - tail.len(), g.len() as int) =~= tail);
    assert(g.take(head.len() as int) =~= head);
}

/// The final level filter for a gain (as printed, three decimals), given the
/// true peak the gain would reach on its own (`peak_with_gain`, the measured
/// peak plus the gain) and the sample rate of the source.
pub fn final_level_filter(gain: &str, peak_with_gain: FloatBits, sample_rate: u32) -> (s: String)
    requires
        sample_rate <= u32::MAX / 4,
    ensures
        s@ == final_level_graph(
            gain@,
            peak_with_gain.le(float(TRUE_PEAK_CEILING)),
            sample_rate as nat,
        ),
{
    if within_true_peak_ceiling(peak_with_gain) {
        let mut s = String::from_str("[0:a]volume=");
        s.append(gain);
        s.append("dB[finished]");
        return s;
    }
    let oversampled = format_unsigned((sample_rate * 4) as u128);
    let rate = format_unsigned(sample_rate as u128);
    let mut s = String::from_str("[0:a]aresample=");
    s.append(oversampled.as_str());
    s.append(",");
    s.append("acrossover=split=150:order=4th");
    s.append("[low][high];[low]volume=");
    s.append(gain);
    s.append("dB,asoftclip=type=tanh[limited_low];[high]volume=");
    s.append(gain);
    s.append(
        "dB,asoftclip=type=tanh[limited_high];[limited_low][limited_high]amix=inputs=2:normalize=0,volume=0.70710678,asoftclip=type=hard,aresample=",
    );
    s.append(rate.as_str());
    s.append("[finished]");
    s
}

/// Rendering the final level stage to 32-bit float.
pub fn final_render_arguments(source: &str, filter: &str, output: &str) -> (v: Vec<String>)
    ensures
        views(v@) == seq![
            "-y"@,
            "-i"@,
            source@,
            "-filter_complex"@,
            filter@,
            "-map"@,
            "[finished]"@,
            "-c:a"@,
            "pcm_f32le"@,
            output@,
        ],
{
    let mut v: Vec<String> = Vec::new();
    push_str(&mut v, "-y");
    push_str(&mut v, "-i");
    push_str(&mut v, source);
    push_str(&mut v, "-filter_complex");
    push_str(&mut v, filter);
    push_str(&mut v, "-map");
    push_str(&mut v, "[finished]");
    push_str(&mut v, "-c:a");
    push_str(&mut v, "pcm_f32le");
    push_str(&mut v, output);
    v
}

} // verus!
