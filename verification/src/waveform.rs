//! The overview waveform of a track: the loudest sample of each of a fixed
//! number of equal slices of the track.
//!
//! FFmpeg decodes the track to mono little-endian 32-bit floats. A sample's
//! magnitude is its pattern with the sign bit cleared; for values that are not
//! NaN, larger patterns are larger magnitudes, so the loudest sample of a slice
//! is found by comparing patterns. NaN samples are passed over, as `f32::max` does.
use vstd::prelude::*;
use crate::rules::MasteringError;

verus! {

/// The number of slices of the overview.
pub const WAVEFORM_BINS: usize = 240;

/// The rate, in samples per second, at which the overview is decoded.
pub const WAVEFORM_SAMPLE_RATE: usize = 4000;

/// The pattern of `f32` positive infinity; a magnitude above it is NaN.
pub const F32_INFINITY_BITS: u32 = 0x7f80_0000;

/// The `i`-th little-endian 32-bit word of `pcm`.
pub open spec fn sample_word(pcm: Seq<u8>, i: int) -> int {
    pcm[4 * i] + pcm[4 * i + 1] * 256 + pcm[4 * i + 2] * 65536 + pcm[4 * i + 3] * 16777216
}

/// The magnitude (`f32::abs`) of the `i`-th sample, as a pattern.
pub open spec fn sample_magnitude(pcm: Seq<u8>, i: int) -> int {
    sample_word(pcm, i) % 0x8000_0000
}

/// The slice of the overview that sample `i` of `n` falls in.
pub open spec fn bin_of(i: int, n: int) -> int {
    i * WAVEFORM_BINS / n
}

/// The loudest magnitude among the first `k` samples that fall in slice `b`,
/// passing over NaN; 0 when there is none.
pub open spec fn peak_upto(pcm: Seq<u8>, n: int, k: int, b: int) -> int
    decreases k,
{
    if k <= 0 {
        0
    } else {
        let p = peak_upto(pcm, n, k - 1, b);
        let s = sample_magnitude(pcm, k - 1);
        if bin_of(k - 1, n) == b && s <= F32_INFINITY_BITS && p < s {
            s
        } else {
            p
        }
    }
}

/// The samples of a decoded track, sliced.
pub struct WaveformPeaks {
    /// The number of whole 4-byte samples.
    pub sample_count: usize,
    /// The loudest magnitude of each slice, as an `f32` pattern.
    pub peaks: Vec<u32>,
}

/// Each sample of `n` falls in one of the slices.
pub proof fn lemma_bin_in_range(i: int, n: int)
    requires
        0 <= i < n,
    ensures
        0 <= bin_of(i, n) < WAVEFORM_BINS,
{
    assert(0 <= i * 240 / n < 240) by (nonlinear_arith)
        requires
            0 <= i < n,
    ;
}

/// Later samples never fall in earlier slices.
pub proof fn lemma_bins_in_order(i: int, j: int, n: int)
    requires
        0 <= i <= j < n,
    ensures
        bin_of(i, n) <= bin_of(j, n),
{
    assert(i * 240 / n <= j * 240 / n) by (nonlinear_arith)
        requires
            0 <= i <= j,
            0 < n,
    ;
}

/// The peak of a slice is at least the magnitude of each of its samples that is
/// not NaN, is never NaN itself, and is either 0 or the magnitude of one of them.
pub proof fn lemma_peak_is_loudest(pcm: Seq<u8>, n: int, k: int, b: int)
    requires
        0 <= k,
        4 * k <= pcm.len(),
    ensures
        forall|i: int|
            0 <= i < k && bin_of(i, n) == b && sample_magnitude(pcm, i) <= F32_INFINITY_BITS
                ==> sample_magnitude(pcm, i) <= #[trigger] peak_upto(pcm, n, k, b),
        0 <= peak_upto(pcm, n, k, b) <= F32_INFINITY_BITS,
        peak_upto(pcm, n, k, b) == 0 || exists|i: int|
            0 <= i < k && bin_of(i, n) == b && sample_magnitude(pcm, i) == peak_upto(
                pcm,
                n,
                k,
                b,
            ),
    decreases k,
{
    if k > 0 {
        lemma_peak_is_loudest(pcm, n, k - 1, b);
        let p = peak_upto(pcm, n, k - 1, b);
        if p != 0 && peak_upto(pcm, n, k, b) == p {
            let i = choose|i: int|
                0 <= i < k - 1 && bin_of(i, n) == b && sample_magnitude(pcm, i) == p;
            assert(0 <= i < k && bin_of(i, n) == b && sample_magnitude(pcm, i) == peak_upto(
                pcm,
                n,
                k,
                b,
            ));
        }
    }
}

/// The 32-bit word at sample `i`, and its magnitude.
fn magnitude_at(pcm: &[u8], i: usize) -> (m: u32)
    requires
        4 * i + 4 <= pcm.len(),
    ensures
        m == sample_magnitude(pcm@, i as int),
{
    let word: u32 = pcm[4 * i] as u32 + pcm[4 * i + 1] as u32 * 256 + pcm[4 * i + 2] as u32
        * 65536 + pcm[4 * i + 3] as u32 * 16777216;
    word % 0x8000_0000
}

/// Slices decoded samples for the overview: the number of whole samples, and
/// for each of the 240 slices the loudest magnitude in it. Fails when there is
/// not one whole sample.
pub fn waveform_peaks(pcm: &[u8]) -> (r: Result<WaveformPeaks, MasteringError>)
    ensures
        pcm@.len() < 4 ==> (r matches Err(e) && e == MasteringError::NoWaveformSamples),
        pcm@.len() >= 4 ==> (r matches Ok(w) && {
            &&& w.sample_count == pcm@.len() / 4
            &&& w.peaks@.len() == WAVEFORM_BINS
            &&& forall|b: int|
                0 <= b < WAVEFORM_BINS ==> #[trigger] w.peaks@[b] == peak_upto(
                    pcm@,
                    w.sample_count as int,
                    w.sample_count as int,
                    b,
                )
        }),
{
    let n = pcm.len() / 4;
    if n == 0 {
        return Err(MasteringError::NoWaveformSamples);
    }
    let mut peaks: Vec<u32> = Vec::new();
    let mut b: usize = 0;
    while b < WAVEFORM_BINS
        invariant
            b <= WAVEFORM_BINS,
            peaks@.len() == b,
            forall|c: int| 0 <= c < b ==> #[trigger] peaks@[c] == 0,
        decreases WAVEFORM_BINS - b,
    {
        peaks.push(0);
        b = b + 1;
    }
    let mut i: usize = 0;
    while i < n
        invariant
            n == pcm@.len() / 4,
            0 < n,
            i <= n,
            peaks@.len() == WAVEFORM_BINS,
            forall|c: int|
                0 <= c < WAVEFORM_BINS ==> #[trigger] peaks@[c] == peak_upto(
                    pcm@,
                    n as int,
                    i as int,
                    c,
                ),
        decreases n - i,
    {
        let s = magnitude_at(pcm, i);
        proof {
            lemma_bin_in_range(i as int, n as int);
        }
        let bin = ((i as u128) * 240 / (n as u128)) as usize;
        assert(bin == bin_of(i as int, n as int));
        if s <= F32_INFINITY_BITS && peaks[bin] < s {
            peaks.set(bin, s);
        }
        assert forall|c: int| 0 <= c < WAVEFORM_BINS implies #[trigger] peaks@[c] == peak_upto(
            pcm@,
            n as int,
            i + 1,
            c,
        ) by {
            assert(peak_upto(pcm@, n as int, i + 1, c) == (if bin_of(i as int, n as int) == c
                && sample_magnitude(pcm@, i as int) <= F32_INFINITY_BITS && peak_upto(
                pcm@,
                n as int,
                i as int,
                c,
            ) < sample_magnitude(pcm@, i as int) {
                sample_magnitude(pcm@, i as int)
            } else {
                peak_upto(pcm@, n as int, i as int, c)
            }));
        }
        i = i + 1;
    }
    Ok(WaveformPeaks { sample_count: n, peaks })
}

} // verus!
