//! Reading the text that PhaseLimiter and FFmpeg print.
//!
//! The numbers in these logs are decimal fractions; turning their text into a
//! floating-point value is left to the caller. These readers find the text.
use vstd::prelude::*;
use crate::number::{parse_u32, parse_u32_chars};
use crate::text::{
    chars_of, contains, copy_range, find, find_chars, find_from, first_word, first_word_of,
    last_word, last_word_of, lines, occurs_at, occurs_at_pos, split_lines, string_from_chars,
    strip_prefix, trim, trim_chars, views,
};

verus! {

/// What follows `progression:` in a PhaseLimiter progress line: its first word.
pub open spec fn progression_word(line: Seq<char>) -> Option<Seq<char>> {
    match find(line, "progression:"@) {
        Some(k) => first_word(line.skip(k + "progression:"@.len())),
        None => None,
    }
}

/// The word that a log line gives for the metric `name`: the line, trimmed,
/// must begin with `name`; the word is the first one after it.
pub open spec fn metric_word(line: Seq<char>, name: Seq<char>) -> Option<Seq<char>> {
    match strip_prefix(trim(line), name) {
        Some(rest) => first_word(rest),
        None => None,
    }
}

/// The metric words of the given lines, in line order (lines without one are skipped).
pub open spec fn metric_words(ls: Seq<Seq<char>>, name: Seq<char>) -> Seq<Seq<char>>
    decreases ls.len(),
{
    if ls.len() == 0 {
        seq![]
    } else {
        let rest = metric_words(ls.drop_first(), name);
        match metric_word(ls[0], name) {
            Some(w) => seq![w] + rest,
            None => rest,
        }
    }
}

/// The sample rate that an FFmpeg stream line states: on a line that mentions
/// `Audio:`, the last word before the first ` Hz`, read as a `u32`.
pub open spec fn line_sample_rate(line: Seq<char>) -> Option<u32> {
    if contains(line, "Audio:"@) {
        let head = match find(line, " Hz"@) {
            Some(k) => line.take(k),
            None => line,
        };
        match last_word(head) {
            Some(w) => parse_u32(w),
            None => None,
        }
    } else {
        None
    }
}

/// The first sample rate that the given lines state.
pub open spec fn first_sample_rate(ls: Seq<Seq<char>>) -> Option<u32>
    decreases ls.len(),
{
    if ls.len() == 0 {
        None
    } else {
        match line_sample_rate(ls[0]) {
            Some(r) => Some(r),
            None => first_sample_rate(ls.drop_first()),
        }
    }
}

/// The word after `progression:` in a PhaseLimiter output line, if any. The
/// engine reports its progress as a fraction of one after that marker.
pub fn progression_token(line: &str) -> (r: Option<String>)
    ensures
        r matches Some(t) ==> progression_word(line@) == Some(t@),
        r is None ==> progression_word(line@) is None,
{
    let s = chars_of(line);
    let key = chars_of("progression:");
    match find_chars(&s, &key, 0) {
        Some(k) => {
            proof {
                lemma_find_from_bounds(s@, key@, 0);
            }
            let rest = copy_range(&s, k + key.len(), s.len());
            assert(rest@ =~= s@.skip(k + key@.len()));
            match first_word_of(&rest) {
                Some(w) => Some(string_from_chars(&w)),
                None => None,
            }
        },
        None => None,
    }
}

/// A found position lies where the pattern fits.
pub proof fn lemma_find_from_bounds(s: Seq<char>, p: Seq<char>, k: int)
    ensures
        find_from(s, p, k) matches Some(i) ==> k <= i && occurs_at(s, p, i),
    decreases s.len() + 1 - k,
{
    if k < 0 || k + p.len() > s.len() {
    } else if occurs_at(s, p, k) {
    } else {
        lemma_find_from_bounds(s, p, k + 1);
    }
}

/// `metric_word` computed over one line.
pub fn line_metric_word(line: &Vec<char>, name: &Vec<char>) -> (r: Option<Vec<char>>)
    ensures
        r matches Some(w) ==> metric_word(line@, name@) == Some(w@),
        r is None ==> metric_word(line@, name@) is None,
{
    let t = trim_chars(line);
    if occurs_at_pos(&t, name, 0) {
        assert(t@.take(name@.len() as int) =~= t@.subrange(0, name@.len() as int));
        let rest = copy_range(&t, name.len(), t.len());
        assert(rest@ =~= t@.skip(name@.len() as int));
        first_word_of(&rest)
    } else {
        assert(t@.take(name@.len() as int) =~= t@.subrange(0, name@.len() as int));
        None
    }
}

/// Every word that the log gives for the metric `name`, in line order: for each
/// line that, trimmed, begins with `name`, the first word after it. A caller
/// that wants the last readable value walks this list from its end.
pub fn metric_tokens(log: &str, name: &str) -> (r: Vec<String>)
    ensures
        views(r@) == metric_words(lines(log@), name@),
{
    let s = chars_of(log);
    let key = chars_of(name);
    let ls = split_lines(&s);
    let ghost lv = ls@.map_values(|l: Vec<char>| l@);
    assert(lv == lines(log@));
    let mut out: Vec<String> = Vec::new();
    let mut i: usize = 0;
    assert(lv.skip(0) =~= lv);
    assert(views(out@) + metric_words(lv, name@) =~= metric_words(lv, name@));
    while i < ls.len()
        invariant
            i <= ls.len(),
            lv == ls@.map_values(|l: Vec<char>| l@),
            key@ == name@,
            views(out@) + metric_words(lv.skip(i as int), name@) == metric_words(lv, name@),
        decreases ls.len() - i,
    {
        let ghost tail = lv.skip(i as int);
        assert(tail[0] == ls@[i as int]@);
        assert(tail.drop_first() =~= lv.skip(i + 1));
        match line_metric_word(&ls[i], &key) {
            Some(w) => {
                let ghost before = views(out@);
                out.push(string_from_chars(&w));
                assert(views(out@) =~= before.push(w@));
                assert(before.push(w@) + metric_words(lv.skip(i + 1), name@) =~= before + (seq![
                    w@,
                ] + metric_words(lv.skip(i + 1), name@)));
            },
            None => {},
        }
        i = i + 1;
    }
    assert(lv.skip(i as int) =~= Seq::<Seq<char>>::empty());
    assert(views(out@) + Seq::<Seq<char>>::empty() =~= views(out@));
    out
}

/// `line_sample_rate` computed over one line.
pub fn line_audio_rate(line: &Vec<char>) -> (r: Option<u32>)
    ensures
        r == line_sample_rate(line@),
{
    let audio = chars_of("Audio:");
    match find_chars(line, &audio, 0) {
        None => None,
        Some(_) => {
            let hz = chars_of(" Hz");
            let head = match find_chars(line, &hz, 0) {
                Some(k) => {
                    proof {
                        lemma_find_from_bounds(line@, hz@, 0);
                    }
                    let h = copy_range(line, 0, k);
                    assert(h@ =~= line@.take(k as int));
                    h
                },
                None => {
                    let h = copy_range(line, 0, line.len());
                    assert(h@ =~= line@);
                    h
                },
            };
            match last_word_of(&head) {
                Some(w) => parse_u32_chars(&w),
                None => None,
            }
        },
    }
}

/// The sample rate that FFmpeg reports for the audio stream: on the first line
/// that mentions `Audio:` and states a readable rate, the last word before ` Hz`.
pub fn audio_sample_rate(log: &str) -> (r: Option<u32>)
    ensures
        r == first_sample_rate(lines(log@)),
{
    let s = chars_of(log);
    let ls = split_lines(&s);
    let ghost lv = ls@.map_values(|l: Vec<char>| l@);
    let mut i: usize = 0;
    assert(lv.skip(0) =~= lv);
    while i < ls.len()
        invariant
            i <= ls.len(),
            lv == ls@.map_values(|l: Vec<char>| l@),
            lv == lines(log@),
            first_sample_rate(lv.skip(i as int)) == first_sample_rate(lv),
        decreases ls.len() - i,
    {
        let ghost tail = lv.skip(i as int);
        assert(tail[0] == ls@[i as int]@);
        assert(tail.drop_first() =~= lv.skip(i + 1));
        match line_audio_rate(&ls[i]) {
            Some(rate) => {
                return Some(rate);
            },
            None => {},
        }
        i = i + 1;
    }
    assert(lv.skip(i as int) =~= Seq::<Seq<char>>::empty());
    None
}

/// Whether an FFmpeg log names a mono or a stereo channel layout.
pub fn has_mono_or_stereo(log: &str) -> (r: bool)
    ensures
        r == (contains(log@, " mono"@) || contains(log@, " stereo"@)),
{
    let s = chars_of(log);
    let mono = chars_of(" mono");
    let stereo = chars_of(" stereo");
    find_chars(&s, &mono, 0).is_some() || find_chars(&s, &stereo, 0).is_some()
}

} // verus!
