//! Names of files and sessions, the audio types the tool accepts, the check on
//! the WAV file the finishing stage writes, and the lookup of an Auto result.
use vstd::prelude::*;
use crate::number::{decimal, format_unsigned, lemma_decimal_digits, digits_value};
use crate::rules::MasteringError;
use crate::text::{chars_of, occurs_at_pos};

verus! {

/// Whether two strings are equal.
pub fn str_equal(a: &str, b: &str) -> (r: bool)
    ensures
        r == (a@ == b@),
{
    let x = chars_of(a);
    let y = chars_of(b);
    if x.len() != y.len() {
        return false;
    }
    let r = occurs_at_pos(&x, &y, 0);
    assert(x@.subrange(0, y@.len() as int) =~= x@);
    r
}

/// `char::to_ascii_lowercase`.
pub open spec fn ascii_lower(c: char) -> char {
    if 'A' <= c && c <= 'Z' {
        ((c as int) + 32) as char
    } else {
        c
    }
}

/// `str::to_ascii_lowercase`.
pub open spec fn ascii_lowercase(s: Seq<char>) -> Seq<char> {
    s.map_values(|c: char| ascii_lower(c))
}

/// The audio types the tool reads, by extension, in any letter case.
pub open spec fn supported_audio_extension(ext: Seq<char>) -> bool {
    let lower = ascii_lowercase(ext);
    lower == "wav"@ || lower == "flac"@ || lower == "mp3"@
}

fn lower_char(c: char) -> (r: char)
    ensures
        r == ascii_lower(c),
{
    if 'A' <= c && c <= 'Z' {
        ((c as u8) + 32) as char
    } else {
        c
    }
}

/// Accepts a WAV, FLAC or MP3 file by its extension (`""` when it has none).
pub fn check_audio_extension(ext: &str) -> (r: Result<(), MasteringError>)
    ensures
        r is Ok <==> supported_audio_extension(ext@),
        r is Err ==> r == Err::<(), _>(MasteringError::UnsupportedAudioType),
{
    let chars = chars_of(ext);
    let mut lower: Vec<char> = Vec::new();
    let mut i: usize = 0;
    while i < chars.len()
        invariant
            i <= chars@.len(),
            chars@ == ext@,
            lower@ == ascii_lowercase(chars@.take(i as int)),
        decreases chars.len() - i,
    {
        lower.push(lower_char(chars[i]));
        i = i + 1;
        assert(lower@ =~= ascii_lowercase(chars@.take(i as int)));
    }
    assert(chars@.take(i as int) =~= chars@);
    let wav = chars_of("wav");
    let flac = chars_of("flac");
    let mp3 = chars_of("mp3");
    let ok = (lower.len() == wav.len() && occurs_at_pos(&lower, &wav, 0)) || (lower.len()
        == flac.len() && occurs_at_pos(&lower, &flac, 0)) || (lower.len() == mp3.len()
        && occurs_at_pos(&lower, &mp3, 0));
    assert(lower@.subrange(0, lower@.len() as int) =~= lower@);
    if ok {
        Ok(())
    } else {
        Err(MasteringError::UnsupportedAudioType)
    }
}

/// A finished file is a WAV file: it begins `RIFF`, its bytes 8 to 11 read
/// `WAVE`, and it holds more than a 44-byte header.
pub open spec fn valid_wav(header: Seq<u8>, file_len: Option<u64>) -> bool {
    &&& header.subrange(0, 4) == seq![0x52u8, 0x49u8, 0x46u8, 0x46u8]
    &&& header.subrange(8, 12) == seq![0x57u8, 0x41u8, 0x56u8, 0x45u8]
    &&& file_len matches Some(n) && n > 44
}

/// Checks the first 12 bytes and the length (if known) of a finished file.
pub fn check_wav_header(header: &[u8], file_len: Option<u64>) -> (r: Result<(), MasteringError>)
    requires
        header@.len() == 12,
    ensures
        r is Ok <==> valid_wav(header@, file_len),
        r is Err ==> r == Err::<(), _>(MasteringError::InvalidWav),
{
    let riff = header[0] == 0x52 && header[1] == 0x49 && header[2] == 0x46 && header[3] == 0x46;
    let wave = header[8] == 0x57 && header[9] == 0x41 && header[10] == 0x56 && header[11] == 0x45;
    assert(riff == (header@.subrange(0, 4) =~= seq![0x52u8, 0x49u8, 0x46u8, 0x46u8]));
    assert(wave == (header@.subrange(8, 12) =~= seq![0x57u8, 0x41u8, 0x56u8, 0x45u8]));
    let long_enough = match file_len {
        Some(n) => n > 44,
        None => false,
    };
    if !riff || !wave || !long_enough {
        return Err(MasteringError::InvalidWav);
    }
    Ok(())
}

/// Where an external program is taken from.
#[derive(Clone, Copy, PartialEq, Eq, Debug)]
pub enum ProgramLocation {
    /// The copy in the tool's own `bin` folder.
    Bundled,
    /// The copy in the `PATH` entry at this position.
    SearchPath(usize),
}

/// Chooses where to run an external program from: the tool's own copy first;
/// otherwise, when the search path may be used, the first absolute `PATH` entry
/// that holds the program. Each entry is described by whether it is absolute
/// and whether the program is there.
pub fn locate_program(bundled: bool, search_path: bool, entries: &Vec<(bool, bool)>) -> (r: Option<
    ProgramLocation,
>)
    ensures
        bundled ==> r == Some(ProgramLocation::Bundled),
        !bundled && !search_path ==> r is None,
        !bundled && search_path ==> match r {
            Some(ProgramLocation::SearchPath(i)) => {
                &&& i < entries@.len()
                &&& entries@[i as int].0 && entries@[i as int].1
                &&& forall|j: int| 0 <= j < i ==> !(entries@[j].0 && entries@[j].1)
            },
            Some(ProgramLocation::Bundled) => false,
            None => forall|j: int| 0 <= j < entries@.len() ==> !(entries@[j].0 && entries@[j].1),
        },
{
    if bundled {
        return Some(ProgramLocation::Bundled);
    }
    if !search_path {
        return None;
    }
    let mut i: usize = 0;
    while i < entries.len()
        invariant
            i <= entries@.len(),
            !bundled,
            search_path,
            forall|j: int| 0 <= j < i ==> !(entries@[j].0 && entries@[j].1),
        decreases entries.len() - i,
    {
        let (absolute, found) = entries[i];
        if absolute && found {
            return Some(ProgramLocation::SearchPath(i));
        }
        i = i + 1;
    }
    None
}

/// The name an exported Auto master gets: the track's stem, the profile and the
/// target (one decimal); from the second try on, a number before `.wav`.
pub open spec fn export_file_name(
    stem: Seq<char>,
    profile: Seq<char>,
    target: Seq<char>,
    number: nat,
) -> Seq<char> {
    stem + "_hard-techno_"@ + profile + "_target-"@ + target + "LUFS_auto"@ + (if number < 2 {
        seq![]
    } else {
        "_"@ + decimal(number)
    }) + ".wav"@
}

/// Names an exported Auto master; the caller tries 1, 2, 3, ... until the name is free.
pub fn export_filename(stem: &str, profile: &str, target: &str, number: usize) -> (s: String)
    ensures
        s@ == export_file_name(stem@, profile@, target@, number as nat),
{
    let mut s = String::from_str(stem);
    s.append("_hard-techno_");
    s.append(profile);
    s.append("_target-");
    s.append(target);
    s.append("LUFS_auto");
    if number >= 2 {
        let n = format_unsigned(number as u128);
        s.append("_");
        s.append(n.as_str());
    }
    s.append(".wav");
    s
}

/// The next try for an export name: when the name of `number` is taken, the
/// next number; when it is free, none (that name is used).
pub fn next_export_try(number: usize, taken: bool) -> (r: Option<usize>)
    requires
        taken ==> number < usize::MAX,
    ensures
        taken ==> r == Some((number + 1) as usize),
        !taken ==> r is None,
{
    if taken {
        Some(number + 1)
    } else {
        None
    }
}

/// Different tries give different names, so trying on never gives up a free name
/// already tried and never repeats one.
pub proof fn lemma_export_names_distinct(
    stem: Seq<char>,
    profile: Seq<char>,
    target: Seq<char>,
    m: nat,
    n: nat,
)
    requires
        1 <= m,
        1 <= n,
        m != n,
    ensures
        export_file_name(stem, profile, target, m) != export_file_name(stem, profile, target, n),
{
    reveal_strlit("_");
    reveal_strlit(".wav");
    let p = stem + "_hard-techno_"@ + profile + "_target-"@ + target + "LUFS_auto"@;
    let tail = |k: nat|
        if k < 2 {
            seq![]
        } else {
            "_"@ + decimal(k)
        } + ".wav"@;
    assert(export_file_name(stem, profile, target, m) =~= p + tail(m));
    assert(export_file_name(stem, profile, target, n) =~= p + tail(n));
    if p + tail(m) == p + tail(n) {
        assert(tail(m) =~= (p + tail(m)).skip(p.len() as int));
        assert(tail(n) =~= (p + tail(n)).skip(p.len() as int));
        assert(tail(m) == tail(n));
        lemma_decimal_digits(m);
        lemma_decimal_digits(n);
        if m < 2 {
            assert(tail(m)[0] == '.');
            assert(tail(n)[0] == '_');
        } else if n < 2 {
            assert(tail(n)[0] == '.');
            assert(tail(m)[0] == '_');
        } else {
            let t = tail(m);
            assert(decimal(m) =~= t.subrange(1, t.len() - 4));
            assert(decimal(n) =~= t.subrange(1, t.len() - 4));
            assert(digits_value(decimal(m)) == digits_value(decimal(n)));
        }
    }
}

/// The intermediate file of an Auto render: the profile, the attempt, `-shaped`.
pub open spec fn shaped_file_name(profile: Seq<char>, attempt: nat) -> Seq<char> {
    profile + "-"@ + decimal(attempt) + "-shaped.wav"@
}

/// The calibrated file of an Auto render: the profile and the attempt.
pub open spec fn render_file_name(profile: Seq<char>, attempt: nat) -> Seq<char> {
    profile + "-"@ + decimal(attempt) + ".wav"@
}

pub fn shaped_filename(profile: &str, attempt: usize) -> (s: String)
    ensures
        s@ == shaped_file_name(profile@, attempt as nat),
{
    let n = format_unsigned(attempt as u128);
    let mut s = String::from_str(profile);
    s.append("-");
    s.append(n.as_str());
    s.append("-shaped.wav");
    s
}

pub fn render_filename(profile: &str, attempt: usize) -> (s: String)
    ensures
        s@ == render_file_name(profile@, attempt as nat),
{
    let n = format_unsigned(attempt as u128);
    let mut s = String::from_str(profile);
    s.append("-");
    s.append(n.as_str());
    s.append(".wav");
    s
}

/// The name of an Auto session: the time in milliseconds and a counter.
pub fn session_name(millis: u128, counter: u64) -> (s: String)
    ensures
        s@ == decimal(millis as nat) + "-"@ + decimal(counter as nat),
{
    let a = format_unsigned(millis);
    let b = format_unsigned(counter as u128);
    let mut s = String::from_str(a.as_str());
    s.append("-");
    s.append(b.as_str());
    s
}

/// The project pages the help may open, by name.
pub open spec fn help_url(project: Seq<char>) -> Option<Seq<char>> {
    if project == "bakuage"@ {
        Some("https://github.com/ai-mastering/bakuage"@)
    } else if project == "phaselimiter"@ {
        Some("https://github.com/ai-mastering/phaselimiter"@)
    } else {
        None
    }
}

/// The page of an upstream project; any other name is refused.
pub fn help_link(project: &str) -> (r: Result<String, MasteringError>)
    ensures
        help_url(project@) matches Some(u) ==> (r matches Ok(s) && s@ == u),
        help_url(project@) is None ==> r == Err::<String, _>(MasteringError::HelpLinkUnavailable),
{
    if str_equal(project, "bakuage") {
        Ok(String::from_str("https://github.com/ai-mastering/bakuage"))
    } else if str_equal(project, "phaselimiter") {
        Ok(String::from_str("https://github.com/ai-mastering/phaselimiter"))
    } else {
        Err(MasteringError::HelpLinkUnavailable)
    }
}

/// Finds a result of the current Auto session: the session must be the one
/// asked for, and the result is the first with the id asked for.
pub fn find_variant(
    current_session: Option<&str>,
    session_id: &str,
    variant_ids: &Vec<String>,
    variant_id: &str,
) -> (r: Result<usize, MasteringError>)
    ensures
        !(current_session matches Some(c) && c@ == session_id@) ==> r == Err::<usize, _>(
            MasteringError::SessionUnavailable,
        ),
        (current_session matches Some(c) && c@ == session_id@) ==> match r {
            Ok(i) => 0 <= i < variant_ids@.len() && variant_ids@[i as int]@ == variant_id@ && (
            forall|j: int| 0 <= j < i ==> variant_ids@[j]@ != variant_id@),
            Err(e) => e == MasteringError::UnknownVariant && forall|j: int|
                0 <= j < variant_ids@.len() ==> variant_ids@[j]@ != variant_id@,
        },
{
    match current_session {
        None => {
            return Err(MasteringError::SessionUnavailable);
        },
        Some(c) => {
            if !str_equal(c, session_id) {
                return Err(MasteringError::SessionUnavailable);
            }
        },
    }
    let mut i: usize = 0;
    while i < variant_ids.len()
        invariant
            i <= variant_ids@.len(),
            current_session matches Some(c) && c@ == session_id@,
            forall|j: int| 0 <= j < i ==> variant_ids@[j]@ != variant_id@,
        decreases variant_ids.len() - i,
    {
        if str_equal(variant_ids[i].as_str(), variant_id) {
            return Ok(i);
        }
        i = i + 1;
    }
    Err(MasteringError::UnknownVariant)
}

} // verus!
