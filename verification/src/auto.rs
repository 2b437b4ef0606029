//! Auto mastering: the profiles it renders, what it reports of each result,
//! and which result it recommends.
use vstd::prelude::*;
use crate::float_bits::{float, FloatBits};
use crate::number::{decimal, format_signed, format_unsigned, signed_decimal};
use crate::rules::{aac_risk, MasteringError, AAC_TRUE_PEAK_LIMIT};

verus! {

/// `0.3`: the distance from the target, in LU, that still counts as reaching it.
pub const AUTO_TARGET_TOLERANCE_LU: u64 = 0x3fd3_3333_3333_3333;

/// One way of driving the engine and the finishing stage, with the trade-offs it accepts.
pub struct AutoProfile {
    pub id: String,
    pub label: String,
    /// Engine intensity, 0 to 1.
    pub intensity: FloatBits,
    pub preserve_bass: bool,
    pub dynamic_bass: bool,
    /// Soft-clip drive, in dB.
    pub soft_clip_db: FloatBits,
    /// The loss of peak-to-RMS factor the profile accepts, in dB.
    pub crest_budget_db: FloatBits,
    /// The movement of low-end energy the profile accepts, in dB.
    pub bass_budget_db: FloatBits,
}

/// Whether `p` holds the given values.
pub open spec fn profile_is(
    p: AutoProfile,
    id: Seq<char>,
    label: Seq<char>,
    intensity: u64,
    preserve_bass: bool,
    dynamic_bass: bool,
    soft_clip_db: u64,
    crest_budget_db: u64,
    bass_budget_db: u64,
) -> bool {
    &&& p.id@ == id
    &&& p.label@ == label
    &&& p.intensity.bits == intensity
    &&& p.preserve_bass == preserve_bass
    &&& p.dynamic_bass == dynamic_bass
    &&& p.soft_clip_db.bits == soft_clip_db
    &&& p.crest_budget_db.bits == crest_budget_db
    &&& p.bass_budget_db.bits == bass_budget_db
}

fn profile(
    id: &str,
    label: &str,
    intensity: u64,
    preserve_bass: bool,
    dynamic_bass: bool,
    soft_clip_db: u64,
    crest_budget_db: u64,
    bass_budget_db: u64,
) -> (p: AutoProfile)
    ensures
        profile_is(
            p,
            id@,
            label@,
            intensity,
            preserve_bass,
            dynamic_bass,
            soft_clip_db,
            crest_budget_db,
            bass_budget_db,
        ),
{
    AutoProfile {
        id: String::from_str(id),
        label: String::from_str(label),
        intensity: FloatBits { bits: intensity },
        preserve_bass,
        dynamic_bass,
        soft_clip_db: FloatBits { bits: soft_clip_db },
        crest_budget_db: FloatBits { bits: crest_budget_db },
        bass_budget_db: FloatBits { bits: bass_budget_db },
    }
}

/// The three Auto profiles, gentlest first. Doubles as bit patterns:
/// faithful: intensity 0.65, preserved bass, no dynamic bass, no clipping,
/// budgets 2.0 dB and 1.5 dB; dense: 0.85, preserved bass, dynamic bass,
/// 0.5 dB clipping, budgets 4.0 dB and 2.5 dB; aggressive: 1.0, free bass,
/// dynamic bass, 1.0 dB clipping, budgets 6.0 dB and 4.0 dB.
pub fn auto_profiles() -> (ps: Vec<AutoProfile>)
    ensures
        ps@.len() == 3,
        profile_is(
            ps@[0],
            "faithful"@,
            "Fidèle"@,
            0x3fe4_cccc_cccc_cccd,
            true,
            false,
            0x0,
            0x4000_0000_0000_0000,
            0x3ff8_0000_0000_0000,
        ),
        profile_is(
            ps@[1],
            "dense"@,
            "Dense"@,
            0x3feb_3333_3333_3333,
            true,
            true,
            0x3fe0_0000_0000_0000,
            0x4010_0000_0000_0000,
            0x4004_0000_0000_0000,
        ),
        profile_is(
            ps@[2],
            "aggressive"@,
            "Agressif"@,
            0x3ff0_0000_0000_0000,
            false,
            true,
            0x3ff0_0000_0000_0000,
            0x4018_0000_0000_0000,
            0x4010_0000_0000_0000,
        ),
{
    let mut ps: Vec<AutoProfile> = Vec::new();
    ps.push(
        profile(
            "faithful",
            "Fidèle",
            0x3fe4_cccc_cccc_cccd,
            true,
            false,
            0x0,
            0x4000_0000_0000_0000,
            0x3ff8_0000_0000_0000,
        ),
    );
    ps.push(
        profile(
            "dense",
            "Dense",
            0x3feb_3333_3333_3333,
            true,
            true,
            0x3fe0_0000_0000_0000,
            0x4010_0000_0000_0000,
            0x4004_0000_0000_0000,
        ),
    );
    ps.push(
        profile(
            "aggressive",
            "Agressif",
            0x3ff0_0000_0000_0000,
            false,
            true,
            0x3ff0_0000_0000_0000,
            0x4018_0000_0000_0000,
            0x4010_0000_0000_0000,
        ),
    );
    ps
}

/// What the report on one rendered profile is built from. The differences are
/// computed by the caller from the measurements; the texts are those values as
/// the report prints them (signed ones with their sign, one decimal).
pub struct DiagnosisInput {
    /// Integrated loudness minus target, in LU.
    pub achieved_delta_lu: FloatBits,
    pub achieved_delta_text: String,
    pub attempts: usize,
    /// Source peak factor minus master peak factor, in dB.
    pub peak_factor_loss_db: FloatBits,
    pub peak_factor_loss_text: String,
    /// Master bass ratio minus source bass ratio, in dB.
    pub bass_change_db: FloatBits,
    pub bass_change_text: String,
    /// True peak after AAC encoding, if it was measured.
    pub aac_true_peak_dbtp: Option<FloatBits>,
    pub crest_budget_text: String,
    pub bass_budget_text: String,
}

/// The report on one rendered profile.
pub struct Diagnosis {
    pub aac_risk: bool,
    pub diagnostics: Vec<String>,
}

pub open spec fn missed_target(d: DiagnosisInput) -> bool {
    float(AUTO_TARGET_TOLERANCE_LU).lt(d.achieved_delta_lu.abs_value())
}

pub open spec fn over_crest_budget(d: DiagnosisInput, p: AutoProfile) -> bool {
    p.crest_budget_db.lt(d.peak_factor_loss_db)
}

pub open spec fn over_bass_budget(d: DiagnosisInput, p: AutoProfile) -> bool {
    p.bass_budget_db.lt(d.bass_change_db.abs_value())
}

pub open spec fn at_aac_risk(d: DiagnosisInput) -> bool {
    match d.aac_true_peak_dbtp {
        Some(peak) => float(AAC_TRUE_PEAK_LIMIT).lt(peak),
        None => true,
    }
}

pub open spec fn missed_target_note(d: DiagnosisInput) -> Seq<char> {
    "Target missed by "@ + d.achieved_delta_text@ + " LU after "@ + decimal(d.attempts as nat)
        + " attempts. Final drive is bounded to avoid forcing saturation or broadband pumping."@
}

pub open spec fn crest_note(d: DiagnosisInput, p: AutoProfile) -> Seq<char> {
    "Transient/impact change is "@ + d.peak_factor_loss_text@ + " dB ("@ + p.label@
        + " profile budget: "@ + d.crest_budget_text@ + " dB)."@
}

pub open spec fn bass_note(d: DiagnosisInput, p: AutoProfile) -> Seq<char> {
    "Sustained 30–150 Hz energy moved "@ + d.bass_change_text@ + " dB ("@ + p.label@
        + " profile budget: ±"@ + d.bass_budget_text@ + " dB)."@
}

pub open spec fn aac_note() -> Seq<char> {
    "AAC simulation reaches above 0 dBTP; use caution for lossy delivery."@
}

pub open spec fn within_budget_note() -> Seq<char> {
    "Target, low-end movement and impact remain within this profile’s stated trade-offs."@
}

pub open spec fn note_if(cond: bool, note: Seq<char>) -> Seq<Seq<char>> {
    if cond {
        seq![note]
    } else {
        seq![]
    }
}

/// The notes of a report: one per budget exceeded, in a fixed order, or the
/// single note that every budget was kept.
pub open spec fn diagnosis_notes(d: DiagnosisInput, p: AutoProfile) -> Seq<Seq<char>> {
    let notes = note_if(missed_target(d), missed_target_note(d)) + note_if(
        over_crest_budget(d, p),
        crest_note(d, p),
    ) + note_if(over_bass_budget(d, p), bass_note(d, p)) + note_if(at_aac_risk(d), aac_note());
    if notes.len() == 0 {
        seq![within_budget_note()]
    } else {
        notes
    }
}

/// The report on one rendered profile: whether lossy delivery risks clipping,
/// and its notes.
pub fn diagnose(input: &DiagnosisInput, profile: &AutoProfile) -> (r: Diagnosis)
    ensures
        r.aac_risk == at_aac_risk(*input),
        crate::text::views(r.diagnostics@) == diagnosis_notes(*input, *profile),
        r.diagnostics@.len() >= 1,
{
    let risk = aac_risk(input.aac_true_peak_dbtp);
    let mut notes: Vec<String> = Vec::new();
    let ghost d = *input;
    let ghost p = *profile;
    let tolerance = FloatBits { bits: AUTO_TARGET_TOLERANCE_LU };
    if tolerance.less_than(input.achieved_delta_lu.abs()) {
        let attempts = format_unsigned(input.attempts as u128);
        let mut note = String::from_str("Target missed by ");
        note.append(input.achieved_delta_text.as_str());
        note.append(" LU after ");
        note.append(attempts.as_str());
        note.append(
            " attempts. Final drive is bounded to avoid forcing saturation or broadband pumping.",
        );
        notes.push(note);
    }
    let ghost n1 = crate::text::views(notes@);
    assert(n1 =~= note_if(missed_target(d), missed_target_note(d)));
    if profile.crest_budget_db.less_than(input.peak_factor_loss_db) {
        let mut note = String::from_str("Transient/impact change is ");
        note.append(input.peak_factor_loss_text.as_str());
        note.append(" dB (");
        note.append(profile.label.as_str());
        note.append(" profile budget: ");
        note.append(input.crest_budget_text.as_str());
        note.append(" dB).");
        notes.push(note);
    }
    let ghost n2 = crate::text::views(notes@);
    assert(n2 =~= n1 + note_if(over_crest_budget(d, p), crest_note(d, p)));
    if profile.bass_budget_db.less_than(input.bass_change_db.abs()) {
        let mut note = String::from_str("Sustained 30–150 Hz energy moved ");
        note.append(input.bass_change_text.as_str());
        note.append(" dB (");
        note.append(profile.label.as_str());
        note.append(" profile budget: ±");
        note.append(input.bass_budget_text.as_str());
        note.append(" dB).");
        notes.push(note);
    }
    let ghost n3 = crate::text::views(notes@);
    assert(n3 =~= n2 + note_if(over_bass_budget(d, p), bass_note(d, p)));
    if risk {
        notes.push(
            String::from_str("AAC simulation reaches above 0 dBTP; use caution for lossy delivery."),
        );
    }
    let ghost n4 = crate::text::views(notes@);
    assert(n4 =~= n3 + note_if(at_aac_risk(d), aac_note()));
    if notes.len() == 0 {
        notes.push(
            String::from_str(
                "Target, low-end movement and impact remain within this profile’s stated trade-offs.",
            ),
        );
        assert(crate::text::views(notes@) =~= seq![within_budget_note()]);
    }
    Diagnosis { aac_risk: risk, diagnostics: notes }
}

/// A result at risk after AAC encoding is reported with a caution, as the last
/// note; the profile is reported on, not refused.
pub proof fn lemma_aac_risk_is_reported(d: DiagnosisInput, p: AutoProfile)
    requires
        at_aac_risk(d),
    ensures
        diagnosis_notes(d, p).len() >= 1,
        diagnosis_notes(d, p).last() == aac_note(),
{
}

/// When the target was reached, no budget was exceeded and lossy delivery is
/// safe, the report is the single note that every budget was kept.
pub proof fn lemma_within_budget_note(d: DiagnosisInput, p: AutoProfile)
    ensures
        (diagnosis_notes(d, p) == seq![within_budget_note()]) <== (!missed_target(d)
            && !over_crest_budget(d, p) && !over_bass_budget(d, p) && !at_aac_risk(d)),
{
}

/// The first eight characters of each note; they tell the notes apart.
pub proof fn lemma_note_heads(d: DiagnosisInput, p: AutoProfile)
    ensures
        missed_target_note(d).len() >= 8 && missed_target_note(d).take(8) == "Target m"@,
        crest_note(d, p).len() >= 8 && crest_note(d, p).take(8) == "Transien"@,
        bass_note(d, p).len() >= 8 && bass_note(d, p).take(8) == "Sustaine"@,
        aac_note().len() >= 8 && aac_note().take(8) == "AAC simu"@,
        within_budget_note().len() >= 8 && within_budget_note().take(8) == "Target, "@,
        "Target m"@ != "Transien"@ && "Target m"@ != "Sustaine"@ && "Target m"@ != "AAC simu"@
            && "Target m"@ != "Target, "@,
        "Transien"@ != "Sustaine"@ && "Transien"@ != "AAC simu"@ && "Transien"@ != "Target, "@,
        "Sustaine"@ != "AAC simu"@ && "Sustaine"@ != "Target, "@,
        "AAC simu"@ != "Target, "@,
{
    reveal_strlit("Target missed by ");
    reveal_strlit("Transient/impact change is ");
    reveal_strlit("Sustained 30–150 Hz energy moved ");
    reveal_strlit("AAC simulation reaches above 0 dBTP; use caution for lossy delivery.");
    reveal_strlit(
        "Target, low-end movement and impact remain within this profile’s stated trade-offs.",
    );
    reveal_strlit("Target m");
    reveal_strlit("Transien");
    reveal_strlit("Sustaine");
    reveal_strlit("AAC simu");
    reveal_strlit("Target, ");
    assert(missed_target_note(d).take(8) =~= "Target m"@);
    assert(crest_note(d, p).take(8) =~= "Transien"@);
    assert(bass_note(d, p).take(8) =~= "Sustaine"@);
    assert(aac_note().take(8) =~= "AAC simu"@);
    assert(within_budget_note().take(8) =~= "Target, "@);
    assert("Target m"@[1] != "Transien"@[1]);
    assert("Target m"@[0] != "Sustaine"@[0]);
    assert("Target m"@[0] != "AAC simu"@[0]);
    assert("Target m"@[6] != "Target, "@[6]);
    assert("Transien"@[0] != "Sustaine"@[0]);
    assert("Transien"@[0] != "AAC simu"@[0]);
    assert("Transien"@[1] != "Target, "@[1]);
    assert("Sustaine"@[0] != "AAC simu"@[0]);
    assert("Sustaine"@[0] != "Target, "@[0]);
    assert("AAC simu"@[0] != "Target, "@[0]);
}

/// What a report says, note by note: the target note exactly when the
/// distance from the target (either way) exceeds 0.3 LU; the impact note
/// exactly when the peak-factor loss exceeds the profile's crest budget; the
/// low-end note exactly when the low-end movement (rise or fall) exceeds the
/// profile's bass budget; the AAC note exactly when the AAC true peak is above
/// 0 dBTP or was not measured; and the within-budget note exactly when none of
/// these is given. There are at most four notes.
pub proof fn lemma_report_notes(d: DiagnosisInput, p: AutoProfile)
    ensures
        diagnosis_notes(d, p).contains(missed_target_note(d)) <==> float(
            AUTO_TARGET_TOLERANCE_LU,
        ).lt(d.achieved_delta_lu.abs_value()),
        diagnosis_notes(d, p).contains(crest_note(d, p)) <==> p.crest_budget_db.lt(
            d.peak_factor_loss_db,
        ),
        diagnosis_notes(d, p).contains(bass_note(d, p)) <==> p.bass_budget_db.lt(
            d.bass_change_db.abs_value(),
        ),
        diagnosis_notes(d, p).contains(aac_note()) <==> match d.aac_true_peak_dbtp {
            Some(peak) => float(AAC_TRUE_PEAK_LIMIT).lt(peak),
            None => true,
        },
        diagnosis_notes(d, p).contains(within_budget_note()) <==> !(float(
            AUTO_TARGET_TOLERANCE_LU,
        ).lt(d.achieved_delta_lu.abs_value()) || p.crest_budget_db.lt(d.peak_factor_loss_db)
            || p.bass_budget_db.lt(d.bass_change_db.abs_value()) || match d.aac_true_peak_dbtp {
            Some(peak) => float(AAC_TRUE_PEAK_LIMIT).lt(peak),
            None => true,
        }),
        diagnosis_notes(d, p).len() <= 4,
{
    lemma_note_heads(d, p);
    let c1 = float(AUTO_TARGET_TOLERANCE_LU).lt(d.achieved_delta_lu.abs_value());
    let c2 = p.crest_budget_db.lt(d.peak_factor_loss_db);
    let c3 = p.bass_budget_db.lt(d.bass_change_db.abs_value());
    let c4 = match d.aac_true_peak_dbtp {
        Some(peak) => float(AAC_TRUE_PEAK_LIMIT).lt(peak),
        None => true,
    };
    let n1 = missed_target_note(d);
    let n2 = crest_note(d, p);
    let n3 = bass_note(d, p);
    let n4 = aac_note();
    let n5 = within_budget_note();
    let m1 = note_if(c1, n1);
    let m2 = note_if(c2, n2);
    let m3 = note_if(c3, n3);
    let m4 = note_if(c4, n4);
    let all = m1 + m2 + m3 + m4;
    let notes = diagnosis_notes(d, p);
    assert(all == note_if(missed_target(d), missed_target_note(d)) + note_if(
        over_crest_budget(d, p),
        crest_note(d, p),
    ) + note_if(over_bass_budget(d, p), bass_note(d, p)) + note_if(at_aac_risk(d), aac_note()));
    // Which note stands at each place.
    assert forall|i: int| 0 <= i < notes.len() implies (#[trigger] notes[i] == n1 && c1) || (
    notes[i] == n2 && c2) || (notes[i] == n3 && c3) || (notes[i] == n4 && c4) || (notes[i] == n5
        && !(c1 || c2 || c3 || c4)) by {
        if all.len() > 0 {
            if i < m1.len() {
                assert(notes[i] == m1[i]);
            } else if i < m1.len() + m2.len() {
                assert(notes[i] == m2[i - m1.len()]);
            } else if i < m1.len() + m2.len() + m3.len() {
                assert(notes[i] == m3[i - m1.len() - m2.len()]);
            } else {
                assert(notes[i] == m4[i - m1.len() - m2.len() - m3.len()]);
            }
        }
    }
    if c1 {
        assert(notes[0] == n1);
    }
    if c2 {
        assert(notes[m1.len() as int] == n2);
    }
    if c3 {
        assert(notes[(m1.len() + m2.len()) as int] == n3);
    }
    if c4 {
        assert(notes[(m1.len() + m2.len() + m3.len()) as int] == n4);
    }
    if !(c1 || c2 || c3 || c4) {
        assert(notes[0] == n5);
    }
    // A note at some place is the note whose head it has.
    if notes.contains(n1) {
        let i = choose|i: int| 0 <= i < notes.len() && notes[i] == n1;
        assert(notes[i] == n1);
    }
    if notes.contains(n2) {
        let i = choose|i: int| 0 <= i < notes.len() && notes[i] == n2;
        assert(notes[i] == n2);
    }
    if notes.contains(n3) {
        let i = choose|i: int| 0 <= i < notes.len() && notes[i] == n3;
        assert(notes[i] == n3);
    }
    if notes.contains(n4) {
        let i = choose|i: int| 0 <= i < notes.len() && notes[i] == n4;
        assert(notes[i] == n4);
    }
    if notes.contains(n5) {
        let i = choose|i: int| 0 <= i < notes.len() && notes[i] == n5;
        assert(notes[i] == n5);
    }
}

/// The report carries the low-end note exactly when the absolute movement of
/// the low-end energy exceeds the profile's bass budget, whether the energy
/// rose or fell.
pub proof fn lemma_bass_note_iff_over_budget(d: DiagnosisInput, p: AutoProfile)
    ensures
        diagnosis_notes(d, p).contains(bass_note(d, p)) <==> p.bass_budget_db.lt(
            d.bass_change_db.abs_value(),
        ),
{
    lemma_report_notes(d, p);
}

/// Rising and falling low-end energy of the same size are reported alike.
pub proof fn lemma_bass_note_ignores_direction(d: DiagnosisInput, e: DiagnosisInput, p: AutoProfile)
    requires
        e.bass_change_db.abs_value() == d.bass_change_db.abs_value(),
    ensures
        diagnosis_notes(d, p).contains(bass_note(d, p)) <==> diagnosis_notes(e, p).contains(
            bass_note(e, p),
        ),
{
    lemma_bass_note_iff_over_budget(d, p);
    lemma_bass_note_iff_over_budget(e, p);
}

/// A rendered profile, as the recommendation ranks it.
#[derive(Clone, Copy)]
pub struct Candidate {
    /// Similarity to the reference passage, 0 to 100, if it was scored.
    pub similarity: Option<i32>,
    /// Integrated loudness minus target, in LU.
    pub achieved_delta_lu: FloatBits,
}

/// The similarity a candidate is ranked by; an unscored one counts as 0.
pub open spec fn similarity_score(c: Candidate) -> int {
    match c.similarity {
        Some(s) => s as int,
        None => 0,
    }
}

/// `a` ranks above `b`: more similar, or as similar and closer to the target
/// (distances compared by `f64::total_cmp` on their absolute values).
pub open spec fn ranks_above(a: Candidate, b: Candidate) -> bool {
    ||| similarity_score(a) > similarity_score(b)
    ||| similarity_score(a) == similarity_score(b) && a.achieved_delta_lu.magnitude()
        < b.achieved_delta_lu.magnitude()
}

/// `i` is the last of the best: none ranks above it, and each later one ranks below it.
pub open spec fn last_best(cs: Seq<Candidate>, i: int) -> bool {
    &&& 0 <= i < cs.len()
    &&& forall|j: int| 0 <= j < cs.len() ==> !ranks_above(#[trigger] cs[j], cs[i])
    &&& forall|j: int| i < j < cs.len() ==> ranks_above(cs[i], #[trigger] cs[j])
}

fn ranks_above_exec(a: &Candidate, b: &Candidate) -> (r: bool)
    ensures
        r == ranks_above(*a, *b),
{
    let sa: i32 = match a.similarity {
        Some(s) => s,
        None => 0,
    };
    let sb: i32 = match b.similarity {
        Some(s) => s,
        None => 0,
    };
    sa > sb || (sa == sb && a.achieved_delta_lu.abs().bits < b.achieved_delta_lu.abs().bits)
}

/// The recommended result: the best ranked, the last of them on a tie (as
/// `Iterator::max_by` picks). `None` only when there is no result.
pub fn select_recommended(cs: &Vec<Candidate>) -> (r: Option<usize>)
    ensures
        r is None <==> cs@.len() == 0,
        r matches Some(i) ==> last_best(cs@, i as int),
{
    if cs.len() == 0 {
        return None;
    }
    let mut best: usize = 0;
    let mut i: usize = 1;
    while i < cs.len()
        invariant
            1 <= i <= cs@.len(),
            best < i,
            forall|j: int| 0 <= j < i ==> !ranks_above(#[trigger] cs@[j], cs@[best as int]),
            forall|j: int| best < j < i ==> ranks_above(cs@[best as int], #[trigger] cs@[j]),
        decreases cs.len() - i,
    {
        if !ranks_above_exec(&cs[best], &cs[i]) {
            best = i;
        }
        i = i + 1;
    }
    Some(best)
}

/// No result is more similar to the reference than the recommended one.
pub proof fn lemma_recommended_most_similar(cs: Seq<Candidate>, i: int, j: int)
    requires
        last_best(cs, i),
        0 <= j < cs.len(),
    ensures
        similarity_score(cs[j]) <= similarity_score(cs[i]),
{
    assert(!ranks_above(cs[j], cs[i]));
}

/// The sentence that explains the recommendation.
pub open spec fn recommendation_sentence(
    label: Seq<char>,
    using_default_reference: bool,
    similarity: int,
    delta_text: Seq<char>,
) -> Seq<char> {
    label + " is closest to the "@ + (if using_default_reference {
        "built-in"@
    } else {
        "selected"@
    }) + " reference passage ("@ + signed_decimal(similarity) + "/100 measured similarity) while landing at "@
        + delta_text + " LU from the requested target."@
}

/// The sentence names the profile first and then which reference passage it
/// was compared with: `built-in` for the tool's own, `selected` for the
/// user's; so the two cases never read alike.
pub proof fn lemma_recommendation_names_reference(
    label: Seq<char>,
    using_default_reference: bool,
    similarity: int,
    delta_text: Seq<char>,
)
    ensures
        ({
            let s = recommendation_sentence(label, using_default_reference, similarity, delta_text);
            &&& s.len() >= label.len() + 27
            &&& s.take(label.len() as int) == label
            &&& using_default_reference ==> s.subrange(
                label.len() as int + 19,
                label.len() as int + 27,
            ) == "built-in"@
            &&& !using_default_reference ==> s.subrange(
                label.len() as int + 19,
                label.len() as int + 27,
            ) == "selected"@
        }),
        recommendation_sentence(label, true, similarity, delta_text) != recommendation_sentence(
            label,
            false,
            similarity,
            delta_text,
        ),
{
    reveal_strlit(" is closest to the ");
    reveal_strlit("built-in");
    reveal_strlit("selected");
    let rest = " reference passage ("@ + signed_decimal(similarity)
        + "/100 measured similarity) while landing at "@ + delta_text
        + " LU from the requested target."@;
    let t = recommendation_sentence(label, true, similarity, delta_text);
    let f = recommendation_sentence(label, false, similarity, delta_text);
    assert(t =~= label + " is closest to the "@ + "built-in"@ + rest);
    assert(f =~= label + " is closest to the "@ + "selected"@ + rest);
    assert(t.subrange(label.len() as int + 19, label.len() as int + 27) =~= "built-in"@);
    assert(f.subrange(label.len() as int + 19, label.len() as int + 27) =~= "selected"@);
    assert(t.take(label.len() as int) =~= label);
    assert(f.take(label.len() as int) =~= label);
    assert("built-in"@[0] != "selected"@[0]);
}

/// Explains the recommendation: the profile's label, which reference passage
/// it was compared with, its similarity, and its distance from the target as
/// printed (`delta_text`).
pub fn recommendation_text(
    label: &str,
    using_default_reference: bool,
    similarity: Option<i32>,
    delta_text: &str,
) -> (s: String)
    ensures
        s@ == recommendation_sentence(
            label@,
            using_default_reference,
            match similarity {
                Some(v) => v as int,
                None => 0,
            },
            delta_text@,
        ),
{
    let score: i32 = match similarity {
        Some(v) => v,
        None => 0,
    };
    let score_text = format_signed(score);
    let mut s = String::from_str(label);
    s.append(" is closest to the ");
    if using_default_reference {
        s.append("built-in");
    } else {
        s.append("selected");
    }
    s.append(" reference passage (");
    s.append(score_text.as_str());
    s.append("/100 measured similarity) while landing at ");
    s.append(delta_text);
    s.append(" LU from the requested target.");
    s
}

/// Refuses an Auto session that rendered nothing.
pub fn recommended_or_error(cs: &Vec<Candidate>) -> (r: Result<usize, MasteringError>)
    ensures
        r is Ok <==> cs@.len() > 0,
        cs@.len() == 0 ==> r == Err::<usize, _>(MasteringError::NoAutoMaster),
        r matches Ok(i) ==> last_best(cs@, i as int),
{
    match select_recommended(cs) {
        Some(i) => Ok(i),
        None => Err(MasteringError::NoAutoMaster),
    }
}

} // verus!
