//! The parts of a subject snapshot read from knowledge rows and free text:
//! what a character knows, the promises still open about a subject and the
//! scenes it last appeared in.
//!
//! Promises and appearances are matched on names as the story bible
//! normalises them; the normalised texts are supplied by the caller, one per
//! row, and these functions decide which rows match and how they are shown.

use vstd::prelude::*;
use crate::records::{CanonicalFact, KnowledgeFact, NarrativePromise, Scene};
use crate::ids::SubjectTable;
use crate::placement::{
    StoryPlacement, spec_at_or_after, placement_at_or_after, spec_position_at_or_before,
    position_at_or_before, clone_opt_placement, spec_fact_at_or_before,
    fact_at_or_before,
};
use crate::snapshot::{
    SnapshotBatchContext, SnapshotError, Subject, Provenance, NameFailure, name_failure,
    spec_display_name, batch_subject_display_name, is_placement_provenance,
    is_scene_provenance, placement_provenance, scene_provenance,
};
use crate::serial::opt_view;
use crate::text::{str_eq, contains_text, str_contains, to_owned_string};

verus! {

// ---------------------------------------------------------------------------
// Knowledge
// ---------------------------------------------------------------------------

/// A fact as a character knows it. `fact_index` is the position of the
/// knowledge row it came from, so that its confidence can be attached.
pub struct KnowledgeFactSummary {
    pub fact: String,
    pub scope: Option<String>,
    pub source: Option<String>,
    pub learned_at: Option<StoryPlacement>,
    pub provenance: Provenance,
    pub fact_index: usize,
}

/// The character knows the fact at the placement: it is theirs, and they
/// learned it no later than the placement (or the row does not say when).
pub open spec fn knowledge_shown(f: KnowledgeFact, id: Seq<char>, placement: StoryPlacement) -> bool {
    &&& f.character_id@ == id
    &&& match f.learned_at {
        Some(at) => spec_at_or_after(placement, at),
        None => true,
    }
}

/// Positions of the shown facts among the first `n`, in stored order.
pub open spec fn shown_knowledge(
    facts: Seq<KnowledgeFact>,
    id: Seq<char>,
    placement: StoryPlacement,
    n: int,
) -> Seq<int>
    decreases n,
{
    if n <= 0 {
        Seq::empty()
    } else {
        let rest = shown_knowledge(facts, id, placement, n - 1);
        if knowledge_shown(facts[n - 1], id, placement) {
            rest.push(n - 1)
        } else {
            rest
        }
    }
}

pub open spec fn knowledge_scope(f: KnowledgeFact) -> Seq<char> {
    if f.reader_visible {
        "reader_visible"@
    } else {
        "private"@
    }
}

pub open spec fn knowledge_summary_of(s: KnowledgeFactSummary, f: KnowledgeFact, k: int) -> bool {
    &&& s.fact == f.fact
    &&& opt_view(s.scope) == Some(knowledge_scope(f))
    &&& s.source == Some(f.source_summary)
    &&& s.learned_at == f.learned_at
    &&& s.provenance == (Provenance::AssertedByAuthor { at: f.updated_at })
    &&& s.fact_index == k
}

/// What a character knows at the placement, in stored order.
pub fn batch_knowledge_summaries(
    batch: &SnapshotBatchContext,
    subject: &Subject,
    placement: &StoryPlacement,
) -> (r: Result<Vec<KnowledgeFactSummary>, SnapshotError>)
    ensures
        subject.table != SubjectTable::Character ==> (r matches Ok(v) && v@.len() == 0),
        subject.table == SubjectTable::Character && subject.id is None ==> (r matches Err(
            SnapshotError::SubjectIdMissing,
        )),
        subject.table == SubjectTable::Character && subject.id is Some ==> {
            let facts = batch.knowledge_facts@;
            let idx = shown_knowledge(facts, subject.id->0@, *placement, facts.len() as int);
            r matches Ok(v) && v@.len() == idx.len() && forall|j: int|
                0 <= j < idx.len() ==> knowledge_summary_of(#[trigger] v@[j], facts[idx[j]], idx[j])
        },
{
    if subject.table != SubjectTable::Character {
        return Ok(Vec::new());
    }
    let cid: &str = match &subject.id {
        Some(i) => i.as_str(),
        None => {
            return Err(SnapshotError::SubjectIdMissing);
        },
    };
    let facts = &batch.knowledge_facts;
    let mut out: Vec<KnowledgeFactSummary> = Vec::new();
    let mut i: usize = 0;
    while i < facts.len()
        invariant
            i <= facts.len(),
            cid@ == subject.id->0@,
            out@.len() == shown_knowledge(facts@, cid@, *placement, i as int).len(),
            forall|j: int|
                0 <= j < out@.len() ==> {
                    let k = shown_knowledge(facts@, cid@, *placement, i as int)[j];
                    knowledge_summary_of(#[trigger] out@[j], facts@[k], k)
                },
        decreases facts.len() - i,
    {
        let f = &facts[i];
        let learned = match &f.learned_at {
            Some(at) => placement_at_or_after(placement, at),
            None => true,
        };
        if str_eq(f.character_id.as_str(), cid) && learned {
            let scope = if f.reader_visible {
                to_owned_string("reader_visible")
            } else {
                to_owned_string("private")
            };
            proof {
                reveal_strlit("reader_visible");
                reveal_strlit("private");
            }
            out.push(
                KnowledgeFactSummary {
                    fact: f.fact.clone(),
                    scope: Some(scope),
                    source: Some(f.source_summary.clone()),
                    learned_at: clone_opt_placement(&f.learned_at),
                    provenance: Provenance::AssertedByAuthor { at: f.updated_at },
                    fact_index: i,
                },
            );
        }
        i = i + 1;
    }
    Ok(out)
}

// ---------------------------------------------------------------------------
// The name a subject is matched under
// ---------------------------------------------------------------------------

/// The name free text is searched for: the project's name for the project
/// as a whole, else the subject's display name.
pub open spec fn spec_subject_label(batch: SnapshotBatchContext, subject: Subject) -> Result<
    Seq<char>,
    NameFailure,
> {
    if subject.table == SubjectTable::Project && subject.id is None {
        Ok(batch.project.name@)
    } else {
        spec_display_name(batch, subject.id->0@)
    }
}

pub fn subject_label(batch: &SnapshotBatchContext, subject: &Subject) -> (r: Result<
    String,
    SnapshotError,
>)
    ensures
        subject.table != SubjectTable::Project && subject.id is None ==> (r matches Err(
            SnapshotError::SubjectIdMissing,
        )),
        !(subject.table != SubjectTable::Project && subject.id is None) ==> match r {
            Ok(s) => spec_subject_label(*batch, *subject) == Ok::<Seq<char>, NameFailure>(s@),
            Err(e) => name_failure(e) is Some && spec_subject_label(*batch, *subject) == Err::<
                Seq<char>,
                NameFailure,
            >(name_failure(e)->0),
        },
{
    if subject.table == SubjectTable::Project && subject.id.is_none() {
        return Ok(batch.project.name.clone());
    }
    match &subject.id {
        Some(id) => batch_subject_display_name(batch, id.as_str()),
        None => Err(SnapshotError::SubjectIdMissing),
    }
}

// ---------------------------------------------------------------------------
// Open promises
// ---------------------------------------------------------------------------

/// A promise to the reader that is still open about the subject.
pub struct NarrativePromiseSummary {
    pub promise_type: String,
    pub description: String,
    pub status: String,
    pub planned_payoff: Option<StoryPlacement>,
    pub provenance: Provenance,
}

/// The promise is open, planted no later than the placement, and its
/// normalised description mentions the subject.
pub open spec fn promise_open_about(
    p: NarrativePromise,
    normalized_description: Seq<char>,
    needle: Seq<char>,
    placement: StoryPlacement,
) -> bool {
    &&& p.status@ != "paid_off"@
    &&& spec_at_or_after(placement, p.planted_at)
    &&& contains_text(normalized_description, needle)
}

pub open spec fn open_promise_positions(
    promises: Seq<NarrativePromise>,
    normalized: Seq<String>,
    needle: Seq<char>,
    placement: StoryPlacement,
    n: int,
) -> Seq<int>
    decreases n,
{
    if n <= 0 {
        Seq::empty()
    } else {
        let rest = open_promise_positions(promises, normalized, needle, placement, n - 1);
        if promise_open_about(promises[n - 1], normalized[n - 1]@, needle, placement) {
            rest.push(n - 1)
        } else {
            rest
        }
    }
}

pub open spec fn promise_summary_of(s: NarrativePromiseSummary, p: NarrativePromise) -> bool {
    &&& s.promise_type == p.promise_type
    &&& s.description == p.description
    &&& s.status == p.status
    &&& s.planned_payoff == p.planned_payoff
    &&& is_placement_provenance(s.provenance, p.planted_at)
}

/// The promises still open about a subject at the placement, in stored
/// order. `normalized_descriptions[k]` is the normalised description of
/// `promises[k]`, and `needle` the normalised subject label.
pub fn open_promises_matching(
    promises: &Vec<NarrativePromise>,
    normalized_descriptions: &Vec<String>,
    needle: &str,
    placement: &StoryPlacement,
) -> (r: Vec<NarrativePromiseSummary>)
    requires
        normalized_descriptions@.len() == promises@.len(),
    ensures
        ({
            let idx = open_promise_positions(
                promises@,
                normalized_descriptions@,
                needle@,
                *placement,
                promises@.len() as int,
            );
            &&& r@.len() == idx.len()
            &&& forall|j: int|
                0 <= j < idx.len() ==> promise_summary_of(#[trigger] r@[j], promises@[idx[j]])
        }),
{
    let mut out: Vec<NarrativePromiseSummary> = Vec::new();
    let mut i: usize = 0;
    while i < promises.len()
        invariant
            i <= promises.len(),
            normalized_descriptions@.len() == promises@.len(),
            out@.len() == open_promise_positions(
                promises@,
                normalized_descriptions@,
                needle@,
                *placement,
                i as int,
            ).len(),
            forall|j: int|
                0 <= j < out@.len() ==> promise_summary_of(
                    #[trigger] out@[j],
                    promises@[open_promise_positions(
                        promises@,
                        normalized_descriptions@,
                        needle@,
                        *placement,
                        i as int,
                    )[j]],
                ),
        decreases promises.len() - i,
    {
        let p = &promises[i];
        proof {
            reveal_strlit("paid_off");
        }
        if !str_eq(p.status.as_str(), "paid_off") && placement_at_or_after(placement, &p.planted_at)
            && str_contains(normalized_descriptions[i].as_str(), needle) {
            out.push(
                NarrativePromiseSummary {
                    promise_type: p.promise_type.clone(),
                    description: p.description.clone(),
                    status: p.status.clone(),
                    planned_payoff: clone_opt_placement(&p.planned_payoff),
                    provenance: placement_provenance(&p.planted_at),
                },
            );
        }
        i = i + 1;
    }
    out
}

// ---------------------------------------------------------------------------
// Recent appearances
// ---------------------------------------------------------------------------

/// A scene the subject appears in.
pub struct SceneAppearanceSummary {
    pub scene_id: String,
    pub placement: Option<StoryPlacement>,
    pub summary: Option<String>,
    pub provenance: Provenance,
}

pub open spec fn appears_in(s: Scene, normalized_text: Seq<char>, needle: Seq<char>, placement: StoryPlacement) -> bool {
    &&& spec_position_at_or_before(s.book_number, s.chapter_number, s.scene_order, placement)
    &&& contains_text(normalized_text, needle)
}

/// Positions of the recent appearances, latest first: walking back from the
/// last scene, those at or before the placement whose normalised text
/// mentions the subject, at most five. `k` is how many scenes from the end
/// have been walked.
pub open spec fn appearance_positions(
    scenes: Seq<Scene>,
    normalized: Seq<String>,
    needle: Seq<char>,
    placement: StoryPlacement,
    k: int,
) -> Seq<int>
    decreases k,
{
    if k <= 0 {
        Seq::empty()
    } else {
        let rest = appearance_positions(scenes, normalized, needle, placement, k - 1);
        let p = scenes.len() - k;
        if appears_in(scenes[p], normalized[p]@, needle, placement) && rest.len() < 5 {
            rest.push(p)
        } else {
            rest
        }
    }
}

proof fn lemma_appearance_positions(
    scenes: Seq<Scene>,
    normalized: Seq<String>,
    needle: Seq<char>,
    placement: StoryPlacement,
    k: int,
)
    ensures
        appearance_positions(scenes, normalized, needle, placement, k).len() <= 5,
    decreases k,
{
    if k > 0 {
        lemma_appearance_positions(scenes, normalized, needle, placement, k - 1);
    }
}

pub open spec fn appearance_summary_of(a: SceneAppearanceSummary, s: Scene) -> bool {
    &&& a.scene_id == s.id
    &&& a.placement == Some(
        StoryPlacement {
            book_number: s.book_number,
            chapter_number: s.chapter_number,
            scene_order: Some(s.scene_order),
            note: None,
        },
    )
    &&& a.summary == Some(s.summary)
    &&& is_scene_provenance(a.provenance, s.id@)
}

/// The scenes the subject last appeared in at the placement, latest first,
/// at most five. `normalized_texts[k]` is the normalised summary and text of
/// `scenes[k]`, and `needle` the normalised subject label.
pub fn recent_appearances(
    scenes: &Vec<Scene>,
    normalized_texts: &Vec<String>,
    needle: &str,
    placement: &StoryPlacement,
) -> (r: Vec<SceneAppearanceSummary>)
    requires
        normalized_texts@.len() == scenes@.len(),
    ensures
        ({
            let idx = appearance_positions(
                scenes@,
                normalized_texts@,
                needle@,
                *placement,
                scenes@.len() as int,
            );
            &&& r@.len() == idx.len()
            &&& forall|j: int|
                0 <= j < idx.len() ==> appearance_summary_of(#[trigger] r@[j], scenes@[idx[j]])
        }),
{
    let mut out: Vec<SceneAppearanceSummary> = Vec::new();
    let n = scenes.len();
    let mut k: usize = 0;
    while k < n
        invariant
            n == scenes@.len(),
            k <= n,
            normalized_texts@.len() == scenes@.len(),
            out@.len() == appearance_positions(
                scenes@,
                normalized_texts@,
                needle@,
                *placement,
                k as int,
            ).len(),
            forall|j: int|
                0 <= j < out@.len() ==> appearance_summary_of(
                    #[trigger] out@[j],
                    scenes@[appearance_positions(
                        scenes@,
                        normalized_texts@,
                        needle@,
                        *placement,
                        k as int,
                    )[j]],
                ),
        decreases n - k,
    {
        proof {
            lemma_appearance_positions(scenes@, normalized_texts@, needle@, *placement, k as int);
        }
        let p = n - 1 - k;
        let s = &scenes[p];
        if position_at_or_before(s.book_number, s.chapter_number, s.scene_order, placement)
            && str_contains(normalized_texts[p].as_str(), needle) && out.len() < 5 {
            out.push(
                SceneAppearanceSummary {
                    scene_id: s.id.clone(),
                    placement: Some(
                        StoryPlacement {
                            book_number: s.book_number,
                            chapter_number: s.chapter_number,
                            scene_order: Some(s.scene_order),
                            note: None,
                        },
                    ),
                    summary: Some(s.summary.clone()),
                    provenance: scene_provenance(s.id.as_str()),
                },
            );
        }
        k = k + 1;
    }
    out
}

// ---------------------------------------------------------------------------
// Canonical facts
// ---------------------------------------------------------------------------

/// A canonical fact as a snapshot shows it: "predicate: value".
pub struct CanonicalFactSummary {
    pub fact: String,
    pub source_label: Option<String>,
    pub provenance: Provenance,
}

/// One of the normalised fields of a fact mentions the subject.
pub open spec fn any_field_mentions(fields: Seq<String>, needle: Seq<char>) -> bool {
    exists|i: int| 0 <= i < fields.len() && contains_text(#[trigger] fields[i]@, needle)
}

pub open spec fn fact_positions(
    facts: Seq<CanonicalFact>,
    fields: Seq<Vec<String>>,
    needle: Seq<char>,
    placement: StoryPlacement,
    n: int,
) -> Seq<int>
    decreases n,
{
    if n <= 0 {
        Seq::empty()
    } else {
        let rest = fact_positions(facts, fields, needle, placement, n - 1);
        let f = facts[n - 1];
        if any_field_mentions(fields[n - 1]@, needle) && spec_fact_at_or_before(
            f.book_number,
            f.chapter_number,
            f.valid_from,
            f.valid_until,
            placement,
        ) {
            rest.push(n - 1)
        } else {
            rest
        }
    }
}

pub open spec fn fact_text(predicate: Seq<char>, value: Option<String>) -> Seq<char> {
    predicate + ": "@ + match value {
        Some(v) => v@,
        None => "<unset>"@,
    }
}

pub open spec fn fact_summary_of(s: CanonicalFactSummary, f: CanonicalFact, value: Option<String>) -> bool {
    &&& s.fact@ == fact_text(f.predicate@, value)
    &&& s.source_label is None
    &&& is_scene_provenance(s.provenance, f.scene_id@)
}

fn mentions_any(fields: &Vec<String>, needle: &str) -> (r: bool)
    ensures
        r == any_field_mentions(fields@, needle@),
{
    let mut i: usize = 0;
    while i < fields.len()
        invariant
            i <= fields.len(),
            forall|k: int| 0 <= k < i ==> !contains_text(#[trigger] fields@[k]@, needle@),
        decreases fields.len() - i,
    {
        if str_contains(fields[i].as_str(), needle) {
            return true;
        }
        i = i + 1;
    }
    false
}

/// The canonical facts about a subject that hold at the placement, in
/// stored order. For `facts[k]`, `values[k]` is its value rendered as text
/// (`None` when it has none) and `fields[k]` its normalised predicate,
/// value and aliases; `needle` is the normalised subject label.
pub fn canonical_facts_matching(
    facts: &Vec<CanonicalFact>,
    values: &Vec<Option<String>>,
    fields: &Vec<Vec<String>>,
    needle: &str,
    placement: &StoryPlacement,
) -> (r: Vec<CanonicalFactSummary>)
    requires
        values@.len() == facts@.len(),
        fields@.len() == facts@.len(),
    ensures
        ({
            let idx = fact_positions(facts@, fields@, needle@, *placement, facts@.len() as int);
            &&& r@.len() == idx.len()
            &&& forall|j: int|
                0 <= j < idx.len() ==> fact_summary_of(
                    #[trigger] r@[j],
                    facts@[idx[j]],
                    values@[idx[j]],
                )
        }),
{
    let mut out: Vec<CanonicalFactSummary> = Vec::new();
    let mut i: usize = 0;
    while i < facts.len()
        invariant
            i <= facts.len(),
            values@.len() == facts@.len(),
            fields@.len() == facts@.len(),
            out@.len() == fact_positions(facts@, fields@, needle@, *placement, i as int).len(),
            forall|j: int|
                0 <= j < out@.len() ==> {
                    let k = fact_positions(facts@, fields@, needle@, *placement, i as int)[j];
                    fact_summary_of(#[trigger] out@[j], facts@[k], values@[k])
                },
        decreases facts.len() - i,
    {
        let f = &facts[i];
        if mentions_any(&fields[i], needle) && fact_at_or_before(
            f.book_number,
            f.chapter_number,
            &f.valid_from,
            &f.valid_until,
            placement,
        ) {
            let mut text = f.predicate.clone();
            text.append(": ");
            match &values[i] {
                Some(v) => text.append(v.as_str()),
                None => text.append("<unset>"),
            }
            proof {
                reveal_strlit(": ");
                reveal_strlit("<unset>");
            }
            out.push(
                CanonicalFactSummary {
                    fact: text,
                    source_label: None,
                    provenance: scene_provenance(f.scene_id.as_str()),
                },
            );
        }
        i = i + 1;
    }
    out
}

} // verus!
