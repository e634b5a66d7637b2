//! Assembling a whole subject snapshot from its parts: the subject's name
//! and details, the canonical facts and knowledge about it, its
//! relationships, the promises still open about it, its arcs, its recent
//! appearances, and a character's voice and current state.

use vstd::prelude::*;
use crate::records::{CanonicalFact, NarrativePromise, Scene};
use crate::ids::SubjectTable;
use crate::placement::StoryPlacement;
use crate::snapshot::{
    SnapshotBatchContext, SnapshotError, Subject, NameFailure, name_failure, is_project_wide,
    spec_display_name, RelationshipSummary, CharacterArcSummary, VoiceProfileSummary,
    CharacterStateSummary, Provenance, counterpart_of, edges_of, relationship_summary_of, latest_state,
    state_summary_of, first_profile, voice_summary_of, arcs_in_play, arc_summary_of,
    batch_relationship_summaries, batch_active_arc_summaries, batch_voice_profile_summary,
    batch_character_state_summary,
};
use crate::subject_kind::{
    SubjectKindSpecific, kind_ok, project_kind_ok, subject_found, subject_raw_id,
    batch_subject_kind,
};
use crate::subject_facts::{
    CanonicalFactSummary, KnowledgeFactSummary, NarrativePromiseSummary, SceneAppearanceSummary,
    spec_subject_label, subject_label, shown_knowledge, knowledge_summary_of,
    open_promise_positions, promise_summary_of, appearance_positions, appearance_summary_of,
    fact_positions, fact_summary_of, batch_knowledge_summaries, open_promises_matching,
    recent_appearances, canonical_facts_matching,
};

verus! {

/// Everything a snapshot says about its subject.
pub struct SubjectSnapshotParts {
    pub display_name: String,
    pub kind_specific: SubjectKindSpecific,
    pub provenance: Provenance,
    pub canonical_facts: Vec<CanonicalFactSummary>,
    pub knowledge: Vec<KnowledgeFactSummary>,
    pub relationships: Vec<RelationshipSummary>,
    pub open_promises: Vec<NarrativePromiseSummary>,
    pub active_arcs: Vec<CharacterArcSummary>,
    pub recent_appearances: Vec<SceneAppearanceSummary>,
    pub voice_profile: Option<VoiceProfileSummary>,
    pub current_state: Option<CharacterStateSummary>,
}

/// The subject has a label to be searched for in free text.
pub open spec fn label_found(batch: SnapshotBatchContext, subject: Subject) -> bool {
    &&& !(subject.table != SubjectTable::Project && subject.id is None)
    &&& spec_subject_label(batch, subject) is Ok
}

/// Why the label could not be found.
pub open spec fn label_error(batch: SnapshotBatchContext, subject: Subject, e: SnapshotError) -> bool {
    if subject.table != SubjectTable::Project && subject.id is None {
        e matches SnapshotError::SubjectIdMissing
    } else {
        &&& name_failure(e) is Some
        &&& spec_subject_label(batch, subject) == Err::<Seq<char>, NameFailure>(name_failure(e)->0)
    }
}

/// The subject is the project as a whole, or a row found in the batch.
pub open spec fn kind_found(batch: SnapshotBatchContext, subject: Subject) -> bool {
    is_project_wide(subject) || (subject.id is Some && subject_found(batch, subject))
}

pub open spec fn kind_error(subject: Subject, e: SnapshotError) -> bool {
    &&& subject.table == SubjectTable::Project ==> e == SnapshotError::ProjectHandledSeparately
    &&& (subject.table != SubjectTable::Project && subject.table != SubjectTable::Relationship) ==> (
    e matches SnapshotError::RecordNotFound { id } && id@ == subject_raw_id(subject))
}

pub open spec fn kind_part_ok(
    batch: SnapshotBatchContext,
    subject: Subject,
    placement: StoryPlacement,
    name: Seq<char>,
    kind: SubjectKindSpecific,
    prov: Provenance,
) -> bool {
    if is_project_wide(subject) {
        project_kind_ok(batch, name, kind, prov)
    } else {
        kind_ok(batch, subject, placement, name, kind, prov)
    }
}

/// A character whose edges name a counterpart that cannot be shown.
pub open spec fn relationships_fail(batch: SnapshotBatchContext, subject: Subject) -> bool {
    &&& subject.table == SubjectTable::Character
    &&& subject.id is Some
    &&& exists|k: int|
        #![trigger edges_of(batch.relationships@, subject.id->0@)[k]]
        0 <= k < edges_of(batch.relationships@, subject.id->0@).len() && spec_display_name(
            batch,
            counterpart_of(edges_of(batch.relationships@, subject.id->0@)[k], subject.id->0@),
        ) is Err
}

pub open spec fn relationships_error(batch: SnapshotBatchContext, subject: Subject, e: SnapshotError) -> bool {
    let id = subject.id->0@;
    let edges = edges_of(batch.relationships@, id);
    exists|k: int|
        #![trigger edges[k]]
        {
            &&& 0 <= k < edges.len()
            &&& name_failure(e) is Some
            &&& spec_display_name(batch, counterpart_of(edges[k], id)) == Err::<Seq<char>, NameFailure>(
                name_failure(e)->0,
            )
            &&& forall|j: int|
                0 <= j < k ==> spec_display_name(batch, counterpart_of(#[trigger] edges[j], id)) is Ok
        }
}

pub open spec fn relationships_ok(batch: SnapshotBatchContext, subject: Subject, v: Seq<RelationshipSummary>) -> bool {
    let id = subject.id->0@;
    let edges = edges_of(batch.relationships@, id);
    if subject.table != SubjectTable::Character {
        v.len() == 0
    } else {
        v.len() == edges.len() && forall|i: int|
            0 <= i < edges.len() ==> relationship_summary_of(batch, #[trigger] v[i], edges[i], id)
    }
}

pub open spec fn knowledge_ok(
    batch: SnapshotBatchContext,
    subject: Subject,
    placement: StoryPlacement,
    v: Seq<KnowledgeFactSummary>,
) -> bool {
    let facts = batch.knowledge_facts@;
    let idx = shown_knowledge(facts, subject.id->0@, placement, facts.len() as int);
    if subject.table != SubjectTable::Character {
        v.len() == 0
    } else {
        v.len() == idx.len() && forall|j: int|
            0 <= j < idx.len() ==> knowledge_summary_of(#[trigger] v[j], facts[idx[j]], idx[j])
    }
}

pub open spec fn arcs_ok(
    batch: SnapshotBatchContext,
    subject: Subject,
    placement: StoryPlacement,
    v: Seq<CharacterArcSummary>,
) -> bool {
    let shown = arcs_in_play(batch.arcs@, subject.id->0@, placement);
    if subject.table != SubjectTable::Character {
        v.len() == 0
    } else {
        v.len() == shown.len() && forall|i: int|
            0 <= i < shown.len() ==> arc_summary_of(#[trigger] v[i], shown[i], placement)
    }
}

pub open spec fn voice_ok(batch: SnapshotBatchContext, subject: Subject, v: Option<VoiceProfileSummary>) -> bool {
    let ps = batch.voice_profiles@;
    if subject.table != SubjectTable::Character {
        v is None
    } else {
        match first_profile(ps, subject.id->0@, 0) {
            None => v is None,
            Some(k) => v matches Some(s) && voice_summary_of(s, ps[k]),
        }
    }
}

pub open spec fn state_ok(
    batch: SnapshotBatchContext,
    subject: Subject,
    placement: StoryPlacement,
    v: Option<CharacterStateSummary>,
) -> bool {
    let states = batch.character_states@;
    if subject.table != SubjectTable::Character {
        v is None
    } else {
        match latest_state(states, subject.id->0@, placement, states.len() as int) {
            None => v is None,
            Some(k) => v matches Some(s) && state_summary_of(s, states[k]),
        }
    }
}

pub open spec fn promises_ok(
    promises: Seq<NarrativePromise>,
    descriptions: Seq<String>,
    needle: Seq<char>,
    placement: StoryPlacement,
    v: Seq<NarrativePromiseSummary>,
) -> bool {
    let idx = open_promise_positions(promises, descriptions, needle, placement, promises.len() as int);
    &&& v.len() == idx.len()
    &&& forall|j: int| 0 <= j < idx.len() ==> promise_summary_of(#[trigger] v[j], promises[idx[j]])
}

pub open spec fn appearances_ok(
    scenes: Seq<Scene>,
    texts: Seq<String>,
    needle: Seq<char>,
    placement: StoryPlacement,
    v: Seq<SceneAppearanceSummary>,
) -> bool {
    let idx = appearance_positions(scenes, texts, needle, placement, scenes.len() as int);
    &&& v.len() == idx.len()
    &&& forall|j: int| 0 <= j < idx.len() ==> appearance_summary_of(#[trigger] v[j], scenes[idx[j]])
}

pub open spec fn facts_ok(
    facts: Seq<CanonicalFact>,
    values: Seq<Option<String>>,
    fields: Seq<Vec<String>>,
    needle: Seq<char>,
    placement: StoryPlacement,
    v: Seq<CanonicalFactSummary>,
) -> bool {
    let idx = fact_positions(facts, fields, needle, placement, facts.len() as int);
    &&& v.len() == idx.len()
    &&& forall|j: int| 0 <= j < idx.len() ==> fact_summary_of(#[trigger] v[j], facts[idx[j]], values[idx[j]])
}

/// A subject's snapshot at the placement, assembled from the batch.
///
/// Free text is matched on normalised names, supplied by the caller:
/// `label_needle` is the normalised subject label (what promises and
/// canonical facts are searched for), `name_needle` the normalised display
/// name the subject's details give (what scenes are searched for);
/// `promise_descriptions[k]` is the normalised description of the batch's
/// `k`-th promise and `scene_texts[k]` the normalised summary and text of its
/// `k`-th scene. For `canonical_facts[k]`, `fact_values[k]` is its value as
/// text and `fact_fields[k]` its normalised predicate, value and aliases.
///
/// It fails when the subject has no label, when its row is not in the batch
/// (or it is a project subject with an id), or when a character's edge
/// names a counterpart that cannot be shown, in that order.
pub fn assemble_subject_snapshot(
    batch: &SnapshotBatchContext,
    subject: &Subject,
    placement: &StoryPlacement,
    canonical_facts: &Vec<CanonicalFact>,
    fact_values: &Vec<Option<String>>,
    fact_fields: &Vec<Vec<String>>,
    label_needle: &str,
    promise_descriptions: &Vec<String>,
    name_needle: &str,
    scene_texts: &Vec<String>,
) -> (r: Result<SubjectSnapshotParts, SnapshotError>)
    requires
        fact_values@.len() == canonical_facts@.len(),
        fact_fields@.len() == canonical_facts@.len(),
        promise_descriptions@.len() == batch.promises@.len(),
        scene_texts@.len() == batch.scenes@.len(),
    ensures
        r is Ok <==> (label_found(*batch, *subject) && kind_found(*batch, *subject)
            && !relationships_fail(*batch, *subject)),
        match r {
            Ok(p) => {
                &&& kind_part_ok(
                    *batch,
                    *subject,
                    *placement,
                    p.display_name@,
                    p.kind_specific,
                    p.provenance,
                )
                &&& facts_ok(
                    canonical_facts@,
                    fact_values@,
                    fact_fields@,
                    label_needle@,
                    *placement,
                    p.canonical_facts@,
                )
                &&& knowledge_ok(*batch, *subject, *placement, p.knowledge@)
                &&& relationships_ok(*batch, *subject, p.relationships@)
                &&& promises_ok(
                    batch.promises@,
                    promise_descriptions@,
                    label_needle@,
                    *placement,
                    p.open_promises@,
                )
                &&& arcs_ok(*batch, *subject, *placement, p.active_arcs@)
                &&& appearances_ok(
                    batch.scenes@,
                    scene_texts@,
                    name_needle@,
                    *placement,
                    p.recent_appearances@,
                )
                &&& voice_ok(*batch, *subject, p.voice_profile)
                &&& state_ok(*batch, *subject, *placement, p.current_state)
            },
            Err(e) => if !label_found(*batch, *subject) {
                label_error(*batch, *subject, e)
            } else if !kind_found(*batch, *subject) {
                kind_error(*subject, e)
            } else {
                relationships_error(*batch, *subject, e)
            },
        },
{
    match subject_label(batch, subject) {
        Ok(_) => {},
        Err(e) => {
            return Err(e);
        },
    }
    let (display_name, kind_specific, provenance) = match batch_subject_kind(batch, subject, placement) {
        Ok(parts) => parts,
        Err(e) => {
            return Err(e);
        },
    };
    let facts = canonical_facts_matching(canonical_facts, fact_values, fact_fields, label_needle, placement);
    let knowledge = match batch_knowledge_summaries(batch, subject, placement) {
        Ok(v) => v,
        Err(e) => {
            return Err(e);
        },
    };
    let relationships = match batch_relationship_summaries(batch, subject) {
        Ok(v) => v,
        Err(e) => {
            return Err(e);
        },
    };
    proof {
        if subject.table == SubjectTable::Character {
            let id = subject.id->0@;
            let edges = edges_of(batch.relationships@, id);
            assert forall|k: int| 0 <= k < edges.len() implies spec_display_name(
                *batch,
                counterpart_of(#[trigger] edges[k], id),
            ) is Ok by {
                assert(relationship_summary_of(*batch, relationships@[k], edges[k], id));
            }
        }
    }
    let open_promises = open_promises_matching(&batch.promises, promise_descriptions, label_needle, placement);
    let active_arcs = match batch_active_arc_summaries(batch, subject, placement) {
        Ok(v) => v,
        Err(e) => {
            return Err(e);
        },
    };
    let appearances = recent_appearances(&batch.scenes, scene_texts, name_needle, placement);
    let voice_profile = match batch_voice_profile_summary(batch, subject) {
        Ok(v) => v,
        Err(e) => {
            return Err(e);
        },
    };
    let current_state = match batch_character_state_summary(batch, subject, placement) {
        Ok(v) => v,
        Err(e) => {
            return Err(e);
        },
    };
    Ok(
        SubjectSnapshotParts {
            display_name,
            kind_specific,
            provenance,
            canonical_facts: facts,
            knowledge,
            relationships,
            open_promises,
            active_arcs,
            recent_appearances: appearances,
            voice_profile,
            current_state,
        },
    )
}

} // verus!
