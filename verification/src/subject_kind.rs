//! The kind-specific part of a subject snapshot: the name a subject goes
//! by, the details its table carries, and where they come from.

use vstd::prelude::*;
use vstd::string::*;
use crate::ids::{IdError, SubjectTable};
use crate::placement::{
    StoryPlacement, clone_opt_placement, clone_placement, placement_at_or_after, spec_at_or_after,
};
use crate::records::{RelatesTo, Theme, WorldState};
use crate::serial::opt_view;
use crate::snapshot::{
    SnapshotBatchContext, SnapshotError, Subject, SubjectLinkSummary, Provenance, NameFailure,
    find_by_id, first_with_id, first_edge, spec_display_name, batch_subject_link_summary,
    scene_label, scene_label_text, chapter_label, book_label, is_scene_provenance,
    is_placement_provenance, scene_provenance, placement_provenance, relationship_summary_text,
    is_relationship_provenance, is_project_wide,
};
use crate::text::{
    str_eq, split_once, spec_split_once, split_left, split_right, clone_opt_string, clone_strings,
    join_strings, views, to_owned_string, push_i64_decimal,
};

verus! {

/// The project's reader contract, as a snapshot shows it.
pub struct ReaderContractView {
    pub promise: String,
    pub style_notes: Vec<String>,
    pub boundaries: Vec<String>,
}

/// What a subject's table adds to its snapshot.
#[allow(inconsistent_fields)]
pub enum SubjectKindSpecific {
    ProjectOverview {
        project_type: String,
        genre: String,
        reader_contract: ReaderContractView,
        notes: Option<String>,
    },
    WorldRule {
        rule_type: String,
        description: String,
        scan_pattern: Option<String>,
        relevance_tags: Vec<String>,
        established_in: Option<StoryPlacement>,
    },
    Character { role: String, summary: String, realm: Option<String> },
    Location {
        kind: String,
        summary: String,
        realm: Option<String>,
        controlling_faction: Option<String>,
        status: Option<String>,
    },
    Faction {
        category: String,
        summary: String,
        goals: Vec<String>,
        sphere_of_influence: Option<String>,
    },
    Religion {
        domain: Option<String>,
        summary: String,
        core_beliefs: Vec<String>,
        practices: Vec<String>,
    },
    Economy {
        system: String,
        summary: String,
        currency: Option<String>,
        trade_goods: Vec<String>,
    },
    PlotLine { plot_type: String, summary: String, status: Option<String> },
    Conflict {
        conflict_type: String,
        stakes: String,
        status: Option<String>,
        escalation_stage: Option<String>,
    },
    Theme { statement: String, thesis_antithesis: Option<String>, status: Option<String> },
    Motif { name: String, description: String, thematic_links: Vec<String> },
    SystemOverlay {
        system_name: String,
        system_type: String,
        visibility: String,
        rules: Vec<String>,
        stats: Vec<String>,
    },
    NarrativePromise {
        promise_type: String,
        description: String,
        status: String,
        planned_payoff: Option<StoryPlacement>,
    },
    CharacterArc {
        arc_type: String,
        starting_state: String,
        current_state: String,
        target_state: String,
        thematic_purpose: String,
    },
    Term {
        term_text: String,
        pronunciation: Option<String>,
        definition: String,
        usage_context: Option<String>,
        origin: Option<String>,
    },
    Relationship {
        relationship_type: String,
        source: SubjectLinkSummary,
        target: SubjectLinkSummary,
        trust: Option<i32>,
        tension: Option<i32>,
        summary: String,
    },
    TimelineEvent {
        title: String,
        event_type: String,
        placement: StoryPlacement,
        summary: String,
        related_subjects: Vec<SubjectLinkSummary>,
    },
    SceneOverview { summary: String, content_rating: String, tone: Option<String> },
    ChapterOverview { book_number: i32, chapter_number: i32, title: Option<String> },
    BookOverview { book_number: i32, title: Option<String> },
}

/// The name, details and provenance of a subject.
pub type KindParts = (String, SubjectKindSpecific, Provenance);

/// The first world state stored for a location.
pub open spec fn first_world_state(ws: Seq<WorldState>, id: Seq<char>, i: int) -> Option<int>
    decreases ws.len() - i,
{
    if i < 0 || i >= ws.len() {
        None
    } else if ws[i].location_id@ == id {
        Some(i)
    } else {
        first_world_state(ws, id, i + 1)
    }
}

fn find_world_state(ws: &Vec<WorldState>, id: &str) -> (r: Option<usize>)
    ensures
        match r {
            Some(k) => first_world_state(ws@, id@, 0) == Some(k as int) && k < ws@.len(),
            None => first_world_state(ws@, id@, 0) is None,
        },
{
    let mut i: usize = 0;
    while i < ws.len()
        invariant
            i <= ws.len(),
            first_world_state(ws@, id@, 0) == first_world_state(ws@, id@, i as int),
        decreases ws.len() - i,
    {
        if str_eq(ws[i].location_id.as_str(), id) {
            return Some(i);
        }
        i = i + 1;
    }
    None
}

pub open spec fn contains_id(ids: Seq<String>, id: Seq<char>) -> bool {
    exists|i: int| 0 <= i < ids.len() && ids[i]@ == id
}

/// The statements of the themes a motif is connected to, in theme order.
pub open spec fn thematic_links(themes: Seq<Theme>, ids: Seq<String>) -> Seq<Seq<char>>
    decreases themes.len(),
{
    if themes.len() == 0 {
        Seq::empty()
    } else {
        let rest = thematic_links(themes.drop_last(), ids);
        if contains_id(ids, themes.last().id@) {
            rest.push(themes.last().theme_statement@)
        } else {
            rest
        }
    }
}

fn ids_contain(ids: &Vec<String>, id: &str) -> (r: bool)
    ensures
        r == contains_id(ids@, id@),
{
    let mut i: usize = 0;
    while i < ids.len()
        invariant
            i <= ids.len(),
            forall|j: int| 0 <= j < i ==> ids@[j]@ != id@,
        decreases ids.len() - i,
    {
        if str_eq(ids[i].as_str(), id) {
            return true;
        }
        i = i + 1;
    }
    false
}

fn motif_links(themes: &Vec<Theme>, ids: &Vec<String>) -> (r: Vec<String>)
    ensures
        views(r@) == thematic_links(themes@, ids@),
{
    let mut out: Vec<String> = Vec::new();
    let mut i: usize = 0;
    while i < themes.len()
        invariant
            i <= themes.len(),
            views(out@) == thematic_links(themes@.take(i as int), ids@),
        decreases themes.len() - i,
    {
        assert(themes@.take(i + 1).drop_last() =~= themes@.take(i as int));
        if ids_contain(ids, themes[i].id.as_str()) {
            let st = themes[i].theme_statement.clone();
            assert(views(out@.push(st)) =~= views(out@).push(st@));
            out.push(st);
        }
        i = i + 1;
    }
    assert(themes@.take(themes@.len() as int) =~= themes@);
    out
}

/// The subjects a timeline event names that can be linked (the others are
/// left out).
pub open spec fn linkable(batch: SnapshotBatchContext, id: Seq<char>) -> bool {
    &&& spec_split_once(id, ':') is Some
    &&& crate::ids::spec_table_for_prefix(split_left(id, ':')) is Some
    &&& spec_display_name(batch, id) is Ok
}

pub open spec fn linked_ids(batch: SnapshotBatchContext, ids: Seq<String>) -> Seq<Seq<char>>
    decreases ids.len(),
{
    if ids.len() == 0 {
        Seq::empty()
    } else {
        let rest = linked_ids(batch, ids.drop_last());
        if linkable(batch, ids.last()@) {
            rest.push(ids.last()@)
        } else {
            rest
        }
    }
}

pub open spec fn is_link_of(batch: SnapshotBatchContext, l: SubjectLinkSummary, id: Seq<char>) -> bool {
    &&& l.id@ == id
    &&& crate::ids::spec_table_for_prefix(split_left(id, ':')) == Some(l.table)
    &&& spec_display_name(batch, id) == Ok::<Seq<char>, NameFailure>(l.display_name@)
}

fn related_subjects(batch: &SnapshotBatchContext, ids: &Vec<String>) -> (r: Vec<SubjectLinkSummary>)
    ensures
        r@.len() == linked_ids(*batch, ids@).len(),
        forall|i: int|
            0 <= i < r@.len() ==> is_link_of(*batch, #[trigger] r@[i], linked_ids(*batch, ids@)[i]),
{
    let mut out: Vec<SubjectLinkSummary> = Vec::new();
    let mut i: usize = 0;
    while i < ids.len()
        invariant
            i <= ids.len(),
            out@.len() == linked_ids(*batch, ids@.take(i as int)).len(),
            forall|j: int|
                0 <= j < out@.len() ==> is_link_of(
                    *batch,
                    #[trigger] out@[j],
                    linked_ids(*batch, ids@.take(i as int))[j],
                ),
        decreases ids.len() - i,
    {
        assert(ids@.take(i + 1).drop_last() =~= ids@.take(i as int));
        match batch_subject_link_summary(batch, ids[i].as_str()) {
            Ok(l) => {
                out.push(l);
            },
            Err(_) => {},
        }
        i = i + 1;
    }
    assert(ids@.take(ids@.len() as int) =~= ids@);
    out
}

/// The raw id of a subject that is not the project as a whole.
pub open spec fn subject_raw_id(s: Subject) -> Seq<char> {
    s.id->0@
}

/// What `batch_subject_kind` yields for a subject found in the batch.
pub open spec fn kind_ok(
    batch: SnapshotBatchContext,
    subject: Subject,
    placement: StoryPlacement,
    name: Seq<char>,
    kind: SubjectKindSpecific,
    prov: Provenance,
) -> bool {
    let id = subject_raw_id(subject);
    match subject.table {
        SubjectTable::WorldRule => {
            let w = batch.world_rules@[first_with_id(batch.world_rules@, id, 0)->0];
            &&& name == w.rule_name@
            &&& kind matches SubjectKindSpecific::WorldRule {
                rule_type,
                description,
                scan_pattern,
                relevance_tags,
                established_in,
            }
            &&& rule_type == w.rule_type
            &&& description == w.description
            &&& scan_pattern == w.scan_pattern
            &&& relevance_tags@ == (match w.relevance_tags {
                Some(t) => t@,
                None => Seq::empty(),
            })
            &&& established_in == w.established_in
            &&& prov == Provenance::AssertedByAuthor { at: w.created_at }
        },
        SubjectTable::Character => {
            let c = batch.characters@[first_with_id(batch.characters@, id, 0)->0];
            &&& name == c.name@
            &&& kind == SubjectKindSpecific::Character {
                role: c.role,
                summary: c.summary,
                realm: c.realm,
            }
            &&& prov == Provenance::AssertedByAuthor { at: c.updated_at }
        },
        SubjectTable::Location => {
            let l = batch.locations@[first_with_id(batch.locations@, id, 0)->0];
            let ws = first_world_state(batch.world_states@, id, 0);
            &&& name == l.name@
            &&& kind == SubjectKindSpecific::Location {
                kind: l.kind,
                summary: l.summary,
                realm: l.realm,
                controlling_faction: match ws {
                    Some(k) => batch.world_states@[k].controlling_faction,
                    None => None,
                },
                status: match ws {
                    Some(k) => batch.world_states@[k].status,
                    None => None,
                },
            }
            &&& prov == Provenance::AssertedByAuthor { at: l.updated_at }
        },
        SubjectTable::Faction => {
            let f = batch.factions@[first_with_id(batch.factions@, id, 0)->0];
            &&& name == f.name@
            &&& kind matches SubjectKindSpecific::Faction {
                category,
                summary,
                goals,
                sphere_of_influence,
            }
            &&& category == f.faction_type && summary == f.summary && goals@ == f.tags@
                && sphere_of_influence == f.realm
            &&& prov == Provenance::AssertedByAuthor { at: f.updated_at }
        },
        SubjectTable::Religion => {
            let g = batch.religions@[first_with_id(batch.religions@, id, 0)->0];
            &&& name == g.name@
            &&& kind matches SubjectKindSpecific::Religion {
                domain,
                summary,
                core_beliefs,
                practices,
            }
            &&& domain == g.deity_or_principle && summary == g.summary && core_beliefs@ == g.tags@
                && practices@.len() == 0
            &&& prov == Provenance::AssertedByAuthor { at: g.updated_at }
        },
        SubjectTable::Economy => {
            let e = batch.economies@[first_with_id(batch.economies@, id, 0)->0];
            &&& name == e.name@
            &&& kind matches SubjectKindSpecific::Economy { system, summary, currency, trade_goods }
            &&& system@ == (match e.realm {
                Some(r) => r@,
                None => "regional"@,
            })
            &&& summary == e.summary && currency == e.currency && trade_goods@ == e.trade_goods@
            &&& prov == Provenance::AssertedByAuthor { at: e.updated_at }
        },
        SubjectTable::PlotLine => {
            let p = batch.plot_lines@[first_with_id(batch.plot_lines@, id, 0)->0];
            &&& name == p.name@
            &&& kind == SubjectKindSpecific::PlotLine {
                plot_type: p.plot_type,
                summary: p.summary,
                status: Some(p.status),
            }
            &&& prov == Provenance::AssertedByAuthor { at: p.updated_at }
        },
        SubjectTable::Conflict => {
            let c = batch.conflicts@[first_with_id(batch.conflicts@, id, 0)->0];
            &&& name == c.name@
            &&& kind == SubjectKindSpecific::Conflict {
                conflict_type: c.conflict_type,
                stakes: c.stakes,
                status: c.resolution_summary,
                escalation_stage: if c.escalation_stages@.len() > 0 {
                    Some(c.escalation_stages@.last())
                } else {
                    None
                },
            }
            &&& prov == Provenance::AssertedByAuthor { at: c.updated_at }
        },
        SubjectTable::Theme => {
            let t = batch.themes@[first_with_id(batch.themes@, id, 0)->0];
            &&& name == t.theme_statement@
            &&& kind matches SubjectKindSpecific::Theme { statement, thesis_antithesis, status }
            &&& statement == t.theme_statement && thesis_antithesis == t.thesis_antithesis
            &&& opt_view(status) == (match t.resolution_point {
                Some(p) => if spec_at_or_after(placement, p) {
                    Some("resolved"@)
                } else {
                    None
                },
                None => None,
            })
            &&& prov == Provenance::AssertedByAuthor { at: t.updated_at }
        },
        SubjectTable::Motif => {
            let m = batch.motifs@[first_with_id(batch.motifs@, id, 0)->0];
            &&& name == m.name@
            &&& kind matches SubjectKindSpecific::Motif { name: n, description, thematic_links: l }
            &&& n == m.name && description == m.description
            &&& views(l@) == thematic_links(batch.themes@, m.connected_theme_ids@)
            &&& prov == Provenance::AssertedByAuthor { at: m.updated_at }
        },
        SubjectTable::SystemOverlay => {
            let o = batch.overlays@[first_with_id(batch.overlays@, id, 0)->0];
            &&& name == o.system_name@
            &&& kind matches SubjectKindSpecific::SystemOverlay {
                system_name,
                system_type,
                visibility,
                rules,
                stats,
            }
            &&& system_name == o.system_name && system_type == o.system_type && visibility
                == o.visibility && rules@ == o.rules@ && stats@ == o.stats@
            &&& prov == Provenance::AssertedByAuthor { at: o.updated_at }
        },
        SubjectTable::NarrativePromise => {
            let p = batch.promises@[first_with_id(batch.promises@, id, 0)->0];
            &&& name == p.description@
            &&& kind == SubjectKindSpecific::NarrativePromise {
                promise_type: p.promise_type,
                description: p.description,
                status: p.status,
                planned_payoff: p.planned_payoff,
            }
            &&& is_placement_provenance(prov, p.planted_at)
        },
        SubjectTable::CharacterArc => {
            let a = batch.arcs@[first_with_id(batch.arcs@, id, 0)->0];
            &&& name == a.arc_type@
            &&& kind == SubjectKindSpecific::CharacterArc {
                arc_type: a.arc_type,
                starting_state: a.starting_state,
                current_state: if a.progress_complete {
                    a.ending_state
                } else {
                    a.starting_state
                },
                target_state: a.ending_state,
                thematic_purpose: a.thematic_purpose,
            }
            &&& prov == Provenance::AssertedByAuthor { at: a.updated_at }
        },
        SubjectTable::Term => {
            let t = batch.terms@[first_with_id(batch.terms@, id, 0)->0];
            &&& name == t.term_text@
            &&& kind == SubjectKindSpecific::Term {
                term_text: t.term_text,
                pronunciation: t.pronunciation,
                definition: t.definition,
                usage_context: t.usage_context,
                origin: t.origin,
            }
            &&& prov == Provenance::AssertedByAuthor { at: t.updated_at }
        },
        SubjectTable::Relationship => relationship_parts_ok(batch, id, name, kind, prov),
        SubjectTable::TimelineEvent => {
            let e = batch.events@[first_with_id(batch.events@, id, 0)->0];
            let linked = linked_ids(batch, e.related_entity_ids@);
            &&& name == e.title@
            &&& kind matches SubjectKindSpecific::TimelineEvent {
                title,
                event_type,
                placement: at,
                summary,
                related_subjects,
            }
            &&& title == e.title && event_type == e.event_type && at == e.placement && summary
                == e.summary
            &&& related_subjects@.len() == linked.len()
            &&& forall|i: int|
                0 <= i < linked.len() ==> is_link_of(batch, #[trigger] related_subjects@[i], linked[i])
            &&& is_placement_provenance(prov, e.placement)
        },
        SubjectTable::Scene => {
            let s = batch.scenes@[first_with_id(batch.scenes@, id, 0)->0];
            &&& name == scene_label(s.book_number, s.chapter_number, s.scene_order)
            &&& kind == SubjectKindSpecific::SceneOverview {
                summary: s.summary,
                content_rating: s.content_rating,
                tone: s.tone,
            }
            &&& is_scene_provenance(prov, s.id@)
        },
        SubjectTable::Chapter => {
            let c = batch.chapters@[first_with_id(batch.chapters@, id, 0)->0];
            &&& name == chapter_label(c.title, c.chapter_number)
            &&& kind == SubjectKindSpecific::ChapterOverview {
                book_number: c.book_number,
                chapter_number: c.chapter_number,
                title: c.title,
            }
            &&& prov matches Provenance::Chapter { chapter_id } && chapter_id@ == c.id@
        },
        SubjectTable::Book => {
            let b = batch.books@[first_with_id(batch.books@, id, 0)->0];
            &&& name == book_label(b.title, b.book_number)
            &&& kind == SubjectKindSpecific::BookOverview {
                book_number: b.book_number,
                title: b.title,
            }
            &&& prov matches Provenance::Book { book_id } && book_id@ == b.id@
        },
        SubjectTable::Project => false,
    }
}

/// The row a subject names is in the batch.
pub open spec fn subject_found(batch: SnapshotBatchContext, subject: Subject) -> bool {
    let id = subject_raw_id(subject);
    match subject.table {
        SubjectTable::WorldRule => first_with_id(batch.world_rules@, id, 0) is Some,
        SubjectTable::Character => first_with_id(batch.characters@, id, 0) is Some,
        SubjectTable::Location => first_with_id(batch.locations@, id, 0) is Some,
        SubjectTable::Faction => first_with_id(batch.factions@, id, 0) is Some,
        SubjectTable::Religion => first_with_id(batch.religions@, id, 0) is Some,
        SubjectTable::Economy => first_with_id(batch.economies@, id, 0) is Some,
        SubjectTable::PlotLine => first_with_id(batch.plot_lines@, id, 0) is Some,
        SubjectTable::Conflict => first_with_id(batch.conflicts@, id, 0) is Some,
        SubjectTable::Theme => first_with_id(batch.themes@, id, 0) is Some,
        SubjectTable::Motif => first_with_id(batch.motifs@, id, 0) is Some,
        SubjectTable::SystemOverlay => first_with_id(batch.overlays@, id, 0) is Some,
        SubjectTable::NarrativePromise => first_with_id(batch.promises@, id, 0) is Some,
        SubjectTable::CharacterArc => first_with_id(batch.arcs@, id, 0) is Some,
        SubjectTable::Term => first_with_id(batch.terms@, id, 0) is Some,
        SubjectTable::Relationship => {
            &&& spec_split_once(id, '|') is Some
            &&& first_edge(batch.relationships@, split_left(id, '|'), split_right(id, '|'), 0) is Some
            &&& linkable(batch, split_left(id, '|'))
            &&& linkable(batch, split_right(id, '|'))
        },
        SubjectTable::TimelineEvent => first_with_id(batch.events@, id, 0) is Some,
        SubjectTable::Scene => first_with_id(batch.scenes@, id, 0) is Some,
        SubjectTable::Chapter => first_with_id(batch.chapters@, id, 0) is Some,
        SubjectTable::Book => first_with_id(batch.books@, id, 0) is Some,
        SubjectTable::Project => false,
    }
}

/// The project as a whole: its name, type, genre, contract and notes, as
/// last edited by the author.
pub open spec fn project_kind_ok(
    batch: SnapshotBatchContext,
    name: Seq<char>,
    kind: SubjectKindSpecific,
    prov: Provenance,
) -> bool {
    let p = batch.project;
    &&& name == p.name@
    &&& kind matches SubjectKindSpecific::ProjectOverview {
        project_type,
        genre,
        reader_contract,
        notes,
    }
    &&& project_type == p.project_type && genre == p.genre && notes == p.notes
    &&& reader_contract.promise == p.reader_contract.promise
    &&& reader_contract.style_notes@ == p.reader_contract.style_notes@
    &&& reader_contract.boundaries@ == p.reader_contract.boundaries@
    &&& prov == Provenance::AssertedByAuthor { at: p.updated_at }
}

fn project_kind(batch: &SnapshotBatchContext) -> (r: KindParts)
    ensures
        project_kind_ok(*batch, r.0@, r.1, r.2),
{
    let p = &batch.project;
    (
        p.name.clone(),
        SubjectKindSpecific::ProjectOverview {
            project_type: p.project_type.clone(),
            genre: p.genre.clone(),
            reader_contract: ReaderContractView {
                promise: p.reader_contract.promise.clone(),
                style_notes: clone_strings(&p.reader_contract.style_notes),
                boundaries: clone_strings(&p.reader_contract.boundaries),
            },
            notes: clone_opt_string(&p.notes),
        },
        Provenance::AssertedByAuthor { at: p.updated_at },
    )
}

/// The name, details and provenance of a subject as of `placement`.
///
/// The project as a whole is described from the project row; any other
/// subject is looked up by its id in the rows of its table. A subject
/// without an id, a project subject with one, and a subject whose row (or,
/// for a relationship, whose edge or either end) is not in the batch are
/// refused.
pub fn batch_subject_kind(
    batch: &SnapshotBatchContext,
    subject: &Subject,
    placement: &StoryPlacement,
) -> (r: Result<KindParts, SnapshotError>)
    ensures
        is_project_wide(*subject) ==> (r matches Ok(parts) && project_kind_ok(
            *batch,
            parts.0@,
            parts.1,
            parts.2,
        )),
        !is_project_wide(*subject) && subject.id is None ==> (r matches Err(
            SnapshotError::SubjectIdMissing,
        )),
        !is_project_wide(*subject) && subject.id is Some ==> match r {
            Ok(parts) => subject_found(*batch, *subject) && kind_ok(
                *batch,
                *subject,
                *placement,
                parts.0@,
                parts.1,
                parts.2,
            ),
            Err(e) => {
                &&& !subject_found(*batch, *subject)
                &&& subject.table == SubjectTable::Project ==> e
                    == SnapshotError::ProjectHandledSeparately
                &&& (subject.table != SubjectTable::Project && subject.table
                    != SubjectTable::Relationship) ==> (e matches SnapshotError::RecordNotFound {
                    id,
                } && id@ == subject_raw_id(*subject))
            },
        },
{
    if subject.table == SubjectTable::Project && subject.id.is_none() {
        return Ok(project_kind(batch));
    }
    let raw: &str = match &subject.id {
        Some(i) => i.as_str(),
        None => {
            return Err(SnapshotError::SubjectIdMissing);
        },
    };
    match subject.table {
        SubjectTable::WorldRule => {
            let k = find_by_id(&batch.world_rules, raw)?;
            let w = &batch.world_rules[k];
            let tags = match &w.relevance_tags {
                Some(t) => clone_strings(t),
                None => Vec::new(),
            };
            Ok(
                (
                    w.rule_name.clone(),
                    SubjectKindSpecific::WorldRule {
                        rule_type: w.rule_type.clone(),
                        description: w.description.clone(),
                        scan_pattern: clone_opt_string(&w.scan_pattern),
                        relevance_tags: tags,
                        established_in: clone_opt_placement(&w.established_in),
                    },
                    Provenance::AssertedByAuthor { at: w.created_at },
                ),
            )
        },
        SubjectTable::Character => {
            let k = find_by_id(&batch.characters, raw)?;
            let c = &batch.characters[k];
            Ok(
                (
                    c.name.clone(),
                    SubjectKindSpecific::Character {
                        role: c.role.clone(),
                        summary: c.summary.clone(),
                        realm: clone_opt_string(&c.realm),
                    },
                    Provenance::AssertedByAuthor { at: c.updated_at },
                ),
            )
        },
        SubjectTable::Location => {
            let k = find_by_id(&batch.locations, raw)?;
            let l = &batch.locations[k];
            let ws = find_world_state(&batch.world_states, raw);
            let (controlling_faction, status) = match ws {
                Some(j) => (
                    clone_opt_string(&batch.world_states[j].controlling_faction),
                    clone_opt_string(&batch.world_states[j].status),
                ),
                None => (None, None),
            };
            Ok(
                (
                    l.name.clone(),
                    SubjectKindSpecific::Location {
                        kind: l.kind.clone(),
                        summary: l.summary.clone(),
                        realm: clone_opt_string(&l.realm),
                        controlling_faction,
                        status,
                    },
                    Provenance::AssertedByAuthor { at: l.updated_at },
                ),
            )
        },
        SubjectTable::Faction => {
            let k = find_by_id(&batch.factions, raw)?;
            let f = &batch.factions[k];
            Ok(
                (
                    f.name.clone(),
                    SubjectKindSpecific::Faction {
                        category: f.faction_type.clone(),
                        summary: f.summary.clone(),
                        goals: clone_strings(&f.tags),
                        sphere_of_influence: clone_opt_string(&f.realm),
                    },
                    Provenance::AssertedByAuthor { at: f.updated_at },
                ),
            )
        },
        SubjectTable::Religion => {
            let k = find_by_id(&batch.religions, raw)?;
            let g = &batch.religions[k];
            Ok(
                (
                    g.name.clone(),
                    SubjectKindSpecific::Religion {
                        domain: clone_opt_string(&g.deity_or_principle),
                        summary: g.summary.clone(),
                        core_beliefs: clone_strings(&g.tags),
                        practices: Vec::new(),
                    },
                    Provenance::AssertedByAuthor { at: g.updated_at },
                ),
            )
        },
        SubjectTable::Economy => {
            let k = find_by_id(&batch.economies, raw)?;
            let e = &batch.economies[k];
            let system = match &e.realm {
                Some(r) => r.clone(),
                None => to_owned_string("regional"),
            };
            Ok(
                (
                    e.name.clone(),
                    SubjectKindSpecific::Economy {
                        system,
                        summary: e.summary.clone(),
                        currency: clone_opt_string(&e.currency),
                        trade_goods: clone_strings(&e.trade_goods),
                    },
                    Provenance::AssertedByAuthor { at: e.updated_at },
                ),
            )
        },
        SubjectTable::PlotLine => {
            let k = find_by_id(&batch.plot_lines, raw)?;
            let p = &batch.plot_lines[k];
            Ok(
                (
                    p.name.clone(),
                    SubjectKindSpecific::PlotLine {
                        plot_type: p.plot_type.clone(),
                        summary: p.summary.clone(),
                        status: Some(p.status.clone()),
                    },
                    Provenance::AssertedByAuthor { at: p.updated_at },
                ),
            )
        },
        SubjectTable::Conflict => {
            let k = find_by_id(&batch.conflicts, raw)?;
            let c = &batch.conflicts[k];
            let n = c.escalation_stages.len();
            let stage = if n > 0 {
                Some(c.escalation_stages[n - 1].clone())
            } else {
                None
            };
            Ok(
                (
                    c.name.clone(),
                    SubjectKindSpecific::Conflict {
                        conflict_type: c.conflict_type.clone(),
                        stakes: c.stakes.clone(),
                        status: clone_opt_string(&c.resolution_summary),
                        escalation_stage: stage,
                    },
                    Provenance::AssertedByAuthor { at: c.updated_at },
                ),
            )
        },
        SubjectTable::Theme => {
            let k = find_by_id(&batch.themes, raw)?;
            let t = &batch.themes[k];
            let status = match &t.resolution_point {
                Some(p) => if placement_at_or_after(placement, p) {
                    Some(to_owned_string("resolved"))
                } else {
                    None
                },
                None => None,
            };
            Ok(
                (
                    t.theme_statement.clone(),
                    SubjectKindSpecific::Theme {
                        statement: t.theme_statement.clone(),
                        thesis_antithesis: clone_opt_string(&t.thesis_antithesis),
                        status,
                    },
                    Provenance::AssertedByAuthor { at: t.updated_at },
                ),
            )
        },
        SubjectTable::Motif => {
            let k = find_by_id(&batch.motifs, raw)?;
            let m = &batch.motifs[k];
            Ok(
                (
                    m.name.clone(),
                    SubjectKindSpecific::Motif {
                        name: m.name.clone(),
                        description: m.description.clone(),
                        thematic_links: motif_links(&batch.themes, &m.connected_theme_ids),
                    },
                    Provenance::AssertedByAuthor { at: m.updated_at },
                ),
            )
        },
        SubjectTable::SystemOverlay => {
            let k = find_by_id(&batch.overlays, raw)?;
            let o = &batch.overlays[k];
            Ok(
                (
                    o.system_name.clone(),
                    SubjectKindSpecific::SystemOverlay {
                        system_name: o.system_name.clone(),
                        system_type: o.system_type.clone(),
                        visibility: o.visibility.clone(),
                        rules: clone_strings(&o.rules),
                        stats: clone_strings(&o.stats),
                    },
                    Provenance::AssertedByAuthor { at: o.updated_at },
                ),
            )
        },
        SubjectTable::NarrativePromise => {
            let k = find_by_id(&batch.promises, raw)?;
            let p = &batch.promises[k];
            Ok(
                (
                    p.description.clone(),
                    SubjectKindSpecific::NarrativePromise {
                        promise_type: p.promise_type.clone(),
                        description: p.description.clone(),
                        status: p.status.clone(),
                        planned_payoff: clone_opt_placement(&p.planned_payoff),
                    },
                    placement_provenance(&p.planted_at),
                ),
            )
        },
        SubjectTable::CharacterArc => {
            let k = find_by_id(&batch.arcs, raw)?;
            let a = &batch.arcs[k];
            let current = if a.progress_complete {
                a.ending_state.clone()
            } else {
                a.starting_state.clone()
            };
            Ok(
                (
                    a.arc_type.clone(),
                    SubjectKindSpecific::CharacterArc {
                        arc_type: a.arc_type.clone(),
                        starting_state: a.starting_state.clone(),
                        current_state: current,
                        target_state: a.ending_state.clone(),
                        thematic_purpose: a.thematic_purpose.clone(),
                    },
                    Provenance::AssertedByAuthor { at: a.updated_at },
                ),
            )
        },
        SubjectTable::Term => {
            let k = find_by_id(&batch.terms, raw)?;
            let t = &batch.terms[k];
            Ok(
                (
                    t.term_text.clone(),
                    SubjectKindSpecific::Term {
                        term_text: t.term_text.clone(),
                        pronunciation: clone_opt_string(&t.pronunciation),
                        definition: t.definition.clone(),
                        usage_context: clone_opt_string(&t.usage_context),
                        origin: clone_opt_string(&t.origin),
                    },
                    Provenance::AssertedByAuthor { at: t.updated_at },
                ),
            )
        },
        SubjectTable::Relationship => relationship_kind(batch, raw),
        SubjectTable::TimelineEvent => {
            let k = find_by_id(&batch.events, raw)?;
            let e = &batch.events[k];
            Ok(
                (
                    e.title.clone(),
                    SubjectKindSpecific::TimelineEvent {
                        title: e.title.clone(),
                        event_type: e.event_type.clone(),
                        placement: clone_placement(&e.placement),
                        summary: e.summary.clone(),
                        related_subjects: related_subjects(batch, &e.related_entity_ids),
                    },
                    placement_provenance(&e.placement),
                ),
            )
        },
        SubjectTable::Scene => {
            let k = find_by_id(&batch.scenes, raw)?;
            let s = &batch.scenes[k];
            Ok(
                (
                    scene_label_text(s.book_number, s.chapter_number, s.scene_order),
                    SubjectKindSpecific::SceneOverview {
                        summary: s.summary.clone(),
                        content_rating: s.content_rating.clone(),
                        tone: clone_opt_string(&s.tone),
                    },
                    scene_provenance(s.id.as_str()),
                ),
            )
        },
        SubjectTable::Chapter => {
            let k = find_by_id(&batch.chapters, raw)?;
            let c = &batch.chapters[k];
            let name = match &c.title {
                Some(t) => t.clone(),
                None => {
                    let mut s = to_owned_string("Chapter ");
                    push_i64_decimal(&mut s, c.chapter_number as i64);
                    s
                },
            };
            Ok(
                (
                    name,
                    SubjectKindSpecific::ChapterOverview {
                        book_number: c.book_number,
                        chapter_number: c.chapter_number,
                        title: clone_opt_string(&c.title),
                    },
                    Provenance::Chapter { chapter_id: c.id.clone() },
                ),
            )
        },
        SubjectTable::Book => {
            let k = find_by_id(&batch.books, raw)?;
            let b = &batch.books[k];
            let name = match &b.title {
                Some(t) => t.clone(),
                None => {
                    let mut s = to_owned_string("Book ");
                    push_i64_decimal(&mut s, b.book_number as i64);
                    s
                },
            };
            Ok(
                (
                    name,
                    SubjectKindSpecific::BookOverview {
                        book_number: b.book_number,
                        title: clone_opt_string(&b.title),
                    },
                    Provenance::Book { book_id: b.id.clone() },
                ),
            )
        },
        SubjectTable::Project => Err(SnapshotError::ProjectHandledSeparately),
    }
}

#[verifier::rlimit(40)]
fn relationship_kind(batch: &SnapshotBatchContext, raw: &str) -> (r: Result<KindParts, SnapshotError>)
    ensures
        match r {
            Ok(parts) => {
                let a = split_left(raw@, '|');
                let b = split_right(raw@, '|');
                &&& spec_split_once(raw@, '|') is Some
                &&& first_edge(batch.relationships@, a, b, 0) is Some
                &&& linkable(*batch, a)
                &&& linkable(*batch, b)
                &&& relationship_parts_ok(*batch, raw@, parts.0@, parts.1, parts.2)
            },
            Err(_) => !({
                &&& spec_split_once(raw@, '|') is Some
                &&& first_edge(
                    batch.relationships@,
                    split_left(raw@, '|'),
                    split_right(raw@, '|'),
                    0,
                ) is Some
                &&& linkable(*batch, split_left(raw@, '|'))
                &&& linkable(*batch, split_right(raw@, '|'))
            }),
        },
{
    let (a, b) = match split_once(raw, '|') {
        Some(parts) => parts,
        None => {
            return Err(SnapshotError::Id(IdError::NotRelationshipId { id: to_owned_string(raw) }));
        },
    };
    let k = match find_edge_index(&batch.relationships, a, b) {
        Some(k) => k,
        None => {
            return Err(SnapshotError::RelationshipNotFound { id: to_owned_string(raw) });
        },
    };
    let rel = &batch.relationships[k];
    proof {
        lemma_first_edge_matches(batch.relationships@, a@, b@, 0);
    }
    assert(rel.in_id@ == a@ && rel.out_id@ == b@);
    let source = batch_subject_link_summary(batch, rel.in_id.as_str())?;
    let target = batch_subject_link_summary(batch, rel.out_id.as_str())?;
    let mut name = source.display_name.clone();
    name.append(" -> ");
    name.append(target.display_name.as_str());
    let summary = match &rel.reason {
        Some(x) => x.clone(),
        None => join_strings(&rel.dynamics, ", "),
    };
    let prov = match &rel.last_scene_id {
        Some(s) => scene_provenance(s.as_str()),
        None => Provenance::AssertedByAuthor { at: rel.updated_at },
    };
    Ok(
        (
            name,
            SubjectKindSpecific::Relationship {
                relationship_type: rel.relationship_type.clone(),
                source,
                target,
                trust: Some(rel.trust),
                tension: Some(rel.tension),
                summary,
            },
            prov,
        ),
    )
}

/// What a relationship subject `"<in_id>|<out_id>"` yields.
pub open spec fn relationship_parts_ok(
    batch: SnapshotBatchContext,
    id: Seq<char>,
    name: Seq<char>,
    kind: SubjectKindSpecific,
    prov: Provenance,
) -> bool {
    let a = split_left(id, '|');
    let b = split_right(id, '|');
    let rel = batch.relationships@[first_edge(batch.relationships@, a, b, 0)->0];
    &&& kind matches SubjectKindSpecific::Relationship {
        relationship_type,
        source,
        target,
        trust,
        tension,
        summary,
    }
    &&& is_link_of(batch, source, a)
    &&& is_link_of(batch, target, b)
    &&& name == source.display_name@ + " -> "@ + target.display_name@
    &&& relationship_type == rel.relationship_type
    &&& trust == Some(rel.trust) && tension == Some(rel.tension)
    &&& summary@ == relationship_summary_text(rel)
    &&& is_relationship_provenance(prov, rel)
}

proof fn lemma_first_edge_matches(rels: Seq<RelatesTo>, a: Seq<char>, b: Seq<char>, i: int)
    ensures
        first_edge(rels, a, b, i) matches Some(k) ==> i <= k < rels.len() && rels[k].in_id@ == a
            && rels[k].out_id@ == b,
    decreases rels.len() - i,
{
    if 0 <= i < rels.len() && !(rels[i].in_id@ == a && rels[i].out_id@ == b) {
        lemma_first_edge_matches(rels, a, b, i + 1);
    }
}

fn find_edge_index(rels: &Vec<RelatesTo>, a: &str, b: &str) -> (r: Option<usize>)
    ensures
        match r {
            Some(k) => first_edge(rels@, a@, b@, 0) == Some(k as int) && k < rels@.len(),
            None => first_edge(rels@, a@, b@, 0) is None,
        },
{
    let mut i: usize = 0;
    while i < rels.len()
        invariant
            i <= rels.len(),
            first_edge(rels@, a@, b@, 0) == first_edge(rels@, a@, b@, i as int),
        decreases rels.len() - i,
    {
        if str_eq(rels[i].in_id.as_str(), a) && str_eq(rels[i].out_id.as_str(), b) {
            return Some(i);
        }
        i = i + 1;
    }
    None
}

} // verus!
