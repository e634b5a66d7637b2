//! Subject snapshots: what the story bible says about one subject (a
//! character, a location, a relationship, ...) as of a point in the
//! manuscript, projected from a batch of rows loaded once per project and
//! branch.

use vstd::prelude::*;
use vstd::string::*;
use crate::records::{
    ArcMilestone, Book, Chapter, Character, CharacterArc, CharacterState, CharacterVoiceProfile,
    Conflict, Economy, Faction, Location, Motif, NarrativePromise, PlotLine, Project, RelatesTo,
    Religion, Scene, SystemOverlay, Term, Theme, TimelineEvent, WorldRule, WorldState, KnowledgeFact,
};
use crate::ids::{IdError, SubjectTable, subject_table_from_id, spec_table_for_prefix};
use crate::placement::{StoryPlacement, key_le, spec_placement_key, spec_at_or_after, placement_at_or_after, earliest_key, spec_position_at_or_before, position_at_or_before, key_less_eq, placement_key};
use crate::row::{Timestamp, timestamp_rfc3339, rfc3339_text_of, utc_representable_micros};
use crate::serial::opt_view;
use crate::text::{clone_opt_string, clone_strings, join_strings, spec_join, views};
use crate::text::{
    str_eq, split_once, spec_split_once, split_left, split_right, lemma_split_lengths, int_decimal,
    push_i64_decimal, to_owned_string,
};

verus! {

/// Rows addressed by their `id` column.
pub trait HasId {
    spec fn spec_id(&self) -> Seq<char>;

    fn record_id(&self) -> (r: &str)
        ensures
            r@ == self.spec_id(),
    ;
}

impl HasId for WorldRule {
    open spec fn spec_id(&self) -> Seq<char> {
        self.id@
    }

    fn record_id(&self) -> (r: &str) {
        self.id.as_str()
    }
}

impl HasId for Character {
    open spec fn spec_id(&self) -> Seq<char> {
        self.id@
    }

    fn record_id(&self) -> (r: &str) {
        self.id.as_str()
    }
}

impl HasId for Location {
    open spec fn spec_id(&self) -> Seq<char> {
        self.id@
    }

    fn record_id(&self) -> (r: &str) {
        self.id.as_str()
    }
}

impl HasId for Faction {
    open spec fn spec_id(&self) -> Seq<char> {
        self.id@
    }

    fn record_id(&self) -> (r: &str) {
        self.id.as_str()
    }
}

impl HasId for Religion {
    open spec fn spec_id(&self) -> Seq<char> {
        self.id@
    }

    fn record_id(&self) -> (r: &str) {
        self.id.as_str()
    }
}

impl HasId for Economy {
    open spec fn spec_id(&self) -> Seq<char> {
        self.id@
    }

    fn record_id(&self) -> (r: &str) {
        self.id.as_str()
    }
}

impl HasId for PlotLine {
    open spec fn spec_id(&self) -> Seq<char> {
        self.id@
    }

    fn record_id(&self) -> (r: &str) {
        self.id.as_str()
    }
}

impl HasId for Conflict {
    open spec fn spec_id(&self) -> Seq<char> {
        self.id@
    }

    fn record_id(&self) -> (r: &str) {
        self.id.as_str()
    }
}

impl HasId for Theme {
    open spec fn spec_id(&self) -> Seq<char> {
        self.id@
    }

    fn record_id(&self) -> (r: &str) {
        self.id.as_str()
    }
}

impl HasId for Motif {
    open spec fn spec_id(&self) -> Seq<char> {
        self.id@
    }

    fn record_id(&self) -> (r: &str) {
        self.id.as_str()
    }
}

impl HasId for SystemOverlay {
    open spec fn spec_id(&self) -> Seq<char> {
        self.id@
    }

    fn record_id(&self) -> (r: &str) {
        self.id.as_str()
    }
}

impl HasId for NarrativePromise {
    open spec fn spec_id(&self) -> Seq<char> {
        self.id@
    }

    fn record_id(&self) -> (r: &str) {
        self.id.as_str()
    }
}

impl HasId for CharacterArc {
    open spec fn spec_id(&self) -> Seq<char> {
        self.id@
    }

    fn record_id(&self) -> (r: &str) {
        self.id.as_str()
    }
}

impl HasId for Term {
    open spec fn spec_id(&self) -> Seq<char> {
        self.id@
    }

    fn record_id(&self) -> (r: &str) {
        self.id.as_str()
    }
}

impl HasId for TimelineEvent {
    open spec fn spec_id(&self) -> Seq<char> {
        self.id@
    }

    fn record_id(&self) -> (r: &str) {
        self.id.as_str()
    }
}

impl HasId for Scene {
    open spec fn spec_id(&self) -> Seq<char> {
        self.id@
    }

    fn record_id(&self) -> (r: &str) {
        self.id.as_str()
    }
}

impl HasId for Chapter {
    open spec fn spec_id(&self) -> Seq<char> {
        self.id@
    }

    fn record_id(&self) -> (r: &str) {
        self.id.as_str()
    }
}

impl HasId for Book {
    open spec fn spec_id(&self) -> Seq<char> {
        self.id@
    }

    fn record_id(&self) -> (r: &str) {
        self.id.as_str()
    }
}


/// Every row a snapshot may read, for one project and branch.
pub struct SnapshotBatchContext {
    pub project: Project,
    pub books: Vec<Book>,
    pub chapters: Vec<Chapter>,
    pub world_rules: Vec<WorldRule>,
    pub characters: Vec<Character>,
    pub locations: Vec<Location>,
    pub factions: Vec<Faction>,
    pub religions: Vec<Religion>,
    pub economies: Vec<Economy>,
    pub plot_lines: Vec<PlotLine>,
    pub conflicts: Vec<Conflict>,
    pub themes: Vec<Theme>,
    pub motifs: Vec<Motif>,
    pub overlays: Vec<SystemOverlay>,
    pub promises: Vec<NarrativePromise>,
    pub arcs: Vec<CharacterArc>,
    pub terms: Vec<Term>,
    pub relationships: Vec<RelatesTo>,
    pub events: Vec<TimelineEvent>,
    pub scenes: Vec<Scene>,
    pub character_states: Vec<CharacterState>,
    pub voice_profiles: Vec<CharacterVoiceProfile>,
    pub world_states: Vec<WorldState>,
    pub knowledge_facts: Vec<KnowledgeFact>,
}

/// Why a snapshot could not be assembled.
#[derive(Debug)]
pub enum SnapshotError {
    /// "subject id missing"
    SubjectIdMissing,
    /// A malformed or unsupported id.
    Id(IdError),
    /// "record not found in batch: {id}"
    RecordNotFound { id: String },
    /// "relationship not found in batch: {id}"
    RelationshipNotFound { id: String },
    /// "unsupported subject table for batch display name: {table}"
    UnsupportedDisplayTable { table: String },
    /// "project snapshots are handled separately"
    ProjectHandledSeparately,
}

/// The first row with the given id, scanning from `i`.
pub open spec fn first_with_id<T: HasId>(values: Seq<T>, id: Seq<char>, i: int) -> Option<int>
    decreases values.len() - i,
{
    if i < 0 || i >= values.len() {
        None
    } else if values[i].spec_id() == id {
        Some(i)
    } else {
        first_with_id(values, id, i + 1)
    }
}

/// The position of the row with the given id.
pub fn find_by_id<T: HasId>(values: &Vec<T>, id: &str) -> (r: Result<usize, SnapshotError>)
    ensures
        match r {
            Ok(k) => first_with_id(values@, id@, 0) == Some(k as int) && k < values@.len(),
            Err(SnapshotError::RecordNotFound { id: s }) => first_with_id(values@, id@, 0) is None
                && s@ == id@,
            Err(_) => false,
        },
{
    let mut i: usize = 0;
    while i < values.len()
        invariant
            i <= values.len(),
            first_with_id(values@, id@, 0) == first_with_id(values@, id@, i as int),
        decreases values.len() - i,
    {
        if str_eq(values[i].record_id(), id) {
            return Ok(i);
        }
        i = i + 1;
    }
    Err(SnapshotError::RecordNotFound { id: to_owned_string(id) })
}

/// The ways naming a subject can fail.
pub enum NameFailure {
    MissingPrefix,
    NotFound,
    NotRelationshipId,
    RelationshipNotFound,
    Unsupported,
}

pub open spec fn name_failure(e: SnapshotError) -> Option<NameFailure> {
    match e {
        SnapshotError::Id(IdError::MissingTablePrefix { .. }) => Some(NameFailure::MissingPrefix),
        SnapshotError::RecordNotFound { .. } => Some(NameFailure::NotFound),
        SnapshotError::Id(IdError::NotRelationshipId { .. }) => Some(NameFailure::NotRelationshipId),
        SnapshotError::RelationshipNotFound { .. } => Some(NameFailure::RelationshipNotFound),
        SnapshotError::UnsupportedDisplayTable { .. } => Some(NameFailure::Unsupported),
        _ => None,
    }
}

/// The first relationship edge `a -> b`, scanning from `i`.
pub open spec fn first_edge(rels: Seq<RelatesTo>, a: Seq<char>, b: Seq<char>, i: int) -> Option<int>
    decreases rels.len() - i,
{
    if i < 0 || i >= rels.len() {
        None
    } else if rels[i].in_id@ == a && rels[i].out_id@ == b {
        Some(i)
    } else {
        first_edge(rels, a, b, i + 1)
    }
}

fn find_edge(rels: &Vec<RelatesTo>, a: &str, b: &str) -> (r: Option<usize>)
    ensures
        match r {
            Some(k) => first_edge(rels@, a@, b@, 0) == Some(k as int) && k < rels@.len(),
            None => first_edge(rels@, a@, b@, 0) is None,
        },
{
    let mut i: usize = 0;
    while i < rels.len()
        invariant
            i <= rels.len(),
            first_edge(rels@, a@, b@, 0) == first_edge(rels@, a@, b@, i as int),
        decreases rels.len() - i,
    {
        if str_eq(rels[i].in_id.as_str(), a) && str_eq(rels[i].out_id.as_str(), b) {
            return Some(i);
        }
        i = i + 1;
    }
    None
}

/// "Scene {book}.{chapter}.{order}"
pub open spec fn scene_label(book: i32, chapter: i32, order: i32) -> Seq<char> {
    "Scene "@ + int_decimal(book as int) + "."@ + int_decimal(chapter as int) + "."@ + int_decimal(
        order as int,
    )
}

pub fn scene_label_text(book: i32, chapter: i32, order: i32) -> (r: String)
    ensures
        r@ == scene_label(book, chapter, order),
{
    let mut s = to_owned_string("Scene ");
    push_i64_decimal(&mut s, book as i64);
    s.append(".");
    push_i64_decimal(&mut s, chapter as i64);
    s.append(".");
    push_i64_decimal(&mut s, order as i64);
    s
}

/// A chapter's title, or "Chapter {n}" when it has none.
pub open spec fn chapter_label(title: Option<String>, n: i32) -> Seq<char> {
    match title {
        Some(t) => t@,
        None => "Chapter "@ + int_decimal(n as int),
    }
}

fn chapter_label_text(title: &Option<String>, n: i32) -> (r: String)
    ensures
        r@ == chapter_label(*title, n),
{
    match title {
        Some(t) => t.clone(),
        None => {
            let mut s = to_owned_string("Chapter ");
            push_i64_decimal(&mut s, n as i64);
            s
        },
    }
}

/// A book's title, or "Book {n}" when it has none.
pub open spec fn book_label(title: Option<String>, n: i32) -> Seq<char> {
    match title {
        Some(t) => t@,
        None => "Book "@ + int_decimal(n as int),
    }
}

fn book_label_text(title: &Option<String>, n: i32) -> (r: String)
    ensures
        r@ == book_label(*title, n),
{
    match title {
        Some(t) => t.clone(),
        None => {
            let mut s = to_owned_string("Book ");
            push_i64_decimal(&mut s, n as i64);
            s
        },
    }
}

/// The name a subject is shown under, read from its id: the table prefix
/// picks the rows and the column that names them; a relationship
/// `"<in_id>|<out_id>"` is shown as "source -> target".
pub open spec fn spec_display_name(batch: SnapshotBatchContext, id: Seq<char>) -> Result<
    Seq<char>,
    NameFailure,
>
    decreases id.len(),
{
    let prefix = split_left(id, ':');
    if spec_split_once(id, ':') is None {
        Err(NameFailure::MissingPrefix)
    } else if prefix == "world_rule"@ {
        match first_with_id(batch.world_rules@, id, 0) {
            Some(k) => Ok(batch.world_rules@[k].rule_name@),
            None => Err(NameFailure::NotFound),
        }
    } else if prefix == "character"@ {
        match first_with_id(batch.characters@, id, 0) {
            Some(k) => Ok(batch.characters@[k].name@),
            None => Err(NameFailure::NotFound),
        }
    } else if prefix == "location"@ {
        match first_with_id(batch.locations@, id, 0) {
            Some(k) => Ok(batch.locations@[k].name@),
            None => Err(NameFailure::NotFound),
        }
    } else if prefix == "faction"@ {
        match first_with_id(batch.factions@, id, 0) {
            Some(k) => Ok(batch.factions@[k].name@),
            None => Err(NameFailure::NotFound),
        }
    } else if prefix == "religion"@ {
        match first_with_id(batch.religions@, id, 0) {
            Some(k) => Ok(batch.religions@[k].name@),
            None => Err(NameFailure::NotFound),
        }
    } else if prefix == "economy"@ {
        match first_with_id(batch.economies@, id, 0) {
            Some(k) => Ok(batch.economies@[k].name@),
            None => Err(NameFailure::NotFound),
        }
    } else if prefix == "plot_line"@ {
        match first_with_id(batch.plot_lines@, id, 0) {
            Some(k) => Ok(batch.plot_lines@[k].name@),
            None => Err(NameFailure::NotFound),
        }
    } else if prefix == "conflict"@ {
        match first_with_id(batch.conflicts@, id, 0) {
            Some(k) => Ok(batch.conflicts@[k].name@),
            None => Err(NameFailure::NotFound),
        }
    } else if prefix == "theme"@ {
        match first_with_id(batch.themes@, id, 0) {
            Some(k) => Ok(batch.themes@[k].theme_statement@),
            None => Err(NameFailure::NotFound),
        }
    } else if prefix == "motif"@ {
        match first_with_id(batch.motifs@, id, 0) {
            Some(k) => Ok(batch.motifs@[k].name@),
            None => Err(NameFailure::NotFound),
        }
    } else if prefix == "system_overlay"@ {
        match first_with_id(batch.overlays@, id, 0) {
            Some(k) => Ok(batch.overlays@[k].system_name@),
            None => Err(NameFailure::NotFound),
        }
    } else if prefix == "narrative_promise"@ {
        match first_with_id(batch.promises@, id, 0) {
            Some(k) => Ok(batch.promises@[k].description@),
            None => Err(NameFailure::NotFound),
        }
    } else if prefix == "character_arc"@ {
        match first_with_id(batch.arcs@, id, 0) {
            Some(k) => Ok(batch.arcs@[k].arc_type@),
            None => Err(NameFailure::NotFound),
        }
    } else if prefix == "term"@ {
        match first_with_id(batch.terms@, id, 0) {
            Some(k) => Ok(batch.terms@[k].term_text@),
            None => Err(NameFailure::NotFound),
        }
    } else if prefix == "timeline_event"@ {
        match first_with_id(batch.events@, id, 0) {
            Some(k) => Ok(batch.events@[k].title@),
            None => Err(NameFailure::NotFound),
        }
    } else if prefix == "scene"@ {
        match first_with_id(batch.scenes@, id, 0) {
            Some(k) => Ok(
                scene_label(
                    batch.scenes@[k].book_number,
                    batch.scenes@[k].chapter_number,
                    batch.scenes@[k].scene_order,
                ),
            ),
            None => Err(NameFailure::NotFound),
        }
    } else if prefix == "chapter"@ {
        match first_with_id(batch.chapters@, id, 0) {
            Some(k) => Ok(chapter_label(batch.chapters@[k].title, batch.chapters@[k].chapter_number)),
            None => Err(NameFailure::NotFound),
        }
    } else if prefix == "book"@ {
        match first_with_id(batch.books@, id, 0) {
            Some(k) => Ok(book_label(batch.books@[k].title, batch.books@[k].book_number)),
            None => Err(NameFailure::NotFound),
        }
    } else if prefix == "relationship"@ || prefix == "relates_to"@ {
        if spec_split_once(id, '|') is None {
            Err(NameFailure::NotRelationshipId)
        } else {
            let a = split_left(id, '|');
            let b = split_right(id, '|');
            proof {
                lemma_split_lengths(id, '|');
            }
            match first_edge(batch.relationships@, a, b, 0) {
                None => Err(NameFailure::RelationshipNotFound),
                Some(_) => match spec_display_name(batch, a) {
                    Err(e) => Err(e),
                    Ok(x) => match spec_display_name(batch, b) {
                        Err(e) => Err(e),
                        Ok(y) => Ok(x + " -> "@ + y),
                    },
                },
            }
        }
    } else {
        Err(NameFailure::Unsupported)
    }
}

pub fn batch_subject_display_name(batch: &SnapshotBatchContext, id: &str) -> (r: Result<
    String,
    SnapshotError,
>)
    ensures
        match r {
            Ok(s) => spec_display_name(*batch, id@) == Ok::<Seq<char>, NameFailure>(s@),
            Err(e) => name_failure(e) is Some && spec_display_name(*batch, id@) == Err::<
                Seq<char>,
                NameFailure,
            >(name_failure(e)->0),
        },
    decreases id@.len(),
{
    let prefix = match split_once(id, ':') {
        Some((p, _)) => p,
        None => {
            return Err(SnapshotError::Id(IdError::MissingTablePrefix { id: to_owned_string(id) }));
        },
    };
    if str_eq(prefix, "world_rule") {
        let k = find_by_id(&batch.world_rules, id)?;
        Ok(batch.world_rules[k].rule_name.clone())
    } else if str_eq(prefix, "character") {
        let k = find_by_id(&batch.characters, id)?;
        Ok(batch.characters[k].name.clone())
    } else if str_eq(prefix, "location") {
        let k = find_by_id(&batch.locations, id)?;
        Ok(batch.locations[k].name.clone())
    } else if str_eq(prefix, "faction") {
        let k = find_by_id(&batch.factions, id)?;
        Ok(batch.factions[k].name.clone())
    } else if str_eq(prefix, "religion") {
        let k = find_by_id(&batch.religions, id)?;
        Ok(batch.religions[k].name.clone())
    } else if str_eq(prefix, "economy") {
        let k = find_by_id(&batch.economies, id)?;
        Ok(batch.economies[k].name.clone())
    } else if str_eq(prefix, "plot_line") {
        let k = find_by_id(&batch.plot_lines, id)?;
        Ok(batch.plot_lines[k].name.clone())
    } else if str_eq(prefix, "conflict") {
        let k = find_by_id(&batch.conflicts, id)?;
        Ok(batch.conflicts[k].name.clone())
    } else if str_eq(prefix, "theme") {
        let k = find_by_id(&batch.themes, id)?;
        Ok(batch.themes[k].theme_statement.clone())
    } else if str_eq(prefix, "motif") {
        let k = find_by_id(&batch.motifs, id)?;
        Ok(batch.motifs[k].name.clone())
    } else if str_eq(prefix, "system_overlay") {
        let k = find_by_id(&batch.overlays, id)?;
        Ok(batch.overlays[k].system_name.clone())
    } else if str_eq(prefix, "narrative_promise") {
        let k = find_by_id(&batch.promises, id)?;
        Ok(batch.promises[k].description.clone())
    } else if str_eq(prefix, "character_arc") {
        let k = find_by_id(&batch.arcs, id)?;
        Ok(batch.arcs[k].arc_type.clone())
    } else if str_eq(prefix, "term") {
        let k = find_by_id(&batch.terms, id)?;
        Ok(batch.terms[k].term_text.clone())
    } else if str_eq(prefix, "timeline_event") {
        let k = find_by_id(&batch.events, id)?;
        Ok(batch.events[k].title.clone())
    } else if str_eq(prefix, "scene") {
        let k = find_by_id(&batch.scenes, id)?;
        let s = &batch.scenes[k];
        Ok(scene_label_text(s.book_number, s.chapter_number, s.scene_order))
    } else if str_eq(prefix, "chapter") {
        let k = find_by_id(&batch.chapters, id)?;
        let c = &batch.chapters[k];
        Ok(chapter_label_text(&c.title, c.chapter_number))
    } else if str_eq(prefix, "book") {
        let k = find_by_id(&batch.books, id)?;
        let b = &batch.books[k];
        Ok(book_label_text(&b.title, b.book_number))
    } else if str_eq(prefix, "relationship") || str_eq(prefix, "relates_to") {
        let (a, b) = match split_once(id, '|') {
            Some(parts) => parts,
            None => {
                return Err(SnapshotError::Id(IdError::NotRelationshipId { id: to_owned_string(id) }));
            },
        };
        match find_edge(&batch.relationships, a, b) {
            None => Err(SnapshotError::RelationshipNotFound { id: to_owned_string(id) }),
            Some(_) => {
                let x = batch_subject_display_name(batch, a)?;
                let y = batch_subject_display_name(batch, b)?;
                let mut s = x;
                s.append(" -> ");
                s.append(y.as_str());
                Ok(s)
            },
        }
    } else {
        Err(SnapshotError::UnsupportedDisplayTable { table: to_owned_string(prefix) })
    }
}

// ---------------------------------------------------------------------------
// Provenance and subjects
// ---------------------------------------------------------------------------

/// Where a statement in a snapshot comes from.
pub enum Provenance {
    /// Entered by the author, last at this time.
    AssertedByAuthor { at: Timestamp },
    /// Established in a scene.
    Scene { scene_id: String },
    /// Established in a chapter.
    Chapter { chapter_id: String },
    /// Established in a book.
    Book { book_id: String },
}

pub open spec fn is_scene_provenance(p: Provenance, id: Seq<char>) -> bool {
    match p {
        Provenance::Scene { scene_id } => scene_id@ == id,
        _ => false,
    }
}

pub fn scene_provenance(id: &str) -> (r: Provenance)
    ensures
        is_scene_provenance(r, id@),
{
    Provenance::Scene { scene_id: to_owned_string(id) }
}

/// A placement with a scene order points at that scene
/// (`"scene:{book}:{chapter}:{order}"`), one without at the chapter
/// (`"chapter:{book}:{chapter}"`).
pub open spec fn is_placement_provenance(r: Provenance, p: StoryPlacement) -> bool {
    match p.scene_order {
        Some(o) => is_scene_provenance(
            r,
            "scene:"@ + int_decimal(p.book_number as int) + ":"@ + int_decimal(
                p.chapter_number as int,
            ) + ":"@ + int_decimal(o as int),
        ),
        None => match r {
            Provenance::Chapter { chapter_id } => chapter_id@ == "chapter:"@ + int_decimal(
                p.book_number as int,
            ) + ":"@ + int_decimal(p.chapter_number as int),
            _ => false,
        },
    }
}

pub fn placement_provenance(p: &StoryPlacement) -> (r: Provenance)
    ensures
        is_placement_provenance(r, *p),
{
    match p.scene_order {
        Some(o) => {
            let mut s = to_owned_string("scene:");
            push_i64_decimal(&mut s, p.book_number as i64);
            s.append(":");
            push_i64_decimal(&mut s, p.chapter_number as i64);
            s.append(":");
            push_i64_decimal(&mut s, o as i64);
            Provenance::Scene { scene_id: s }
        },
        None => {
            let mut s = to_owned_string("chapter:");
            push_i64_decimal(&mut s, p.book_number as i64);
            s.append(":");
            push_i64_decimal(&mut s, p.chapter_number as i64);
            Provenance::Chapter { chapter_id: s }
        },
    }
}

/// What a snapshot is taken of: a row of a table, or (with no id) the
/// project as a whole.
pub struct Subject {
    pub table: SubjectTable,
    pub id: Option<String>,
}

pub open spec fn is_project_wide(s: Subject) -> bool {
    s.table == SubjectTable::Project && s.id is None
}

/// A subject named by another: its table, id and display name.
pub struct SubjectLinkSummary {
    pub table: SubjectTable,
    pub id: String,
    pub display_name: String,
}

pub fn batch_subject_link_summary(batch: &SnapshotBatchContext, id: &str) -> (r: Result<
    SubjectLinkSummary,
    SnapshotError,
>)
    ensures
        match r {
            Ok(l) => {
                &&& spec_split_once(id@, ':') is Some
                &&& spec_table_for_prefix(split_left(id@, ':')) == Some(l.table)
                &&& l.id@ == id@
                &&& spec_display_name(*batch, id@) == Ok::<Seq<char>, NameFailure>(l.display_name@)
            },
            Err(e) => if spec_split_once(id@, ':') is None {
                e matches SnapshotError::Id(IdError::MissingTablePrefix { id: i }) && i@ == id@
            } else if spec_table_for_prefix(split_left(id@, ':')) is None {
                e matches SnapshotError::Id(IdError::UnsupportedSubjectTable { table })
                    && table@ == split_left(id@, ':')
            } else {
                name_failure(e) is Some && spec_display_name(*batch, id@) == Err::<
                    Seq<char>,
                    NameFailure,
                >(name_failure(e)->0)
            },
        },
{
    let table = match subject_table_from_id(id) {
        Ok(t) => t,
        Err(e) => {
            return Err(SnapshotError::Id(e));
        },
    };
    let display_name = batch_subject_display_name(batch, id)?;
    Ok(SubjectLinkSummary { table, id: to_owned_string(id), display_name })
}

// ---------------------------------------------------------------------------
// Relationships
// ---------------------------------------------------------------------------

pub struct RelationshipSummary {
    pub relationship_type: String,
    pub counterpart: Option<String>,
    pub summary: String,
    pub trust: Option<i32>,
    pub tension: Option<i32>,
    pub provenance: Provenance,
}

/// A relationship reads as its reason, or else as its dynamics joined by
/// ", ".
pub open spec fn relationship_summary_text(rel: RelatesTo) -> Seq<char> {
    match rel.reason {
        Some(r) => r@,
        None => spec_join(views(rel.dynamics@), ", "@),
    }
}

fn relationship_summary_string(rel: &RelatesTo) -> (r: String)
    ensures
        r@ == relationship_summary_text(*rel),
{
    match &rel.reason {
        Some(x) => x.clone(),
        None => join_strings(&rel.dynamics, ", "),
    }
}

/// A relationship's provenance: the scene that last changed it, else the
/// author's last edit.
pub open spec fn is_relationship_provenance(p: Provenance, rel: RelatesTo) -> bool {
    match rel.last_scene_id {
        Some(s) => is_scene_provenance(p, s@),
        None => p == Provenance::AssertedByAuthor { at: rel.updated_at },
    }
}

fn relationship_provenance(rel: &RelatesTo) -> (r: Provenance)
    ensures
        is_relationship_provenance(r, *rel),
{
    match &rel.last_scene_id {
        Some(s) => scene_provenance(s.as_str()),
        None => Provenance::AssertedByAuthor { at: rel.updated_at },
    }
}

pub open spec fn touches(rel: RelatesTo, id: Seq<char>) -> bool {
    rel.in_id@ == id || rel.out_id@ == id
}

/// The other end of an edge that touches `id`.
pub open spec fn counterpart_of(rel: RelatesTo, id: Seq<char>) -> Seq<char> {
    if rel.in_id@ == id {
        rel.out_id@
    } else {
        rel.in_id@
    }
}

/// The edges touching a character, in stored order.
pub open spec fn edges_of(rels: Seq<RelatesTo>, id: Seq<char>) -> Seq<RelatesTo>
    decreases rels.len(),
{
    if rels.len() == 0 {
        Seq::empty()
    } else {
        let rest = edges_of(rels.drop_last(), id);
        if touches(rels.last(), id) {
            rest.push(rels.last())
        } else {
            rest
        }
    }
}

pub open spec fn relationship_summary_of(
    batch: SnapshotBatchContext,
    s: RelationshipSummary,
    rel: RelatesTo,
    id: Seq<char>,
) -> bool {
    &&& s.relationship_type == rel.relationship_type
    &&& s.counterpart is Some
    &&& spec_display_name(batch, counterpart_of(rel, id)) == Ok::<Seq<char>, NameFailure>(
        s.counterpart->0@,
    )
    &&& s.summary@ == relationship_summary_text(rel)
    &&& s.trust == Some(rel.trust)
    &&& s.tension == Some(rel.tension)
    &&& is_relationship_provenance(s.provenance, rel)
}

/// The relationships of a character subject, each with the counterpart's
/// name; other subjects have none.
pub fn batch_relationship_summaries(batch: &SnapshotBatchContext, subject: &Subject) -> (r: Result<
    Vec<RelationshipSummary>,
    SnapshotError,
>)
    ensures
        subject.table != SubjectTable::Character ==> (r matches Ok(v) && v@.len() == 0),
        subject.table == SubjectTable::Character && subject.id is None ==> (r matches Err(
            SnapshotError::SubjectIdMissing,
        )),
        subject.table == SubjectTable::Character && subject.id is Some ==> {
            let id = subject.id->0@;
            let edges = edges_of(batch.relationships@, id);
            match r {
                Ok(v) => v@.len() == edges.len() && forall|i: int|
                    0 <= i < edges.len() ==> relationship_summary_of(
                        *batch,
                        #[trigger] v@[i],
                        edges[i],
                        id,
                    ),
                Err(e) => exists|k: int|
                    #![trigger edges[k]]
                    {
                        &&& 0 <= k < edges.len()
                        &&& name_failure(e) is Some
                        &&& spec_display_name(*batch, counterpart_of(edges[k], id)) == Err::<
                            Seq<char>,
                            NameFailure,
                        >(name_failure(e)->0)
                        &&& forall|j: int|
                            0 <= j < k ==> spec_display_name(
                                *batch,
                                counterpart_of(#[trigger] edges[j], id),
                            ) is Ok
                    },
            }
        },
{
    if subject.table != SubjectTable::Character {
        return Ok(Vec::new());
    }
    let cid: &str = match &subject.id {
        Some(i) => i.as_str(),
        None => {
            return Err(SnapshotError::SubjectIdMissing);
        },
    };
    let rels = &batch.relationships;
    let mut out: Vec<RelationshipSummary> = Vec::new();
    let mut i: usize = 0;
    while i < rels.len()
        invariant
            i <= rels.len(),
            rels == &batch.relationships,
            subject.table == SubjectTable::Character,
            subject.id is Some,
            cid@ == subject.id->0@,
            out@.len() == edges_of(rels@.take(i as int), cid@).len(),
            forall|j: int|
                0 <= j < out@.len() ==> relationship_summary_of(
                    *batch,
                    #[trigger] out@[j],
                    edges_of(rels@.take(i as int), cid@)[j],
                    cid@,
                ),
        decreases rels.len() - i,
    {
        assert(rels@.take(i + 1).drop_last() =~= rels@.take(i as int));
        let rel = &rels[i];
        let is_in = str_eq(rel.in_id.as_str(), cid);
        if is_in || str_eq(rel.out_id.as_str(), cid) {
            let other: &str = if is_in {
                rel.out_id.as_str()
            } else {
                rel.in_id.as_str()
            };
            let name = match batch_subject_display_name(batch, other) {
                Ok(n) => n,
                Err(e) => {
                    proof {
                        lemma_edges_prefix(rels@, cid@, i as int + 1);
                        let pre = edges_of(rels@.take(i + 1), cid@);
                        assert(rels@.take(i + 1).last() == *rel);
                        let k = pre.len() - 1;
                        assert(pre[k] == *rel);
                        assert(edges_of(rels@, cid@)[k] == *rel);
                        assert(counterpart_of(*rel, cid@) == other@);
                        lemma_edges_prefix(rels@, cid@, i as int);
                        assert forall|j: int| 0 <= j < k implies spec_display_name(
                            *batch,
                            counterpart_of(#[trigger] edges_of(rels@, cid@)[j], cid@),
                        ) is Ok by {
                            assert(edges_of(rels@.take(i as int), cid@)[j] == edges_of(rels@, cid@)[j]);
                            assert(relationship_summary_of(*batch, out@[j], edges_of(rels@.take(i as int), cid@)[j], cid@));
                        }
                    }
                    return Err(e);
                },
            };
            out.push(
                RelationshipSummary {
                    relationship_type: rel.relationship_type.clone(),
                    counterpart: Some(name),
                    summary: relationship_summary_string(rel),
                    trust: Some(rel.trust),
                    tension: Some(rel.tension),
                    provenance: relationship_provenance(rel),
                },
            );
        }
        i = i + 1;
    }
    assert(rels@.take(rels@.len() as int) =~= rels@);
    Ok(out)
}

/// The edges of a prefix are a prefix of the edges.
proof fn lemma_edges_prefix(rels: Seq<RelatesTo>, id: Seq<char>, n: int)
    requires
        0 <= n <= rels.len(),
    ensures
        edges_of(rels.take(n), id).len() <= edges_of(rels, id).len(),
        forall|j: int|
            0 <= j < edges_of(rels.take(n), id).len() ==> edges_of(rels.take(n), id)[j]
                == edges_of(rels, id)[j],
    decreases rels.len() - n,
{
    if n < rels.len() {
        lemma_edges_prefix(rels, id, n + 1);
        assert(rels.take(n + 1).drop_last() =~= rels.take(n));
    } else {
        assert(rels.take(n) =~= rels);
    }
}

// ---------------------------------------------------------------------------
// Character state, voice and arcs
// ---------------------------------------------------------------------------

pub struct CharacterStateSummary {
    pub emotional_state: Option<String>,
    pub goals: Vec<String>,
    pub status: Vec<String>,
    pub notes: Vec<String>,
    pub source_summary: Option<String>,
    pub provenance: Provenance,
}

pub open spec fn state_key(s: CharacterState) -> (i32, i32, i32) {
    (s.book_number, s.chapter_number, s.scene_order)
}

pub open spec fn state_candidate(s: CharacterState, id: Seq<char>, placement: StoryPlacement) -> bool {
    s.character_id@ == id && spec_position_at_or_before(
        s.book_number,
        s.chapter_number,
        s.scene_order,
        placement,
    )
}

/// The character's latest state at or before the placement among the first
/// `n` states; of equally late states the last listed wins.
pub open spec fn latest_state(
    states: Seq<CharacterState>,
    id: Seq<char>,
    placement: StoryPlacement,
    n: int,
) -> Option<int>
    decreases n,
{
    if n <= 0 {
        None
    } else {
        let best = latest_state(states, id, placement, n - 1);
        if state_candidate(states[n - 1], id, placement) && (match best {
            None => true,
            Some(b) => key_le(state_key(states[b]), state_key(states[n - 1])),
        }) {
            Some(n - 1)
        } else {
            best
        }
    }
}

proof fn lemma_latest_state_range(
    states: Seq<CharacterState>,
    id: Seq<char>,
    placement: StoryPlacement,
    n: int,
)
    ensures
        latest_state(states, id, placement, n) matches Some(k) ==> 0 <= k < n,
    decreases n,
{
    if n > 0 {
        lemma_latest_state_range(states, id, placement, n - 1);
    }
}

pub open spec fn state_summary_of(s: CharacterStateSummary, st: CharacterState) -> bool {
    &&& s.emotional_state == st.emotional_state
    &&& s.goals@ == st.goals@
    &&& s.status@ == st.status@
    &&& s.notes@ == st.notes@
    &&& s.source_summary == st.source_summary
    &&& match st.scene_id {
        Some(sid) => is_scene_provenance(s.provenance, sid@),
        None => s.provenance == Provenance::AssertedByAuthor { at: st.created_at },
    }
}

/// A character's current state as of the placement.
pub fn batch_character_state_summary(
    batch: &SnapshotBatchContext,
    subject: &Subject,
    placement: &StoryPlacement,
) -> (r: Result<Option<CharacterStateSummary>, SnapshotError>)
    ensures
        subject.table != SubjectTable::Character ==> (r matches Ok(None)),
        subject.table == SubjectTable::Character && subject.id is None ==> (r matches Err(
            SnapshotError::SubjectIdMissing,
        )),
        subject.table == SubjectTable::Character && subject.id is Some ==> {
            let states = batch.character_states@;
            match latest_state(states, subject.id->0@, *placement, states.len() as int) {
                None => r matches Ok(None),
                Some(k) => r matches Ok(Some(s)) && state_summary_of(s, states[k]),
            }
        },
{
    if subject.table != SubjectTable::Character {
        return Ok(None);
    }
    let cid: &str = match &subject.id {
        Some(i) => i.as_str(),
        None => {
            return Err(SnapshotError::SubjectIdMissing);
        },
    };
    let states = &batch.character_states;
    let mut best: Option<usize> = None;
    let mut i: usize = 0;
    while i < states.len()
        invariant
            i <= states.len(),
            subject.table == SubjectTable::Character,
            subject.id is Some,
            cid@ == subject.id->0@,
            match best {
                Some(b) => latest_state(states@, cid@, *placement, i as int) == Some(b as int) && b
                    < i,
                None => latest_state(states@, cid@, *placement, i as int) is None,
            },
        decreases states.len() - i,
    {
        proof {
            lemma_latest_state_range(states@, cid@, *placement, i as int);
        }
        let st = &states[i];
        if str_eq(st.character_id.as_str(), cid) && position_at_or_before(
            st.book_number,
            st.chapter_number,
            st.scene_order,
            placement,
        ) {
            let later = match best {
                None => true,
                Some(b) => key_less_eq(
                    (states[b].book_number, states[b].chapter_number, states[b].scene_order),
                    (st.book_number, st.chapter_number, st.scene_order),
                ),
            };
            if later {
                best = Some(i);
            }
        }
        i = i + 1;
    }
    match best {
        None => Ok(None),
        Some(b) => {
            let st = &states[b];
            let provenance = match &st.scene_id {
                Some(sid) => scene_provenance(sid.as_str()),
                None => Provenance::AssertedByAuthor { at: st.created_at },
            };
            Ok(
                Some(
                    CharacterStateSummary {
                        emotional_state: clone_opt_string(&st.emotional_state),
                        goals: clone_strings(&st.goals),
                        status: clone_strings(&st.status),
                        notes: clone_strings(&st.notes),
                        source_summary: clone_opt_string(&st.source_summary),
                        provenance,
                    },
                ),
            )
        },
    }
}

pub struct VoiceProfileSummary {
    pub tone: Option<String>,
    pub vocabulary: Vec<String>,
    pub sentence_structure: Option<String>,
    pub tics: Vec<String>,
    pub forbidden_words: Vec<String>,
    pub example_lines: Vec<String>,
    pub established_in_scene_id: Option<String>,
    pub updated_at: Option<String>,
    pub provenance: Provenance,
}

/// The first voice profile of a character.
pub open spec fn first_profile(ps: Seq<CharacterVoiceProfile>, id: Seq<char>, i: int) -> Option<int>
    decreases ps.len() - i,
{
    if i < 0 || i >= ps.len() {
        None
    } else if ps[i].character_id@ == id {
        Some(i)
    } else {
        first_profile(ps, id, i + 1)
    }
}

/// A profile was last observed at its last update, else at its creation.
pub open spec fn observed_at(p: CharacterVoiceProfile) -> Timestamp {
    match p.updated_at {
        Some(t) => t,
        None => p.created_at,
    }
}

pub open spec fn voice_summary_of(s: VoiceProfileSummary, p: CharacterVoiceProfile) -> bool {
    &&& s.tone == p.tone
    &&& s.vocabulary@ == p.vocabulary@
    &&& s.sentence_structure == p.sentence_structure
    &&& s.tics@ == p.tics@
    &&& s.forbidden_words@ == p.forbidden_words@
    &&& s.example_lines@ == p.example_lines@
    &&& s.established_in_scene_id == p.established_in_scene_id
    &&& match s.updated_at {
        Some(t) => t@ == rfc3339_text_of(observed_at(p).micros as int),
        None => !utc_representable_micros(observed_at(p).micros as int),
    }
    &&& s.provenance == Provenance::AssertedByAuthor { at: observed_at(p) }
}

/// A character's voice profile, if one is stored.
pub fn batch_voice_profile_summary(batch: &SnapshotBatchContext, subject: &Subject) -> (r: Result<
    Option<VoiceProfileSummary>,
    SnapshotError,
>)
    ensures
        subject.table != SubjectTable::Character ==> (r matches Ok(None)),
        subject.table == SubjectTable::Character && subject.id is None ==> (r matches Err(
            SnapshotError::SubjectIdMissing,
        )),
        subject.table == SubjectTable::Character && subject.id is Some ==> {
            let ps = batch.voice_profiles@;
            match first_profile(ps, subject.id->0@, 0) {
                None => r matches Ok(None),
                Some(k) => r matches Ok(Some(s)) && voice_summary_of(s, ps[k]),
            }
        },
{
    if subject.table != SubjectTable::Character {
        return Ok(None);
    }
    let cid: &str = match &subject.id {
        Some(i) => i.as_str(),
        None => {
            return Err(SnapshotError::SubjectIdMissing);
        },
    };
    let ps = &batch.voice_profiles;
    let mut i: usize = 0;
    while i < ps.len()
        invariant
            i <= ps.len(),
            ps == &batch.voice_profiles,
            subject.table == SubjectTable::Character,
            subject.id is Some,
            cid@ == subject.id->0@,
            first_profile(ps@, cid@, 0) == first_profile(ps@, cid@, i as int),
        decreases ps.len() - i,
    {
        let p = &ps[i];
        if str_eq(p.character_id.as_str(), cid) {
            assert(first_profile(ps@, cid@, i as int) == Some(i as int));
            let observed = match p.updated_at {
                Some(t) => t,
                None => p.created_at,
            };
            let summary = VoiceProfileSummary {
                tone: clone_opt_string(&p.tone),
                vocabulary: clone_strings(&p.vocabulary),
                sentence_structure: clone_opt_string(&p.sentence_structure),
                tics: clone_strings(&p.tics),
                forbidden_words: clone_strings(&p.forbidden_words),
                example_lines: clone_strings(&p.example_lines),
                established_in_scene_id: clone_opt_string(&p.established_in_scene_id),
                updated_at: timestamp_rfc3339(observed),
                provenance: Provenance::AssertedByAuthor { at: observed },
            };
            assert(voice_summary_of(summary, *p));
            return Ok(Some(summary));
        }
        i = i + 1;
    }
    Ok(None)
}

pub struct CharacterArcSummary {
    pub arc_type: String,
    pub summary: String,
    pub current_phase: Option<String>,
    pub provenance: Provenance,
}

pub open spec fn milestone_placements(ms: Seq<ArcMilestone>) -> Seq<Option<StoryPlacement>> {
    ms.map_values(|m: ArcMilestone| m.placement)
}

/// A milestone has been reached at the placement when it is unplaced or
/// placed at or before it.
pub open spec fn milestone_reached(m: ArcMilestone, placement: StoryPlacement) -> bool {
    match m.placement {
        Some(p) => spec_at_or_after(placement, p),
        None => true,
    }
}

/// The label of the last reached milestone among the first `n`.
pub open spec fn current_phase(ms: Seq<ArcMilestone>, placement: StoryPlacement, n: int) -> Option<
    Seq<char>,
>
    decreases n,
{
    if n <= 0 {
        None
    } else if milestone_reached(ms[n - 1], placement) {
        Some(ms[n - 1].label@)
    } else {
        current_phase(ms, placement, n - 1)
    }
}

/// An active arc of the character, established by the placement.
pub open spec fn arc_in_play(a: CharacterArc, id: Seq<char>, placement: StoryPlacement) -> bool {
    &&& a.character_id@ == id
    &&& a.status@ == "active"@
    &&& match earliest_key(milestone_placements(a.milestones@)) {
        Some(k) => key_le(k, spec_placement_key(placement)),
        None => true,
    }
}

pub open spec fn arcs_in_play(arcs: Seq<CharacterArc>, id: Seq<char>, placement: StoryPlacement) -> Seq<
    CharacterArc,
>
    decreases arcs.len(),
{
    if arcs.len() == 0 {
        Seq::empty()
    } else {
        let rest = arcs_in_play(arcs.drop_last(), id, placement);
        if arc_in_play(arcs.last(), id, placement) {
            rest.push(arcs.last())
        } else {
            rest
        }
    }
}

pub open spec fn arc_summary_of(s: CharacterArcSummary, a: CharacterArc, placement: StoryPlacement) -> bool {
    &&& s.arc_type == a.arc_type
    &&& s.summary == a.thematic_purpose
    &&& opt_view(s.current_phase) == current_phase(a.milestones@, placement, a.milestones@.len() as int)
    &&& s.provenance == Provenance::AssertedByAuthor { at: a.updated_at }
}

fn arc_established(ms: &Vec<ArcMilestone>, placement: &StoryPlacement) -> (r: bool)
    ensures
        r == match earliest_key(milestone_placements(ms@)) {
            Some(k) => key_le(k, spec_placement_key(*placement)),
            None => true,
        },
{
    let mut best: Option<(i32, i32, i32)> = None;
    let mut i: usize = 0;
    while i < ms.len()
        invariant
            i <= ms.len(),
            best == earliest_key(milestone_placements(ms@.take(i as int))),
        decreases ms.len() - i,
    {
        assert(milestone_placements(ms@.take(i + 1)).drop_last() =~= milestone_placements(
            ms@.take(i as int),
        ));
        assert(milestone_placements(ms@.take(i + 1)).last() == ms@[i as int].placement);
        match &ms[i].placement {
            None => {},
            Some(p) => {
                let k = placement_key(p);
                match best {
                    None => {
                        best = Some(k);
                    },
                    Some(b) => {
                        if !key_less_eq(b, k) {
                            best = Some(k);
                        }
                    },
                }
            },
        }
        i = i + 1;
    }
    assert(ms@.take(ms@.len() as int) =~= ms@);
    match best {
        Some(k) => key_less_eq(k, placement_key(placement)),
        None => true,
    }
}

fn current_phase_of(ms: &Vec<ArcMilestone>, placement: &StoryPlacement) -> (r: Option<String>)
    ensures
        opt_view(r) == current_phase(ms@, *placement, ms@.len() as int),
{
    let mut i: usize = ms.len();
    while i > 0
        invariant
            i <= ms.len(),
            current_phase(ms@, *placement, ms@.len() as int) == current_phase(
                ms@,
                *placement,
                i as int,
            ),
        decreases i,
    {
        let m = &ms[i - 1];
        let reached = match &m.placement {
            Some(p) => placement_at_or_after(placement, p),
            None => true,
        };
        if reached {
            return Some(m.label.clone());
        }
        i = i - 1;
    }
    None
}

/// A character's active arcs at the placement, each with its current phase.
pub fn batch_active_arc_summaries(
    batch: &SnapshotBatchContext,
    subject: &Subject,
    placement: &StoryPlacement,
) -> (r: Result<Vec<CharacterArcSummary>, SnapshotError>)
    ensures
        subject.table != SubjectTable::Character ==> (r matches Ok(v) && v@.len() == 0),
        subject.table == SubjectTable::Character && subject.id is None ==> (r matches Err(
            SnapshotError::SubjectIdMissing,
        )),
        subject.table == SubjectTable::Character && subject.id is Some ==> {
            let shown = arcs_in_play(batch.arcs@, subject.id->0@, *placement);
            r matches Ok(v) && v@.len() == shown.len() && forall|i: int|
                0 <= i < shown.len() ==> arc_summary_of(#[trigger] v@[i], shown[i], *placement)
        },
{
    if subject.table != SubjectTable::Character {
        return Ok(Vec::new());
    }
    let cid: &str = match &subject.id {
        Some(i) => i.as_str(),
        None => {
            return Err(SnapshotError::SubjectIdMissing);
        },
    };
    let arcs = &batch.arcs;
    let mut out: Vec<CharacterArcSummary> = Vec::new();
    let mut i: usize = 0;
    while i < arcs.len()
        invariant
            i <= arcs.len(),
            subject.table == SubjectTable::Character,
            subject.id is Some,
            cid@ == subject.id->0@,
            out@.len() == arcs_in_play(arcs@.take(i as int), cid@, *placement).len(),
            forall|j: int|
                0 <= j < out@.len() ==> arc_summary_of(
                    #[trigger] out@[j],
                    arcs_in_play(arcs@.take(i as int), cid@, *placement)[j],
                    *placement,
                ),
        decreases arcs.len() - i,
    {
        assert(arcs@.take(i + 1).drop_last() =~= arcs@.take(i as int));
        let a = &arcs[i];
        if str_eq(a.character_id.as_str(), cid) && str_eq(a.status.as_str(), "active")
            && arc_established(&a.milestones, placement) {
            out.push(
                CharacterArcSummary {
                    arc_type: a.arc_type.clone(),
                    summary: a.thematic_purpose.clone(),
                    current_phase: current_phase_of(&a.milestones, placement),
                    provenance: Provenance::AssertedByAuthor { at: a.updated_at },
                },
            );
        }
        i = i + 1;
    }
    assert(arcs@.take(arcs@.len() as int) =~= arcs@);
    Ok(out)
}

// ---------------------------------------------------------------------------
// Subjects whose canonical facts are looked up
// ---------------------------------------------------------------------------

/// The `(table, id)` pairs of `subjects` in order, leaving out project-wide
/// subjects (no id) and every pair already listed.
pub open spec fn subject_pairs(subjects: Seq<Subject>) -> Seq<(SubjectTable, Seq<char>)>
    decreases subjects.len(),
{
    if subjects.len() == 0 {
        Seq::empty()
    } else {
        let prev = subject_pairs(subjects.drop_last());
        let s = subjects.last();
        match s.id {
            None => prev,
            Some(id) => if prev.contains((s.table, id@)) {
                prev
            } else {
                prev.push((s.table, id@))
            },
        }
    }
}

/// Every listed pair is distinct, names a subject, and every subject with
/// an id has its pair listed.
pub proof fn lemma_subject_pairs(subjects: Seq<Subject>)
    ensures
        forall|i: int, j: int|
            0 <= i < j < subject_pairs(subjects).len() ==> subject_pairs(subjects)[i]
                != subject_pairs(subjects)[j],
        forall|k: int|
            0 <= k < subjects.len() && (#[trigger] subjects[k]).id is Some ==> subject_pairs(
                subjects,
            ).contains((subjects[k].table, subjects[k].id->0@)),
        forall|i: int|
            #![trigger subject_pairs(subjects)[i]]
            0 <= i < subject_pairs(subjects).len() ==> exists|k: int|
                0 <= k < subjects.len() && (#[trigger] subjects[k]).id is Some && (
                subjects[k].table,
                subjects[k].id->0@,
            ) == subject_pairs(subjects)[i],
    decreases subjects.len(),
{
    if subjects.len() > 0 {
        let rest = subjects.drop_last();
        lemma_subject_pairs(rest);
        let prev = subject_pairs(rest);
        let cur = subject_pairs(subjects);
        assert forall|k: int|
            0 <= k < subjects.len() && (#[trigger] subjects[k]).id is Some implies cur.contains(
            (subjects[k].table, subjects[k].id->0@),
        ) by {
            if k < subjects.len() - 1 {
                assert(rest[k] == subjects[k]);
                let w = choose|m: int| 0 <= m < prev.len() && prev[m] == (rest[k].table, rest[k].id->0@);
                assert(cur[w] == prev[w]);
            } else if !prev.contains((subjects[k].table, subjects[k].id->0@)) {
                assert(cur[prev.len() as int] == (subjects[k].table, subjects[k].id->0@));
            }
        }
        assert forall|i: int| #![trigger cur[i]] 0 <= i < cur.len() implies exists|k: int|
            0 <= k < subjects.len() && (#[trigger] subjects[k]).id is Some && (
            subjects[k].table,
            subjects[k].id->0@,
        ) == cur[i] by {
            if i < prev.len() {
                let k = choose|k: int|
                    0 <= k < rest.len() && (#[trigger] rest[k]).id is Some && (
                    rest[k].table,
                    rest[k].id->0@,
                ) == prev[i];
                assert(subjects[k] == rest[k]);
            } else {
                assert(subjects[subjects.len() - 1] == subjects.last());
            }
        }
    }
}

pub open spec fn pair_views(v: Seq<(SubjectTable, String)>) -> Seq<(SubjectTable, Seq<char>)> {
    v.map_values(|p: (SubjectTable, String)| (p.0, p.1@))
}

/// The subjects a canonical-fact lookup asks about: each `(table, id)` pair
/// once, at its first occurrence, with project-wide subjects left out.
pub fn dedup_subject_pairs(subjects: &Vec<Subject>) -> (r: Vec<(SubjectTable, String)>)
    ensures
        pair_views(r@) == subject_pairs(subjects@),
        forall|i: int, j: int| 0 <= i < j < r@.len() ==> pair_views(r@)[i] != pair_views(r@)[j],
        forall|k: int|
            0 <= k < subjects@.len() && (#[trigger] subjects@[k]).id is Some ==> pair_views(
                r@,
            ).contains((subjects@[k].table, subjects@[k].id->0@)),
{
    proof {
        lemma_subject_pairs(subjects@);
    }
    let mut out: Vec<(SubjectTable, String)> = Vec::new();
    let mut i: usize = 0;
    while i < subjects.len()
        invariant
            i <= subjects.len(),
            pair_views(out@) == subject_pairs(subjects@.take(i as int)),
        decreases subjects.len() - i,
    {
        assert(subjects@.take(i as int + 1).drop_last() =~= subjects@.take(i as int));
        let s = &subjects[i];
        match &s.id {
            None => {},
            Some(id) => {
                let mut seen = false;
                let mut j: usize = 0;
                while j < out.len()
                    invariant
                        j <= out.len(),
                        seen <==> exists|k: int|
                            0 <= k < j && #[trigger] pair_views(out@)[k] == (s.table, id@),
                    decreases out.len() - j,
                {
                    assert(pair_views(out@)[j as int] == (out@[j as int].0, out@[j as int].1@));
                    if out[j].0 == s.table && str_eq(out[j].1.as_str(), id.as_str()) {
                        seen = true;
                    }
                    j = j + 1;
                }
                proof {
                    let pv = pair_views(out@);
                    if pv.contains((s.table, id@)) {
                        let k = choose|k: int| 0 <= k < pv.len() && pv[k] == (s.table, id@);
                        assert(pair_views(out@)[k] == (s.table, id@));
                    }
                }
                if !seen {
                    let ghost before = out@;
                    out.push((s.table, id.clone()));
                    assert(pair_views(out@) =~= pair_views(before).push((s.table, id@)));
                }
            },
        }
        i = i + 1;
    }
    assert(subjects@.take(subjects@.len() as int) =~= subjects@);
    out
}

} // verus!
