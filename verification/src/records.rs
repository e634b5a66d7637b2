//! The stored rows that the verified logic reads, with the columns it reads.

use vstd::prelude::*;
use crate::placement::StoryPlacement;
use crate::row::Timestamp;

verus! {

/// What a project promises its readers.
pub struct ReaderContract {
    pub promise: String,
    pub style_notes: Vec<String>,
    pub boundaries: Vec<String>,
}

pub struct Project {
    pub id: String,
    pub name: String,
    pub project_type: String,
    pub genre: String,
    pub reader_contract: ReaderContract,
    pub active_branch_id: Option<String>,
    pub notes: Option<String>,
    pub min_scene_word_count: Option<i64>,
    pub updated_at: Timestamp,
}

pub struct Book {
    pub id: String,
    pub book_number: i32,
    pub title: Option<String>,
}

pub struct Chapter {
    pub id: String,
    pub book_id: String,
    pub book_number: i32,
    pub chapter_number: i32,
    pub title: Option<String>,
}

/// A drafted scene, addressed by its natural key
/// `(branch, book, chapter, scene_order)`.
pub struct Scene {
    pub id: String,
    pub branch_id: String,
    pub book_id: String,
    pub chapter_id: String,
    pub book_number: i32,
    pub chapter_number: i32,
    pub scene_order: i32,
    pub full_text: String,
    pub summary: String,
    pub content_rating: String,
    pub tone: Option<String>,
    pub draft_origin: Option<String>,
    pub updated_at: Timestamp,
}

pub struct WorldRule {
    pub id: String,
    pub rule_name: String,
    pub rule_type: String,
    pub description: String,
    pub scan_pattern: Option<String>,
    pub relevance_tags: Option<Vec<String>>,
    pub established_in: Option<StoryPlacement>,
    pub created_at: Timestamp,
}

pub struct Character {
    pub id: String,
    pub name: String,
    pub role: String,
    pub summary: String,
    pub realm: Option<String>,
    pub updated_at: Timestamp,
}

pub struct Location {
    pub id: String,
    pub name: String,
    pub kind: String,
    pub summary: String,
    pub realm: Option<String>,
    pub updated_at: Timestamp,
}

pub struct WorldState {
    pub location_id: String,
    pub controlling_faction: Option<String>,
    pub status: Option<String>,
}

pub struct Faction {
    pub id: String,
    pub name: String,
    pub faction_type: String,
    pub summary: String,
    pub tags: Vec<String>,
    pub realm: Option<String>,
    pub updated_at: Timestamp,
}

pub struct Religion {
    pub id: String,
    pub name: String,
    pub deity_or_principle: Option<String>,
    pub summary: String,
    pub tags: Vec<String>,
    pub updated_at: Timestamp,
}

pub struct Economy {
    pub id: String,
    pub name: String,
    pub realm: Option<String>,
    pub summary: String,
    pub currency: Option<String>,
    pub trade_goods: Vec<String>,
    pub updated_at: Timestamp,
}

pub struct PlotLine {
    pub id: String,
    pub name: String,
    pub plot_type: String,
    pub summary: String,
    pub status: String,
    pub updated_at: Timestamp,
}

pub struct Conflict {
    pub id: String,
    pub name: String,
    pub conflict_type: String,
    pub stakes: String,
    pub resolution_summary: Option<String>,
    pub escalation_stages: Vec<String>,
    pub updated_at: Timestamp,
}

pub struct Theme {
    pub id: String,
    pub theme_statement: String,
    pub thesis_antithesis: Option<String>,
    pub resolution_point: Option<StoryPlacement>,
    pub updated_at: Timestamp,
}

pub struct Motif {
    pub id: String,
    pub name: String,
    pub description: String,
    pub connected_theme_ids: Vec<String>,
    pub updated_at: Timestamp,
}

pub struct SystemOverlay {
    pub id: String,
    pub system_name: String,
    pub system_type: String,
    pub visibility: String,
    pub rules: Vec<String>,
    pub stats: Vec<String>,
    pub updated_at: Timestamp,
}

pub struct NarrativePromise {
    pub id: String,
    pub promise_type: String,
    pub description: String,
    pub status: String,
    pub planted_at: StoryPlacement,
    pub planned_payoff: Option<StoryPlacement>,
}

pub struct ArcMilestone {
    pub label: String,
    pub placement: Option<StoryPlacement>,
}

/// A character arc. `progress_complete` records whether the stored
/// progress fraction has reached its full value of one.
pub struct CharacterArc {
    pub id: String,
    pub character_id: String,
    pub arc_type: String,
    pub starting_state: String,
    pub ending_state: String,
    pub thematic_purpose: String,
    pub status: String,
    pub progress_complete: bool,
    pub milestones: Vec<ArcMilestone>,
    pub updated_at: Timestamp,
}

pub struct Term {
    pub id: String,
    pub term_text: String,
    pub pronunciation: Option<String>,
    pub definition: String,
    pub usage_context: Option<String>,
    pub origin: Option<String>,
    pub updated_at: Timestamp,
}

/// A relationship edge; the pair `(in_id, out_id)` is its key in a branch.
pub struct RelatesTo {
    pub in_id: String,
    pub out_id: String,
    pub relationship_type: String,
    pub trust: i32,
    pub tension: i32,
    pub dynamics: Vec<String>,
    pub reason: Option<String>,
    pub last_scene_id: Option<String>,
    pub updated_at: Timestamp,
}

pub struct TimelineEvent {
    pub id: String,
    pub title: String,
    pub event_type: String,
    pub placement: StoryPlacement,
    pub summary: String,
    pub related_entity_ids: Vec<String>,
}

pub struct CharacterState {
    pub character_id: String,
    pub scene_id: Option<String>,
    pub book_number: i32,
    pub chapter_number: i32,
    pub scene_order: i32,
    pub emotional_state: Option<String>,
    pub goals: Vec<String>,
    pub status: Vec<String>,
    pub notes: Vec<String>,
    pub source_summary: Option<String>,
    pub created_at: Timestamp,
}

pub struct CharacterVoiceProfile {
    pub character_id: String,
    pub tone: Option<String>,
    pub vocabulary: Vec<String>,
    pub sentence_structure: Option<String>,
    pub tics: Vec<String>,
    pub forbidden_words: Vec<String>,
    pub example_lines: Vec<String>,
    pub established_in_scene_id: Option<String>,
    pub created_at: Timestamp,
    pub updated_at: Option<Timestamp>,
}

/// Something a character has learned, and where in the story.
pub struct KnowledgeFact {
    pub id: String,
    pub character_id: String,
    pub fact: String,
    pub source_summary: String,
    pub learned_at: Option<StoryPlacement>,
    pub reader_visible: bool,
    pub updated_at: Timestamp,
}

/// A fact the manuscript establishes about the world, with the span of the
/// story it holds for. Its value is kept by the caller, rendered as text.
pub struct CanonicalFact {
    pub id: String,
    pub scene_id: String,
    pub predicate: String,
    pub book_number: i32,
    pub chapter_number: i32,
    pub valid_from: Option<StoryPlacement>,
    pub valid_until: Option<StoryPlacement>,
}

} // verus!
