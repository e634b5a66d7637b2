//! Rewinding a branch to a saved snapshot: which tables are rewritten, in
//! which order, and how each table's current rows are found.

use vstd::prelude::*;
use crate::text::str_eq;

verus! {

/// How the rows of a table that belong to a branch are found before a
/// restore rewrites them.
#[derive(Clone, Copy, Debug, PartialEq, Eq, Structural)]
pub enum RestoreScope {
    /// By `project_id` and `branch_id`.
    ProjectBranch,
    /// By `branch_id` alone; the table has no `project_id` column.
    BranchOnly,
    /// Rows whose `scene_id` names a scene of the branch.
    SceneChildren,
    /// Rows whose `character_id` names a character of the branch.
    CharacterChildren,
}

/// The branch-scoped tables a restore rewrites, in the order it deletes and
/// then inserts them.
pub open spec fn spec_branch_restore_tables() -> Seq<Seq<char>> {
    seq![
        "revision_marker"@,
        "dual_persona_review"@,
        "scene_beat_annotation"@,
        "canonical_fact"@,
        "scene_version"@,
        "scene_source_link"@,
        "character_voice_profile"@,
        "character_emotional_profile"@,
        "character_state"@,
        "future_knowledge"@,
        "timeline_event"@,
        "temporal_intervention"@,
        "progression_event"@,
        "pacing_tracker"@,
        "chapter_plan"@,
        "chapter_summary"@,
        "pacing_curve"@,
        "pacing_config"@,
        "narrative_promise"@,
        "character_arc"@,
        "plot_line"@,
        "conflict"@,
        "theme"@,
        "motif"@,
        "faction"@,
        "religion"@,
        "economy"@,
        "term"@,
        "system_overlay"@,
        "knowledge_fact"@,
        "world_state"@,
        "world_rule"@,
        "scene"@,
        "location"@,
        "character"@,
        "book_outline"@,
        "chapter_outline"@,
        "relates_to"@,
        "knows"@,
    ]
}

pub fn branch_restore_tables() -> (r: Vec<&'static str>)
    ensures
        r@.map_values(|t: &str| t@) == spec_branch_restore_tables(),
{
    let v: Vec<&'static str> = vec![
        "revision_marker",
        "dual_persona_review",
        "scene_beat_annotation",
        "canonical_fact",
        "scene_version",
        "scene_source_link",
        "character_voice_profile",
        "character_emotional_profile",
        "character_state",
        "future_knowledge",
        "timeline_event",
        "temporal_intervention",
        "progression_event",
        "pacing_tracker",
        "chapter_plan",
        "chapter_summary",
        "pacing_curve",
        "pacing_config",
        "narrative_promise",
        "character_arc",
        "plot_line",
        "conflict",
        "theme",
        "motif",
        "faction",
        "religion",
        "economy",
        "term",
        "system_overlay",
        "knowledge_fact",
        "world_state",
        "world_rule",
        "scene",
        "location",
        "character",
        "book_outline",
        "chapter_outline",
        "relates_to",
        "knows",
    ];
    assert(v@.map_values(|t: &str| t@) =~= spec_branch_restore_tables());
    v
}

pub open spec fn spec_restore_scope(table: Seq<char>) -> Option<RestoreScope> {
    if table == "revision_marker"@
        || table == "dual_persona_review"@
        || table == "scene_beat_annotation"@
        || table == "canonical_fact"@
        || table == "scene_version"@
        || table == "character_state"@
        || table == "future_knowledge"@
        || table == "timeline_event"@
        || table == "temporal_intervention"@
        || table == "progression_event"@
        || table == "pacing_tracker"@
        || table == "chapter_plan"@
        || table == "chapter_summary"@
        || table == "pacing_curve"@
        || table == "pacing_config"@
        || table == "narrative_promise"@
        || table == "character_arc"@
        || table == "plot_line"@
        || table == "conflict"@
        || table == "theme"@
        || table == "motif"@
        || table == "faction"@
        || table == "religion"@
        || table == "economy"@
        || table == "term"@
        || table == "system_overlay"@
        || table == "knowledge_fact"@
        || table == "world_state"@
        || table == "world_rule"@
        || table == "scene"@
        || table == "location"@
        || table == "character"@
        || table == "knows"@ {
        Some(RestoreScope::ProjectBranch)
    } else if table == "book_outline"@
        || table == "chapter_outline"@
        || table == "relates_to"@ {
        Some(RestoreScope::BranchOnly)
    } else if table == "scene_source_link"@ {
        Some(RestoreScope::SceneChildren)
    } else if table == "character_voice_profile"@ || table == "character_emotional_profile"@ {
        Some(RestoreScope::CharacterChildren)
    } else {
        None
    }
}

/// How a restore finds a table's current rows; `None` for a table it does
/// not clear.
pub fn restore_scope(table: &str) -> (r: Option<RestoreScope>)
    ensures
        r == spec_restore_scope(table@),
{
    if str_eq(table, "revision_marker")
        || str_eq(table, "dual_persona_review")
        || str_eq(table, "scene_beat_annotation")
        || str_eq(table, "canonical_fact")
        || str_eq(table, "scene_version")
        || str_eq(table, "character_state")
        || str_eq(table, "future_knowledge")
        || str_eq(table, "timeline_event")
        || str_eq(table, "temporal_intervention")
        || str_eq(table, "progression_event")
        || str_eq(table, "pacing_tracker")
        || str_eq(table, "chapter_plan")
        || str_eq(table, "chapter_summary")
        || str_eq(table, "pacing_curve")
        || str_eq(table, "pacing_config")
        || str_eq(table, "narrative_promise")
        || str_eq(table, "character_arc")
        || str_eq(table, "plot_line")
        || str_eq(table, "conflict")
        || str_eq(table, "theme")
        || str_eq(table, "motif")
        || str_eq(table, "faction")
        || str_eq(table, "religion")
        || str_eq(table, "economy")
        || str_eq(table, "term")
        || str_eq(table, "system_overlay")
        || str_eq(table, "knowledge_fact")
        || str_eq(table, "world_state")
        || str_eq(table, "world_rule")
        || str_eq(table, "scene")
        || str_eq(table, "location")
        || str_eq(table, "character")
        || str_eq(table, "knows") {
        Some(RestoreScope::ProjectBranch)
    } else if str_eq(table, "book_outline")
        || str_eq(table, "chapter_outline")
        || str_eq(table, "relates_to") {
        Some(RestoreScope::BranchOnly)
    } else if str_eq(table, "scene_source_link") {
        Some(RestoreScope::SceneChildren)
    } else if str_eq(table, "character_voice_profile") || str_eq(table, "character_emotional_profile") {
        Some(RestoreScope::CharacterChildren)
    } else {
        None
    }
}

/// What a restore does with one table: how it clears the branch's rows, and
/// which table of the snapshot (by position) it inserts, if the snapshot
/// has one of that name.
pub struct RestoreStep {
    pub table: String,
    pub scope: Option<RestoreScope>,
    pub rows_from: Option<usize>,
}

/// The first snapshot table named `t`, scanning from `i`.
pub open spec fn first_named(names: Seq<String>, t: Seq<char>, i: int) -> Option<int>
    decreases names.len() - i,
{
    if i < 0 || i >= names.len() {
        None
    } else if names[i]@ == t {
        Some(i)
    } else {
        first_named(names, t, i + 1)
    }
}

fn find_named(names: &Vec<String>, t: &str) -> (r: Option<usize>)
    ensures
        match r {
            Some(k) => first_named(names@, t@, 0) == Some(k as int),
            None => first_named(names@, t@, 0) is None,
        },
{
    let mut i: usize = names.len();
    let mut found: Option<usize> = None;
    while i > 0
        invariant
            i <= names.len(),
            match found {
                Some(k) => first_named(names@, t@, i as int) == Some(k as int),
                None => first_named(names@, t@, i as int) is None,
            },
        decreases i,
    {
        i = i - 1;
        if str_eq(names[i].as_str(), t) {
            found = Some(i);
        }
    }
    found
}

/// The steps of a restore, one per table of the restore list and in its
/// order. A snapshot table outside the list is never read; a listed table
/// the snapshot lacks is cleared and left empty.
pub fn restore_plan(snapshot_tables: &Vec<String>) -> (r: Vec<RestoreStep>)
    ensures
        r@.len() == spec_branch_restore_tables().len(),
        forall|k: int|
            0 <= k < r@.len() ==> {
                let t = spec_branch_restore_tables()[k];
                &&& (#[trigger] r@[k]).table@ == t
                &&& r@[k].scope == spec_restore_scope(t)
                &&& match r@[k].rows_from {
                    Some(j) => first_named(snapshot_tables@, t, 0) == Some(j as int),
                    None => first_named(snapshot_tables@, t, 0) is None,
                }
            },
{
    let tables = branch_restore_tables();
    let mut out: Vec<RestoreStep> = Vec::new();
    let mut i: usize = 0;
    while i < tables.len()
        invariant
            i <= tables.len(),
            tables@.map_values(|t: &str| t@) == spec_branch_restore_tables(),
            out@.len() == i,
            forall|k: int|
                0 <= k < i ==> {
                    let t = spec_branch_restore_tables()[k];
                    &&& (#[trigger] out@[k]).table@ == t
                    &&& out@[k].scope == spec_restore_scope(t)
                    &&& match out@[k].rows_from {
                        Some(j) => first_named(snapshot_tables@, t, 0) == Some(j as int),
                        None => first_named(snapshot_tables@, t, 0) is None,
                    }
                },
        decreases tables.len() - i,
    {
        let t = tables[i];
        assert(tables@.map_values(|t: &str| t@)[i as int] == t@);
        out.push(
            RestoreStep {
                table: crate::text::to_owned_string(t),
                scope: restore_scope(t),
                rows_from: find_named(snapshot_tables, t),
            },
        );
        i = i + 1;
    }
    out
}

} // verus!
