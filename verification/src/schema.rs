//! Schema-level allowlists: which columns are timestamps or JSON payloads,
//! which tables can be archived, which columns may be edited in place, and
//! which identifiers may be spliced into export queries.

use vstd::prelude::*;
use crate::text::{str_eq, str_ends_with, ends_with, is_ascii_alnum, char_is_ascii_alnum, to_owned_string};

verus! {

/// Columns stored as `INTEGER` unix-microsecond timestamps.
pub open spec fn spec_is_timestamp_column(column: Seq<char>) -> bool {
    column == "created_at"@ || column == "updated_at"@ || column == "archived_at"@
        || column == "imported_at"@ || column == "linked_at"@ || column == "resolved_at"@
        || column == "snapshot_created_at"@
}

pub fn is_timestamp_column(column: &str) -> (r: bool)
    ensures
        r == spec_is_timestamp_column(column@),
{
    str_eq(column, "created_at") || str_eq(column, "updated_at") || str_eq(column, "archived_at")
        || str_eq(column, "imported_at") || str_eq(column, "linked_at") || str_eq(
        column,
        "resolved_at",
    ) || str_eq(column, "snapshot_created_at")
}

/// Columns whose `TEXT` holds a JSON payload: a fixed list, and every
/// column whose name ends in `_json`.
pub open spec fn spec_looks_like_json_column(name: Seq<char>) -> bool {
    name == "voice_profile"@
    || name == "emotional_profile"@
    || name == "voice_profile_data"@
    || name == "emotional_profile_data"@
    || name == "reader_contract"@
    || name == "style_notes"@
    || name == "boundaries"@
    || name == "promise"@
    || name == "emotional_state"@
    || name == "goals"@
    || name == "status"@
    || name == "notes"@
    || name == "warnings"@
    || name == "milestones"@
    || name == "starting_state"@
    || name == "ending_state"@
    || name == "thematic_purpose"@
    || name == "connected_theme_ids"@
    || name == "target_theme_ids"@
    || name == "target_conflict_ids"@
    || name == "target_plot_line_ids"@
    || name == "motif_ids"@
    || name == "theme_ids"@
    || name == "conflict_ids"@
    || name == "tags"@
    || name == "aliases"@
    || name == "relevance_tags"@
    || name == "scan_pattern"@
    || name == "dynamics"@
    || name == "beats"@
    || name == "planned_scenes"@
    || name == "per_book_budget"@
    || name == "progress"@
    || name == "review_rounds"@
    || name == "value_json"@
    || name == "scope_constraints"@
    || name == "context"@
    || name == "established_in"@
    || name == "story_placement"@
    || name == "valid_from"@
    || name == "valid_until"@
    || name == "learned_at"@
    || name == "flex_range"@
    || name == "suppressed"@
    || name == "triggers"@
    || name == "defense_mechanisms"@
    || name == "tics"@
    || name == "vocabulary"@
    || name == "sentence_structure"@
    || name == "forbidden_words"@
    || name == "example_lines"@
    || name == "stated_consequences"@
    || name == "try_fail_cycle"@
    || ends_with(name, "_json"@)
}

pub fn looks_like_json_column(name: &str) -> (r: bool)
    ensures
        r == spec_looks_like_json_column(name@),
{
    str_eq(name, "voice_profile")
    || str_eq(name, "emotional_profile")
    || str_eq(name, "voice_profile_data")
    || str_eq(name, "emotional_profile_data")
    || str_eq(name, "reader_contract")
    || str_eq(name, "style_notes")
    || str_eq(name, "boundaries")
    || str_eq(name, "promise")
    || str_eq(name, "emotional_state")
    || str_eq(name, "goals")
    || str_eq(name, "status")
    || str_eq(name, "notes")
    || str_eq(name, "warnings")
    || str_eq(name, "milestones")
    || str_eq(name, "starting_state")
    || str_eq(name, "ending_state")
    || str_eq(name, "thematic_purpose")
    || str_eq(name, "connected_theme_ids")
    || str_eq(name, "target_theme_ids")
    || str_eq(name, "target_conflict_ids")
    || str_eq(name, "target_plot_line_ids")
    || str_eq(name, "motif_ids")
    || str_eq(name, "theme_ids")
    || str_eq(name, "conflict_ids")
    || str_eq(name, "tags")
    || str_eq(name, "aliases")
    || str_eq(name, "relevance_tags")
    || str_eq(name, "scan_pattern")
    || str_eq(name, "dynamics")
    || str_eq(name, "beats")
    || str_eq(name, "planned_scenes")
    || str_eq(name, "per_book_budget")
    || str_eq(name, "progress")
    || str_eq(name, "review_rounds")
    || str_eq(name, "value_json")
    || str_eq(name, "scope_constraints")
    || str_eq(name, "context")
    || str_eq(name, "established_in")
    || str_eq(name, "story_placement")
    || str_eq(name, "valid_from")
    || str_eq(name, "valid_until")
    || str_eq(name, "learned_at")
    || str_eq(name, "flex_range")
    || str_eq(name, "suppressed")
    || str_eq(name, "triggers")
    || str_eq(name, "defense_mechanisms")
    || str_eq(name, "tics")
    || str_eq(name, "vocabulary")
    || str_eq(name, "sentence_structure")
    || str_eq(name, "forbidden_words")
    || str_eq(name, "example_lines")
    || str_eq(name, "stated_consequences")
    || str_eq(name, "try_fail_cycle")
    || str_ends_with(name, "_json")
}

/// Tables that carry an `archived_at` column.
pub open spec fn spec_table_has_archived_at(table: Seq<char>) -> bool {
    table == "faction"@
    || table == "religion"@
    || table == "economy"@
    || table == "term"@
    || table == "plot_line"@
    || table == "conflict"@
    || table == "theme"@
    || table == "motif"@
    || table == "narrative_promise"@
    || table == "character_arc"@
}

pub fn table_has_archived_at(table: &str) -> (r: bool)
    ensures
        r == spec_table_has_archived_at(table@),
{
    str_eq(table, "faction")
    || str_eq(table, "religion")
    || str_eq(table, "economy")
    || str_eq(table, "term")
    || str_eq(table, "plot_line")
    || str_eq(table, "conflict")
    || str_eq(table, "theme")
    || str_eq(table, "motif")
    || str_eq(table, "narrative_promise")
    || str_eq(table, "character_arc")
}

/// The `(table, column)` pairs that may be overwritten in place: every
/// table's `notes`, and a fixed list of free-text and JSON-array fields.
/// Identity fields, foreign keys and computed fields are not on it.
pub open spec fn spec_column_is_updatable(table: Seq<char>, column: Seq<char>) -> bool {
    column == "notes"@
        || (table == "project"@ && column == "name"@)
        || (table == "project"@ && column == "genre"@)
        || (table == "project"@ && column == "project_type"@)
        || (table == "book"@ && column == "title"@)
        || (table == "chapter"@ && column == "title"@)
        || (table == "character"@ && column == "summary"@)
        || (table == "character"@ && column == "role"@)
        || (table == "character"@ && column == "realm"@)
        || (table == "character"@ && column == "appearance"@)
        || (table == "location"@ && column == "summary"@)
        || (table == "location"@ && column == "realm"@)
        || (table == "location"@ && column == "kind"@)
        || (table == "faction"@ && column == "summary"@)
        || (table == "religion"@ && column == "summary"@)
        || (table == "religion"@ && column == "deity_or_principle"@)
        || (table == "economy"@ && column == "summary"@)
        || (table == "economy"@ && column == "currency"@)
        || (table == "term"@ && column == "definition"@)
        || (table == "term"@ && column == "pronunciation"@)
        || (table == "plot_line"@ && column == "summary"@)
        || (table == "plot_line"@ && column == "status"@)
        || (table == "conflict"@ && column == "stakes"@)
        || (table == "conflict"@ && column == "resolution_summary"@)
        || (table == "conflict"@ && column == "try_fail_cycles"@)
        || (table == "conflict"@ && column == "escalation_stages"@)
        || (table == "conflict"@ && column == "stated_consequences"@)
        || (table == "conflict"@ && column == "expected_total_cycles"@)
        || (table == "conflict"@ && column == "conflict_type"@)
        || (table == "theme"@ && column == "theme_statement"@)
        || (table == "theme"@ && column == "thesis_antithesis"@)
        || (table == "motif"@ && column == "description"@)
        || (table == "narrative_promise"@ && column == "description"@)
        || (table == "narrative_promise"@ && column == "status"@)
        || (table == "world_rule"@ && column == "description"@)
}

pub fn column_is_updatable(table: &str, column: &str) -> (r: bool)
    ensures
        r == spec_column_is_updatable(table@, column@),
{
    str_eq(column, "notes")
        || (str_eq(table, "project") && str_eq(column, "name"))
        || (str_eq(table, "project") && str_eq(column, "genre"))
        || (str_eq(table, "project") && str_eq(column, "project_type"))
        || (str_eq(table, "book") && str_eq(column, "title"))
        || (str_eq(table, "chapter") && str_eq(column, "title"))
        || (str_eq(table, "character") && str_eq(column, "summary"))
        || (str_eq(table, "character") && str_eq(column, "role"))
        || (str_eq(table, "character") && str_eq(column, "realm"))
        || (str_eq(table, "character") && str_eq(column, "appearance"))
        || (str_eq(table, "location") && str_eq(column, "summary"))
        || (str_eq(table, "location") && str_eq(column, "realm"))
        || (str_eq(table, "location") && str_eq(column, "kind"))
        || (str_eq(table, "faction") && str_eq(column, "summary"))
        || (str_eq(table, "religion") && str_eq(column, "summary"))
        || (str_eq(table, "religion") && str_eq(column, "deity_or_principle"))
        || (str_eq(table, "economy") && str_eq(column, "summary"))
        || (str_eq(table, "economy") && str_eq(column, "currency"))
        || (str_eq(table, "term") && str_eq(column, "definition"))
        || (str_eq(table, "term") && str_eq(column, "pronunciation"))
        || (str_eq(table, "plot_line") && str_eq(column, "summary"))
        || (str_eq(table, "plot_line") && str_eq(column, "status"))
        || (str_eq(table, "conflict") && str_eq(column, "stakes"))
        || (str_eq(table, "conflict") && str_eq(column, "resolution_summary"))
        || (str_eq(table, "conflict") && str_eq(column, "try_fail_cycles"))
        || (str_eq(table, "conflict") && str_eq(column, "escalation_stages"))
        || (str_eq(table, "conflict") && str_eq(column, "stated_consequences"))
        || (str_eq(table, "conflict") && str_eq(column, "expected_total_cycles"))
        || (str_eq(table, "conflict") && str_eq(column, "conflict_type"))
        || (str_eq(table, "theme") && str_eq(column, "theme_statement"))
        || (str_eq(table, "theme") && str_eq(column, "thesis_antithesis"))
        || (str_eq(table, "motif") && str_eq(column, "description"))
        || (str_eq(table, "narrative_promise") && str_eq(column, "description"))
        || (str_eq(table, "narrative_promise") && str_eq(column, "status"))
        || (str_eq(table, "world_rule") && str_eq(column, "description"))
}

/// Why a schema-level request was refused.
#[derive(Debug)]
pub enum SchemaError {
    /// "unsafe identifier for export query: {ident:?}"
    UnsafeIdentifier { ident: String },
    /// "entity table '{table}' has no archived_at column"
    NotArchivable { table: String },
    /// "update_entity_fields refuses to set updated_at directly"
    UpdatedAtIsAutomatic,
    /// "column '{column}' on '{table}' is not in the update allowlist"
    ColumnNotUpdatable { table: String, column: String },
}

/// A plain `[A-Za-z0-9_]+` identifier.
pub open spec fn spec_safe_identifier(ident: Seq<char>) -> bool {
    ident.len() > 0 && forall|i: int| 0 <= i < ident.len() ==> (is_ascii_alnum(#[trigger] ident[i])
        || ident[i] == '_')
}

/// Gate for table and column names spliced into export queries.
pub fn ensure_safe_export_identifier(ident: &str) -> (r: Result<(), SchemaError>)
    ensures
        match r {
            Ok(()) => spec_safe_identifier(ident@),
            Err(SchemaError::UnsafeIdentifier { ident: i }) => !spec_safe_identifier(ident@)
                && i@ == ident@,
            Err(_) => false,
        },
{
    let n = ident.unicode_len();
    let mut ok = n > 0;
    let mut i: usize = 0;
    while i < n && ok
        invariant
            n == ident@.len(),
            i <= n,
            ok == (n > 0 && forall|j: int|
                0 <= j < i ==> (is_ascii_alnum(#[trigger] ident@[j]) || ident@[j] == '_')),
        decreases n - i,
    {
        let c = ident.get_char(i);
        if !(char_is_ascii_alnum(c) || c == '_') {
            ok = false;
        }
        i = i + 1;
    }
    if ok {
        Ok(())
    } else {
        Err(SchemaError::UnsafeIdentifier { ident: to_owned_string(ident) })
    }
}

/// Only tables with an `archived_at` column can be archived.
pub fn check_archivable(table: &str) -> (r: Result<(), SchemaError>)
    ensures
        match r {
            Ok(()) => spec_table_has_archived_at(table@),
            Err(SchemaError::NotArchivable { table: t }) => !spec_table_has_archived_at(table@)
                && t@ == table@,
            Err(_) => false,
        },
{
    if table_has_archived_at(table) {
        Ok(())
    } else {
        Err(SchemaError::NotArchivable { table: to_owned_string(table) })
    }
}

/// Whether a column may be written by an entity update: never
/// `updated_at` (it is stamped automatically), otherwise what the
/// allowlist says.
pub open spec fn column_refused(table: Seq<char>, column: Seq<char>) -> bool {
    column == "updated_at"@ || !spec_column_is_updatable(table, column)
}

/// The first column, in the given order, that an update may not write.
pub open spec fn first_bad_column(table: Seq<char>, columns: Seq<Seq<char>>, i: int) -> Option<int>
    decreases columns.len() - i,
{
    if i < 0 || i >= columns.len() {
        None
    } else if column_refused(table, columns[i]) {
        Some(i)
    } else {
        first_bad_column(table, columns, i + 1)
    }
}

/// What an entity update does.
pub enum EntityUpdate {
    /// No changes: only `updated_at` is bumped.
    TouchOnly,
    /// Every change is written, one column at a time.
    WriteColumns,
}

/// Check the columns of an entity update (in the order the changes map
/// iterates them) before anything is written: an empty update only touches
/// `updated_at`; otherwise the first column that is `updated_at` or off the
/// allowlist refuses the whole update.
pub fn plan_entity_update(table: &str, columns: &Vec<String>) -> (r: Result<EntityUpdate, SchemaError>)
    ensures
        ({
            let cols = crate::text::views(columns@);
            let bad = first_bad_column(table@, cols, 0);
            match r {
                Ok(EntityUpdate::TouchOnly) => cols.len() == 0,
                Ok(EntityUpdate::WriteColumns) => cols.len() > 0 && bad is None,
                Err(SchemaError::UpdatedAtIsAutomatic) => bad is Some && cols[bad->0] == "updated_at"@,
                Err(SchemaError::ColumnNotUpdatable { table: t, column: c }) => bad is Some
                    && cols[bad->0] == c@ && c@ != "updated_at"@ && t@ == table@
                    && !spec_column_is_updatable(table@, c@),
                Err(_) => false,
            }
        }),
{
    let ghost cols = crate::text::views(columns@);
    if columns.len() == 0 {
        return Ok(EntityUpdate::TouchOnly);
    }
    let mut i: usize = 0;
    while i < columns.len()
        invariant
            i <= columns.len(),
            cols == crate::text::views(columns@),
            first_bad_column(table@, cols, 0) == first_bad_column(table@, cols, i as int),
        decreases columns.len() - i,
    {
        let col = columns[i].as_str();
        assert(cols[i as int] == col@);
        if str_eq(col, "updated_at") {
            return Err(SchemaError::UpdatedAtIsAutomatic);
        }
        if !column_is_updatable(table, col) {
            return Err(SchemaError::ColumnNotUpdatable {
                table: to_owned_string(table),
                column: to_owned_string(col),
            });
        }
        i = i + 1;
    }
    Ok(EntityUpdate::WriteColumns)
}

/// A single-field update is allowed only on the allowlist.
pub fn check_field_updatable(table: &str, column: &str) -> (r: Result<(), SchemaError>)
    ensures
        match r {
            Ok(()) => spec_column_is_updatable(table@, column@),
            Err(SchemaError::ColumnNotUpdatable { table: t, column: c }) => !spec_column_is_updatable(table@, column@)
                && t@ == table@ && c@ == column@,
            Err(_) => false,
        },
{
    if column_is_updatable(table, column) {
        Ok(())
    } else {
        Err(SchemaError::ColumnNotUpdatable {
            table: to_owned_string(table),
            column: to_owned_string(column),
        })
    }
}

/// An entity update never writes `updated_at` itself: whatever the table,
/// a change list that names it is refused.
pub proof fn law_updated_at_never_written(table: Seq<char>, columns: Seq<Seq<char>>, k: int)
    requires
        0 <= k < columns.len(),
        columns[k] == "updated_at"@,
    ensures
        first_bad_column(table, columns, 0) is Some,
        first_bad_column(table, columns, 0)->0 <= k,
{
    lemma_first_bad_found(table, columns, 0, k);
}

proof fn lemma_first_bad_found(table: Seq<char>, columns: Seq<Seq<char>>, i: int, k: int)
    requires
        0 <= i <= k < columns.len(),
        column_refused(table, columns[k]),
    ensures
        first_bad_column(table, columns, i) is Some,
        i <= first_bad_column(table, columns, i)->0 <= k,
    decreases k - i,
{
    if !column_refused(table, columns[i]) {
        lemma_first_bad_found(table, columns, i + 1, k);
    }
}

} // verus!
