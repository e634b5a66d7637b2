//! Scene drafting rules: what saving a draft writes, how versions are
//! numbered, where a scene may move, and how stored content ratings read.

use vstd::prelude::*;
use crate::records::Scene;
use crate::row::Timestamp;
use crate::text::{str_eq, to_owned_string};
use crate::serial::opt_view;

verus! {

/// A scene's content rating.
#[derive(Clone, Copy, Debug, PartialEq, Eq, Structural)]
pub enum ContentRating {
    General,
    Teen,
    Mature,
    Explicit,
}

/// The stored text of a rating.
pub open spec fn spec_rating_db_str(r: ContentRating) -> Seq<char> {
    match r {
        ContentRating::General => "General"@,
        ContentRating::Teen => "Teen"@,
        ContentRating::Mature => "Mature"@,
        ContentRating::Explicit => "Explicit"@,
    }
}

pub fn rating_db_str(r: ContentRating) -> (s: &'static str)
    ensures
        s@ == spec_rating_db_str(r),
{
    match r {
        ContentRating::General => "General",
        ContentRating::Teen => "Teen",
        ContentRating::Mature => "Mature",
        ContentRating::Explicit => "Explicit",
    }
}

#[derive(Debug)]
pub enum SceneError {
    /// "unknown content_rating in scene_version: {other}"
    UnknownContentRating { rating: String },
    /// "destination scene already exists"
    DestinationOccupied,
}

/// Read a stored rating back, as restoring a scene version does.
pub fn parse_content_rating(s: &str) -> (r: Result<ContentRating, SceneError>)
    ensures
        match r {
            Ok(x) => spec_rating_db_str(x) == s@,
            Err(SceneError::UnknownContentRating { rating }) => rating@ == s@ && forall|
                x: ContentRating,
            | spec_rating_db_str(x) != s@,
            Err(_) => false,
        },
{
    if str_eq(s, "General") {
        Ok(ContentRating::General)
    } else if str_eq(s, "Teen") {
        Ok(ContentRating::Teen)
    } else if str_eq(s, "Mature") {
        Ok(ContentRating::Mature)
    } else if str_eq(s, "Explicit") {
        Ok(ContentRating::Explicit)
    } else {
        Err(SceneError::UnknownContentRating { rating: to_owned_string(s) })
    }
}

/// Every rating reads back as itself.
pub proof fn law_rating_round_trip(r: ContentRating, s: Seq<char>)
    requires
        s == spec_rating_db_str(r),
    ensures
        forall|x: ContentRating| spec_rating_db_str(x) == s ==> x == r,
{
    reveal_strlit("General");
    reveal_strlit("Teen");
    reveal_strlit("Mature");
    reveal_strlit("Explicit");
    assert("General"@.len() == 7);
    assert("Teen"@.len() == 4);
    assert("Mature"@.len() == 6);
    assert("Explicit"@.len() == 8);
}

/// The fields a draft save writes.
pub struct SceneDraft {
    pub full_text: String,
    pub summary: String,
    pub content_rating: ContentRating,
    pub tone: Option<String>,
}

/// A saved draft differs from the stored scene in prose, summary, rating or
/// tone.
pub open spec fn spec_scene_changed(existing: Scene, draft: SceneDraft) -> bool {
    existing.full_text@ != draft.full_text@ || existing.summary@ != draft.summary@
        || existing.content_rating@ != spec_rating_db_str(draft.content_rating) || opt_view(
        existing.tone,
    ) != opt_view(draft.tone)
}

pub fn scene_changed(existing: &Scene, draft: &SceneDraft) -> (r: bool)
    ensures
        r == spec_scene_changed(*existing, *draft),
{
    !str_eq(existing.full_text.as_str(), draft.full_text.as_str()) || !str_eq(
        existing.summary.as_str(),
        draft.summary.as_str(),
    ) || !str_eq(existing.content_rating.as_str(), rating_db_str(draft.content_rating))
        || !crate::serial::opt_string_eq(&existing.tone, &draft.tone)
}

/// What saving a draft at a scene's natural key writes.
#[derive(Debug, PartialEq, Eq, Structural)]
pub enum SceneWrite {
    /// No scene there yet: insert a new one.
    Insert,
    /// Overwrite the scene in place. When the draft changed something, the
    /// prior prose is first kept as a version, open validator findings on
    /// the scene are resolved, and (when asked) its reviews are marked stale.
    Update { changed: bool, mark_reviews_stale: bool },
}

pub open spec fn spec_scene_write(
    existing: Option<Scene>,
    draft: SceneDraft,
    mark_reviews_stale_on_update: bool,
) -> SceneWrite {
    match existing {
        None => SceneWrite::Insert,
        Some(s) => {
            let changed = spec_scene_changed(s, draft);
            SceneWrite::Update { changed, mark_reviews_stale: mark_reviews_stale_on_update && changed }
        },
    }
}

pub fn plan_scene_write(
    existing: &Option<Scene>,
    draft: &SceneDraft,
    mark_reviews_stale_on_update: bool,
) -> (r: SceneWrite)
    ensures
        r == spec_scene_write(*existing, *draft, mark_reviews_stale_on_update),
{
    match existing {
        None => SceneWrite::Insert,
        Some(s) => {
            let changed = scene_changed(s, draft);
            SceneWrite::Update { changed, mark_reviews_stale: mark_reviews_stale_on_update && changed }
        },
    }
}

/// Saving the draft a scene already holds changes nothing: no version is
/// kept and no review goes stale.
pub proof fn law_unchanged_draft_keeps_history(existing: Scene, draft: SceneDraft, stale: bool)
    requires
        existing.full_text@ == draft.full_text@,
        existing.summary@ == draft.summary@,
        existing.content_rating@ == spec_rating_db_str(draft.content_rating),
        opt_view(existing.tone) == opt_view(draft.tone),
    ensures
        spec_scene_write(Some(existing), draft, stale) == (SceneWrite::Update {
            changed: false,
            mark_reviews_stale: false,
        }),
{
}

/// A second save at the same key updates in place rather than inserting;
/// a changed draft keeps the prior prose as a version.
pub proof fn law_resave_updates_in_place(existing: Scene, draft: SceneDraft, stale: bool)
    requires
        existing.full_text@ != draft.full_text@,
    ensures
        spec_scene_write(Some(existing), draft, stale) == (SceneWrite::Update {
            changed: true,
            mark_reviews_stale: stale,
        }),
{
}

/// Each of the four saved fields counts: a draft that differs from the
/// stored scene in prose, summary, rating or tone is a change, so the prior
/// version is kept and (when asked) reviews go stale.
pub proof fn law_any_field_change_is_a_change(existing: Scene, draft: SceneDraft, stale: bool)
    requires
        existing.full_text@ != draft.full_text@ || existing.summary@ != draft.summary@
            || existing.content_rating@ != spec_rating_db_str(draft.content_rating) || opt_view(
            existing.tone,
        ) != opt_view(draft.tone),
    ensures
        spec_scene_write(Some(existing), draft, stale) == (SceneWrite::Update {
            changed: true,
            mark_reviews_stale: stale,
        }),
{
}

/// A draft that differs from the stored scene only in its summary is still
/// a change.
pub proof fn law_summary_change_is_a_change(existing: Scene, draft: SceneDraft, stale: bool)
    requires
        existing.summary@ != draft.summary@,
    ensures
        spec_scene_write(Some(existing), draft, stale) == (SceneWrite::Update {
            changed: true,
            mark_reviews_stale: stale,
        }),
{
}

/// With no stored scene at the key, a save inserts, whatever the draft.
pub proof fn law_first_save_inserts(draft: SceneDraft, stale: bool)
    ensures
        spec_scene_write(None, draft, stale) == SceneWrite::Insert,
{
}

/// The number of the next version: one past the highest kept so far (0
/// when there is none), as the `INTEGER` column reads into an `i32`.
pub fn next_scene_version_number(max_version: i64) -> (r: i32)
    requires
        max_version < i64::MAX,
    ensures
        r == (max_version + 1) as i32,
{
    #[verifier::truncate]
    ((max_version + 1) as i32)
}

/// A scene may move only to a slot that no other scene of the branch holds.
pub fn check_destination_free(occupied: i64) -> (r: Result<(), SceneError>)
    ensures
        match r {
            Ok(()) => occupied <= 0,
            Err(SceneError::DestinationOccupied) => occupied > 0,
            Err(_) => false,
        },
{
    if occupied > 0 {
        Err(SceneError::DestinationOccupied)
    } else {
        Ok(())
    }
}

/// How a project's active branch is found.
#[derive(Debug)]
pub enum BranchLookup {
    /// The project names its active branch.
    ById { branch_id: String },
    /// It does not: fall back to its branch named `main`.
    MainBranch,
}

pub fn active_branch_lookup(active_branch_id: &Option<String>) -> (r: BranchLookup)
    ensures
        match r {
            BranchLookup::ById { branch_id } => active_branch_id == &Some(branch_id),
            BranchLookup::MainBranch => active_branch_id is None,
        },
{
    match active_branch_id {
        Some(id) => BranchLookup::ById { branch_id: id.clone() },
        None => BranchLookup::MainBranch,
    }
}

// ---------------------------------------------------------------------------
// The rows a save and a move write
// ---------------------------------------------------------------------------

/// The prior prose of a scene, kept as a version when a changed draft
/// overwrites it.
pub struct SceneVersionRow {
    pub scene_id: String,
    pub version_number: i32,
    pub book_number: i32,
    pub chapter_number: i32,
    pub scene_order: i32,
    pub full_text: String,
    pub summary: String,
    pub content_rating: String,
    pub tone: Option<String>,
}

pub open spec fn version_row_of(existing: Scene, max_version: i64) -> SceneVersionRow {
    SceneVersionRow {
        scene_id: existing.id,
        version_number: (max_version + 1) as i32,
        book_number: existing.book_number,
        chapter_number: existing.chapter_number,
        scene_order: existing.scene_order,
        full_text: existing.full_text,
        summary: existing.summary,
        content_rating: existing.content_rating,
        tone: existing.tone,
    }
}

/// The version kept before `existing` is overwritten: the next number after
/// the highest one it has (`max_version`, 0 when it has none) and the
/// content it held.
pub fn scene_version_row(existing: &Scene, max_version: i64) -> (r: SceneVersionRow)
    requires
        max_version < i64::MAX,
    ensures
        r == version_row_of(*existing, max_version),
{
    SceneVersionRow {
        scene_id: existing.id.clone(),
        version_number: next_scene_version_number(max_version),
        book_number: existing.book_number,
        chapter_number: existing.chapter_number,
        scene_order: existing.scene_order,
        full_text: existing.full_text.clone(),
        summary: existing.summary.clone(),
        content_rating: existing.content_rating.clone(),
        tone: crate::text::clone_opt_string(&existing.tone),
    }
}

/// The scene a draft writes over `existing`: the draft's prose, summary,
/// rating and tone, stamped `now`; its id and place unchanged.
pub fn overwrite_scene(existing: &Scene, draft: &SceneDraft, now: Timestamp) -> (r: Scene)
    ensures
        r.id == existing.id,
        r.branch_id == existing.branch_id,
        r.book_id == existing.book_id,
        r.chapter_id == existing.chapter_id,
        r.book_number == existing.book_number,
        r.chapter_number == existing.chapter_number,
        r.scene_order == existing.scene_order,
        r.full_text == draft.full_text,
        r.summary == draft.summary,
        r.content_rating@ == spec_rating_db_str(draft.content_rating),
        r.tone == draft.tone,
        r.draft_origin == existing.draft_origin,
        r.updated_at == now,
{
    Scene {
        id: existing.id.clone(),
        branch_id: existing.branch_id.clone(),
        book_id: existing.book_id.clone(),
        chapter_id: existing.chapter_id.clone(),
        book_number: existing.book_number,
        chapter_number: existing.chapter_number,
        scene_order: existing.scene_order,
        full_text: draft.full_text.clone(),
        summary: draft.summary.clone(),
        content_rating: to_owned_string(rating_db_str(draft.content_rating)),
        tone: crate::text::clone_opt_string(&draft.tone),
        draft_origin: crate::text::clone_opt_string(&existing.draft_origin),
        updated_at: now,
    }
}

/// A scene moved to another slot: the destination's book, chapter and
/// order, stamped `now`; everything else unchanged.
pub fn move_scene_to(
    scene: Scene,
    book_id: String,
    chapter_id: String,
    book_number: i32,
    chapter_number: i32,
    scene_order: i32,
    now: Timestamp,
) -> (r: Scene)
    ensures
        r == (Scene {
            book_id,
            chapter_id,
            book_number,
            chapter_number,
            scene_order,
            updated_at: now,
            ..scene
        }),
{
    Scene { book_id, chapter_id, book_number, chapter_number, scene_order, updated_at: now, ..scene }
}

/// What saving a draft over a stored scene keeps: when the draft changes
/// the scene, a version holding the scene's prior content numbered one
/// after the highest it had, and reviews go stale exactly when asked; when
/// it changes nothing, no version and no stale review.
pub proof fn law_draft_save_keeps_prior_content(
    existing: Scene,
    draft: SceneDraft,
    stale_on_update: bool,
    max_version: i64,
)
    requires
        0 <= max_version < i32::MAX,
    ensures
        ({
            let changed = spec_scene_changed(existing, draft);
            &&& spec_scene_write(Some(existing), draft, stale_on_update) == (SceneWrite::Update {
                changed,
                mark_reviews_stale: stale_on_update && changed,
            })
            &&& version_row_of(existing, max_version).version_number == max_version + 1
            &&& version_row_of(existing, max_version).full_text == existing.full_text
            &&& version_row_of(existing, max_version).summary == existing.summary
            &&& version_row_of(existing, max_version).content_rating == existing.content_rating
            &&& version_row_of(existing, max_version).tone == existing.tone
        }),
{
}

} // verus!
