//! Merging a slice of one branch into another: which target scenes a
//! source scene overwrites, which it adds, and how character states and
//! relationship edges are carried over to the target branch.

use vstd::prelude::*;
use crate::records::{CharacterState, RelatesTo, Scene};
use crate::row::Timestamp;
use crate::ids::{is_minted_id, mint_id_local};
use crate::text::{clone_opt_string, clone_strings, to_owned_string};

verus! {

/// The prose a merged scene carries over.
pub struct SceneContent {
    pub full_text: String,
    pub summary: String,
    pub content_rating: String,
    pub tone: Option<String>,
}

/// What merging one source scene does to the target branch.
pub enum SceneMergeStep {
    /// Overwrite the target scene `id` with the source's prose.
    Update { id: String, content: SceneContent },
    /// Add a scene with a fresh `id` at the source's position.
    Insert {
        id: String,
        branch_id: String,
        book_id: String,
        chapter_id: String,
        book_number: i32,
        chapter_number: i32,
        scene_order: i32,
        content: SceneContent,
    },
}

pub open spec fn content_of(c: SceneContent, s: Scene) -> bool {
    &&& c.full_text == s.full_text
    &&& c.summary == s.summary
    &&& c.content_rating == s.content_rating
    &&& c.tone == s.tone
}

/// The id of the first target scene at `(b, c, o)`, scanning from `i`.
pub open spec fn target_id_at(
    targets: Seq<(i32, i32, i32, String)>,
    b: i32,
    c: i32,
    o: i32,
    i: int,
) -> Option<Seq<char>>
    decreases targets.len() - i,
{
    if i < 0 || i >= targets.len() {
        None
    } else if targets[i].0 == b && targets[i].1 == c && targets[i].2 == o {
        Some(targets[i].3@)
    } else {
        target_id_at(targets, b, c, o, i + 1)
    }
}

/// The id of the first scene inserted at `(b, c, o)` by the first `n` steps.
pub open spec fn inserted_id_at(steps: Seq<SceneMergeStep>, b: i32, c: i32, o: i32, n: int) -> Option<
    Seq<char>,
>
    decreases n,
{
    if n <= 0 {
        None
    } else {
        let earlier = inserted_id_at(steps, b, c, o, n - 1);
        if earlier is Some {
            earlier
        } else {
            match steps[n - 1] {
                SceneMergeStep::Insert { id, book_number, chapter_number, scene_order, .. } => {
                    if book_number == b && chapter_number == c && scene_order == o {
                        Some(id@)
                    } else {
                        None
                    }
                },
                _ => None,
            }
        }
    }
}

/// The scene a source scene lands on after the first `n` steps: the target
/// branch's scene at that position, else one an earlier step inserted.
pub open spec fn scene_at(
    targets: Seq<(i32, i32, i32, String)>,
    steps: Seq<SceneMergeStep>,
    b: i32,
    c: i32,
    o: i32,
    n: int,
) -> Option<Seq<char>> {
    match target_id_at(targets, b, c, o, 0) {
        Some(id) => Some(id),
        None => inserted_id_at(steps, b, c, o, n),
    }
}

/// A source scene overwrites the scene at its position, keeping that
/// scene's id, or is added to the target branch with a fresh id.
pub open spec fn merge_step_of(
    step: SceneMergeStep,
    existing: Option<Seq<char>>,
    s: Scene,
    branch: Seq<char>,
) -> bool {
    match existing {
        Some(id) => step matches SceneMergeStep::Update { id: i, content } && i@ == id
            && content_of(content, s),
        None => step matches SceneMergeStep::Insert {
            id,
            branch_id,
            book_id,
            chapter_id,
            book_number,
            chapter_number,
            scene_order,
            content,
        } && is_minted_id("scene"@, id@) && branch_id@ == branch && book_id == s.book_id
            && chapter_id == s.chapter_id && book_number == s.book_number && chapter_number
            == s.chapter_number && scene_order == s.scene_order && content_of(content, s),
    }
}

/// Whether the plan `steps` is what `plan_branch_merge` gives for
/// `targets` and `sources` on `branch`.
pub open spec fn is_merge_plan(
    targets: Seq<(i32, i32, i32, String)>,
    sources: Seq<Scene>,
    branch: Seq<char>,
    steps: Seq<SceneMergeStep>,
) -> bool {
    &&& steps.len() == sources.len()
    &&& forall|k: int|
        0 <= k < steps.len() ==> merge_step_of(
            #[trigger] steps[k],
            scene_at(
                targets,
                steps,
                sources[k].book_number,
                sources[k].chapter_number,
                sources[k].scene_order,
                k,
            ),
            sources[k],
            branch,
        )
}

proof fn lemma_inserted_prefix(
    steps: Seq<SceneMergeStep>,
    x: SceneMergeStep,
    b: i32,
    c: i32,
    o: i32,
    n: int,
)
    requires
        0 <= n <= steps.len(),
    ensures
        inserted_id_at(steps.push(x), b, c, o, n) == inserted_id_at(steps, b, c, o, n),
    decreases n,
{
    if n > 0 {
        lemma_inserted_prefix(steps, x, b, c, o, n - 1);
        assert(steps.push(x)[n - 1] == steps[n - 1]);
    }
}

fn find_target(targets: &Vec<(i32, i32, i32, String)>, b: i32, c: i32, o: i32) -> (r: Option<
    String,
>)
    ensures
        match r {
            Some(id) => target_id_at(targets@, b, c, o, 0) == Some(id@),
            None => target_id_at(targets@, b, c, o, 0) is None,
        },
{
    let mut i: usize = targets.len();
    let mut found: Option<String> = None;
    while i > 0
        invariant
            i <= targets.len(),
            match found {
                Some(id) => target_id_at(targets@, b, c, o, i as int) == Some(id@),
                None => target_id_at(targets@, b, c, o, i as int) is None,
            },
        decreases i,
    {
        i = i - 1;
        let t = &targets[i];
        if t.0 == b && t.1 == c && t.2 == o {
            found = Some(t.3.clone());
        }
    }
    found
}

fn find_inserted(steps: &Vec<SceneMergeStep>, b: i32, c: i32, o: i32) -> (r: Option<String>)
    ensures
        match r {
            Some(id) => inserted_id_at(steps@, b, c, o, steps@.len() as int) == Some(id@),
            None => inserted_id_at(steps@, b, c, o, steps@.len() as int) is None,
        },
{
    let mut i: usize = 0;
    let mut found: Option<String> = None;
    while i < steps.len()
        invariant
            i <= steps.len(),
            match found {
                Some(id) => inserted_id_at(steps@, b, c, o, i as int) == Some(id@),
                None => inserted_id_at(steps@, b, c, o, i as int) is None,
            },
        decreases steps.len() - i,
    {
        if found.is_none() {
            match &steps[i] {
                SceneMergeStep::Insert { id, book_number, chapter_number, scene_order, .. } => {
                    if *book_number == b && *chapter_number == c && *scene_order == o {
                        found = Some(id.clone());
                    }
                },
                _ => {},
            }
        }
        i = i + 1;
    }
    found
}

fn content_from(s: &Scene) -> (r: SceneContent)
    ensures
        content_of(r, *s),
{
    SceneContent {
        full_text: s.full_text.clone(),
        summary: s.summary.clone(),
        content_rating: s.content_rating.clone(),
        tone: clone_opt_string(&s.tone),
    }
}

/// The scene writes of a merge, one per source scene and in its order.
/// `target_positions` lists the target branch's scenes as
/// `(book, chapter, scene_order, id)`. A source scene whose position holds a
/// target scene, or a scene an earlier step added, overwrites that scene;
/// otherwise it is added to `target_branch_id` with a fresh id.
pub fn plan_branch_merge(
    target_branch_id: &str,
    target_positions: &Vec<(i32, i32, i32, String)>,
    source_scenes: &Vec<Scene>,
) -> (r: Vec<SceneMergeStep>)
    ensures
        is_merge_plan(target_positions@, source_scenes@, target_branch_id@, r@),
{
    let mut out: Vec<SceneMergeStep> = Vec::new();
    let mut k: usize = 0;
    while k < source_scenes.len()
        invariant
            k <= source_scenes.len(),
            out@.len() == k,
            forall|j: int|
                0 <= j < k ==> {
                    let s = source_scenes@[j];
                    merge_step_of(
                        #[trigger] out@[j],
                        scene_at(
                            target_positions@,
                            out@,
                            s.book_number,
                            s.chapter_number,
                            s.scene_order,
                            j,
                        ),
                        s,
                        target_branch_id@,
                    )
                },
        decreases source_scenes.len() - k,
    {
        let s = &source_scenes[k];
        let existing = match find_target(target_positions, s.book_number, s.chapter_number, s.scene_order) {
            Some(id) => Some(id),
            None => find_inserted(&out, s.book_number, s.chapter_number, s.scene_order),
        };
        let step = match existing {
            Some(id) => SceneMergeStep::Update { id, content: content_from(s) },
            None => SceneMergeStep::Insert {
                id: mint_id_local("scene"),
                branch_id: to_owned_string(target_branch_id),
                book_id: s.book_id.clone(),
                chapter_id: s.chapter_id.clone(),
                book_number: s.book_number,
                chapter_number: s.chapter_number,
                scene_order: s.scene_order,
                content: content_from(s),
            },
        };
        let ghost before = out@;
        out.push(step);
        proof {
            assert forall|j: int| #![trigger source_scenes@[j]] 0 <= j <= k implies {
                let t = source_scenes@[j];
                scene_at(target_positions@, out@, t.book_number, t.chapter_number, t.scene_order, j)
                    == scene_at(
                    target_positions@,
                    before,
                    t.book_number,
                    t.chapter_number,
                    t.scene_order,
                    j,
                )
            } by {
                let t = source_scenes@[j];
                lemma_inserted_prefix(before, step, t.book_number, t.chapter_number, t.scene_order, j);
            }
            assert forall|j: int| 0 <= j < k + 1 implies {
                let t = source_scenes@[j];
                merge_step_of(
                    #[trigger] out@[j],
                    scene_at(
                        target_positions@,
                        out@,
                        t.book_number,
                        t.chapter_number,
                        t.scene_order,
                        j,
                    ),
                    t,
                    target_branch_id@,
                )
            } by {
                if j < k {
                    assert(out@[j] == before[j]);
                }
            }
        }
        k = k + 1;
    }
    out
}

/// Where an insert step puts its scene.
pub open spec fn insert_position(step: SceneMergeStep) -> Option<(i32, i32, i32)> {
    match step {
        SceneMergeStep::Insert { book_number, chapter_number, scene_order, .. } => Some(
            (book_number, chapter_number, scene_order),
        ),
        _ => None,
    }
}

proof fn lemma_inserted_seen(steps: Seq<SceneMergeStep>, b: i32, c: i32, o: i32, j: int, n: int)
    requires
        0 <= j < n <= steps.len(),
        insert_position(steps[j]) == Some((b, c, o)),
    ensures
        inserted_id_at(steps, b, c, o, n) is Some,
    decreases n,
{
    if j < n - 1 {
        lemma_inserted_seen(steps, b, c, o, j, n - 1);
    }
}

/// A merge adds at most one scene at any position: two inserts of a plan
/// never share a book, chapter and scene order, so a later source scene at
/// a position an earlier one added overwrites it instead.
pub proof fn law_merge_inserts_once_per_position(
    targets: Seq<(i32, i32, i32, String)>,
    sources: Seq<Scene>,
    branch: Seq<char>,
    steps: Seq<SceneMergeStep>,
    j: int,
    k: int,
)
    requires
        is_merge_plan(targets, sources, branch, steps),
        0 <= j < k < steps.len(),
        insert_position(steps[j]) is Some,
        insert_position(steps[k]) is Some,
    ensures
        insert_position(steps[j]) != insert_position(steps[k]),
{
    let s = sources[k];
    assert(merge_step_of(
        steps[k],
        scene_at(targets, steps, s.book_number, s.chapter_number, s.scene_order, k),
        s,
        branch,
    ));
    if insert_position(steps[j]) == insert_position(steps[k]) {
        lemma_inserted_seen(steps, s.book_number, s.chapter_number, s.scene_order, j, k);
    }
}

// ---------------------------------------------------------------------------
// Character states and relationship edges
// ---------------------------------------------------------------------------

/// A character state carried to the target branch: a fresh id, the target
/// branch, the state's content, stamped `now`.
pub struct MergedState {
    pub id: String,
    pub branch_id: String,
    pub state: CharacterState,
}

/// The state row a merge writes for a source state; it replaces the target
/// branch's state of the same character at the same position.
pub fn restamp_state(state: &CharacterState, target_branch_id: &str, now: Timestamp) -> (r:
    MergedState)
    ensures
        is_minted_id("character_state"@, r.id@),
        r.branch_id@ == target_branch_id@,
        r.state.character_id == state.character_id,
        r.state.scene_id == state.scene_id,
        r.state.book_number == state.book_number,
        r.state.chapter_number == state.chapter_number,
        r.state.scene_order == state.scene_order,
        r.state.emotional_state == state.emotional_state,
        r.state.goals@ == state.goals@,
        r.state.status@ == state.status@,
        r.state.notes@ == state.notes@,
        r.state.source_summary == state.source_summary,
        r.state.created_at == now,
{
    MergedState {
        id: mint_id_local("character_state"),
        branch_id: to_owned_string(target_branch_id),
        state: CharacterState {
            character_id: state.character_id.clone(),
            scene_id: clone_opt_string(&state.scene_id),
            book_number: state.book_number,
            chapter_number: state.chapter_number,
            scene_order: state.scene_order,
            emotional_state: clone_opt_string(&state.emotional_state),
            goals: clone_strings(&state.goals),
            status: clone_strings(&state.status),
            notes: clone_strings(&state.notes),
            source_summary: clone_opt_string(&state.source_summary),
            created_at: now,
        },
    }
}

/// A relationship edge carried to the target branch.
pub struct MergedRelationship {
    pub branch_id: String,
    pub edge: RelatesTo,
}

/// The edge row a merge writes for a source edge; it replaces the target
/// branch's edge with the same ends. Everything is kept but the branch, and
/// it is stamped `now`.
pub fn restamp_relationship(rel: RelatesTo, target_branch_id: &str, now: Timestamp) -> (r:
    MergedRelationship)
    ensures
        r.branch_id@ == target_branch_id@,
        r.edge == (RelatesTo { updated_at: now, ..rel }),
{
    MergedRelationship {
        branch_id: to_owned_string(target_branch_id),
        edge: RelatesTo { updated_at: now, ..rel },
    }
}

} // verus!
