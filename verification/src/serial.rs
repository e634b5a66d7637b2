//! Long-running series: editorial queue decisions, reader-memory selection
//! and episode releases.
//!
//! The service reads rows, hashes manuscript text and calls the reader model;
//! every decision it takes on what it read stands here.

use vstd::prelude::*;
use vstd::string::*;
use crate::records::{Scene, Chapter};
use crate::placement::StoryPlacement;
use crate::digest::{sha256_hex, sha256_hex_utf8};
use crate::text::{int_decimal, nat_decimal, push_u64_decimal, push_i64_decimal, i64_to_decimal, spec_join, views, join_strings, word_count, spec_word_count, clone_opt_string, str_eq, ascii_eq_ignore_case, str_eq_ignore_ascii_case, is_blank, str_is_blank, spec_trim, trim, to_owned_string, truncate_from, truncate_to_bytes};

verus! {

// ---------------------------------------------------------------------------
// Content ratings
// ---------------------------------------------------------------------------

/// Rank of a content rating, compared case-insensitively: general < teen <
/// mature < anything else.
pub open spec fn spec_rating_rank(rating: Seq<char>) -> u8 {
    if ascii_eq_ignore_case(rating, "general"@) {
        0
    } else if ascii_eq_ignore_case(rating, "teen"@) {
        1
    } else if ascii_eq_ignore_case(rating, "mature"@) {
        2
    } else {
        3
    }
}

pub fn serial_rating_rank(rating: &str) -> (r: u8)
    ensures
        r == spec_rating_rank(rating@),
{
    if str_eq_ignore_ascii_case(rating, "general") {
        0
    } else if str_eq_ignore_ascii_case(rating, "teen") {
        1
    } else if str_eq_ignore_ascii_case(rating, "mature") {
        2
    } else {
        3
    }
}

// ---------------------------------------------------------------------------
// Editorial items
// ---------------------------------------------------------------------------

#[derive(Clone, Copy, Debug, PartialEq, Eq, Structural)]
pub enum EditorialStatus {
    Open,
    Accepted,
    Resolved,
    Dismissed,
}

/// One recorded author decision on an editorial item.
pub struct EditorialDecision {
    pub status: EditorialStatus,
    pub note: String,
    pub reviewed_source_hash: Option<String>,
    pub recorded_at: String,
}

/// A reader concern queued for the author, tied to the chapter text it was
/// raised against.
pub struct EditorialItem {
    pub id: String,
    pub project_id: String,
    pub branch_id: String,
    pub book_number: i32,
    pub chapter_number: i32,
    pub source_hash: String,
    pub reader_memory_id: String,
    pub scene_ids: Vec<String>,
    pub severity: String,
    pub description: String,
    pub status: EditorialStatus,
    pub revision: u32,
    pub decisions: Vec<EditorialDecision>,
}

pub struct DecideEditorialItemInput {
    pub project_id: String,
    pub item_id: String,
    pub expected_revision: u32,
    pub reviewed_source_hash: Option<String>,
    pub status: EditorialStatus,
    pub note: String,
}

/// Why an editorial decision was refused.
#[derive(Debug, PartialEq, Eq, Structural)]
pub enum EditorialError {
    /// "editorial note is limited to 4000 bytes"
    NoteTooLong,
    /// "describe the requested revision or how it was resolved"
    NoteRequired,
    /// "editorial decision changed; reload the queue"
    StaleRevision,
    /// "source changed since review; reload the queue and inspect the manuscript"
    SourceChanged,
    /// "source chapter was removed; only resolve or dismiss this item"
    SourceRemoved,
    /// "editorial revision overflow"
    RevisionOverflow,
}

pub open spec fn opt_view(o: Option<String>) -> Option<Seq<char>> {
    match o {
        Some(s) => Some(s@),
        None => None,
    }
}

pub fn opt_string_eq(a: &Option<String>, b: &Option<String>) -> (r: bool)
    ensures
        r == (opt_view(*a) == opt_view(*b)),
{
    match (a, b) {
        (Some(x), Some(y)) => crate::text::str_eq(x.as_str(), y.as_str()),
        (None, None) => true,
        _ => false,
    }
}

/// The checks made on a decision before anything is read: the note fits in
/// 4000 bytes, and accepting or resolving an item says what to do or what
/// was done.
pub open spec fn spec_note_error(status: EditorialStatus, note: &str) -> Option<EditorialError> {
    if note.len() > 4000 {
        Some(EditorialError::NoteTooLong)
    } else if (status == EditorialStatus::Accepted || status == EditorialStatus::Resolved)
        && is_blank(note@) {
        Some(EditorialError::NoteRequired)
    } else {
        None
    }
}

pub fn check_decision_note(status: EditorialStatus, note: &str) -> (r: Result<(), EditorialError>)
    ensures
        match r {
            Ok(()) => spec_note_error(status, note) is None,
            Err(e) => spec_note_error(status, note) == Some(e),
        },
{
    if note.len() > 4000 {
        return Err(EditorialError::NoteTooLong);
    }
    let asks_for_note = match status {
        EditorialStatus::Accepted | EditorialStatus::Resolved => true,
        _ => false,
    };
    if asks_for_note && str_is_blank(note) {
        return Err(EditorialError::NoteRequired);
    }
    Ok(())
}

/// The checks made once the item and the chapter's current source hash
/// are read: the decision was made on the item's latest revision, against
/// the text that is there now, and a removed chapter can only be resolved
/// or dismissed.
pub open spec fn spec_decision_error(
    revision: u32,
    expected_revision: u32,
    reviewed: Option<Seq<char>>,
    current: Option<Seq<char>>,
    status: EditorialStatus,
) -> Option<EditorialError> {
    if revision != expected_revision {
        Some(EditorialError::StaleRevision)
    } else if current != reviewed {
        Some(EditorialError::SourceChanged)
    } else if current is None && !(status == EditorialStatus::Dismissed || status
        == EditorialStatus::Resolved) {
        Some(EditorialError::SourceRemoved)
    } else if revision == u32::MAX {
        Some(EditorialError::RevisionOverflow)
    } else {
        None
    }
}

/// Record an author decision on an editorial item.
///
/// `current_source_hash` is the hash of the item's chapter as it reads now
/// (`None` when the chapter is gone); `recorded_at` is the decision time.
/// On success the item takes the new status, its revision goes up by one
/// and the decision, with the trimmed note, is appended; nothing else of the
/// item changes.
pub fn apply_editorial_decision(
    item: EditorialItem,
    expected_revision: u32,
    reviewed_source_hash: Option<String>,
    status: EditorialStatus,
    note: &str,
    current_source_hash: &Option<String>,
    recorded_at: String,
) -> (r: Result<EditorialItem, EditorialError>)
    ensures
        match r {
            Ok(out) => {
                &&& spec_decision_error(
                    item.revision,
                    expected_revision,
                    opt_view(reviewed_source_hash),
                    opt_view(*current_source_hash),
                    status,
                ) is None
                &&& out.status == status
                &&& out.revision == item.revision + 1
                &&& out.decisions@.len() == item.decisions@.len() + 1
                &&& forall|i: int|
                    0 <= i < item.decisions@.len() ==> out.decisions@[i] == item.decisions@[i]
                &&& out.decisions@.last().status == status
                &&& out.decisions@.last().note@ == spec_trim(note@)
                &&& out.decisions@.last().reviewed_source_hash == reviewed_source_hash
                &&& out.decisions@.last().recorded_at == recorded_at
                &&& out.id == item.id
                &&& out.project_id == item.project_id
                &&& out.branch_id == item.branch_id
                &&& out.book_number == item.book_number
                &&& out.chapter_number == item.chapter_number
                &&& out.source_hash == item.source_hash
                &&& out.reader_memory_id == item.reader_memory_id
                &&& out.scene_ids == item.scene_ids
                &&& out.severity == item.severity
                &&& out.description == item.description
            },
            Err(e) => spec_decision_error(
                item.revision,
                expected_revision,
                opt_view(reviewed_source_hash),
                opt_view(*current_source_hash),
                status,
            ) == Some(e),
        },
{
    if item.revision != expected_revision {
        return Err(EditorialError::StaleRevision);
    }
    if !opt_string_eq(current_source_hash, &reviewed_source_hash) {
        return Err(EditorialError::SourceChanged);
    }
    let closes = match status {
        EditorialStatus::Dismissed | EditorialStatus::Resolved => true,
        _ => false,
    };
    if current_source_hash.is_none() && !closes {
        return Err(EditorialError::SourceRemoved);
    }
    if item.revision == u32::MAX {
        return Err(EditorialError::RevisionOverflow);
    }
    let mut item = item;
    item.status = status;
    item.revision = item.revision + 1;
    let trimmed = to_owned_string(trim(note));
    item.decisions.push(
        EditorialDecision { status, note: trimmed, reviewed_source_hash, recorded_at },
    );
    Ok(item)
}

/// A decision cannot be replayed: once a decision taken against revision
/// `n` has been recorded, the same decision is refused as stale.
pub proof fn law_decision_not_replayable(
    revision: u32,
    expected_revision: u32,
    reviewed: Option<Seq<char>>,
    current: Option<Seq<char>>,
    status: EditorialStatus,
)
    requires
        spec_decision_error(revision, expected_revision, reviewed, current, status) is None,
    ensures
        spec_decision_error((revision + 1) as u32, expected_revision, reviewed, current, status)
            == Some(EditorialError::StaleRevision),
{
}

/// Once the manuscript changes, a decision made against the old text is
/// refused: whatever the revision, a reviewed hash that differs from the
/// current one never passes.
pub proof fn law_decision_requires_current_source(
    revision: u32,
    expected_revision: u32,
    reviewed: Option<Seq<char>>,
    current: Option<Seq<char>>,
    status: EditorialStatus,
)
    requires
        reviewed != current,
    ensures
        spec_decision_error(revision, expected_revision, reviewed, current, status) is Some,
{
}

// ---------------------------------------------------------------------------
// Editorial queue
// ---------------------------------------------------------------------------

/// Without a status filter the queue shows what still needs the author:
/// everything but resolved and dismissed items.
pub open spec fn queue_visible(filter: Option<EditorialStatus>, s: EditorialStatus) -> bool {
    match filter {
        None => !(s == EditorialStatus::Resolved || s == EditorialStatus::Dismissed),
        Some(f) => f == s,
    }
}

fn status_visible(filter: Option<EditorialStatus>, s: EditorialStatus) -> (r: bool)
    ensures
        r == queue_visible(filter, s),
{
    match filter {
        None => match s {
            EditorialStatus::Resolved | EditorialStatus::Dismissed => false,
            _ => true,
        },
        Some(f) => f == s,
    }
}

/// The items the queue shows, in stored order.
pub open spec fn visible_items(items: Seq<EditorialItem>, filter: Option<EditorialStatus>) -> Seq<
    EditorialItem,
>
    decreases items.len(),
{
    if items.len() == 0 {
        Seq::empty()
    } else {
        let rest = visible_items(items.drop_last(), filter);
        if queue_visible(filter, items.last().status) {
            rest.push(items.last())
        } else {
            rest
        }
    }
}

/// Page size: 30 by default, clamped to 1..=100.
pub open spec fn spec_queue_limit(limit: Option<usize>) -> usize {
    let l = match limit {
        Some(l) => l,
        None => 30,
    };
    if l < 1 {
        1
    } else if l > 100 {
        100
    } else {
        l
    }
}

pub open spec fn sat_add(a: usize, b: usize) -> usize {
    if a + b > usize::MAX {
        usize::MAX
    } else {
        (a + b) as usize
    }
}

fn saturating_add(a: usize, b: usize) -> (r: usize)
    ensures
        r == sat_add(a, b),
{
    if a > usize::MAX - b {
        usize::MAX
    } else {
        a + b
    }
}

pub open spec fn min_int(a: int, b: int) -> int {
    if a <= b {
        a
    } else {
        b
    }
}

/// `s.iter().skip(offset).take(limit)`.
pub open spec fn page_of<A>(s: Seq<A>, offset: int, limit: int) -> Seq<A> {
    s.subrange(min_int(offset, s.len() as int), min_int(offset + limit, s.len() as int))
}

/// Paging walks a listing without gaps or repeats: the page at `offset` and
/// the page that follows it (at `offset + limit`) together are the page of
/// both sizes at `offset`.
pub proof fn law_pages_tile<A>(s: Seq<A>, offset: int, limit: int, next_limit: int)
    requires
        0 <= offset,
        0 <= limit,
        0 <= next_limit,
    ensures
        page_of(s, offset, limit) + page_of(s, offset + limit, next_limit) == page_of(
            s,
            offset,
            limit + next_limit,
        ),
{
    assert(page_of(s, offset, limit) + page_of(s, offset + limit, next_limit) =~= page_of(
        s,
        offset,
        limit + next_limit,
    ));
}

/// A page of the editorial queue.
pub struct EditorialPage {
    pub items: Vec<EditorialItem>,
    pub total: usize,
    pub next_offset: Option<usize>,
}

pub open spec fn spec_next_offset(offset: usize, limit: usize, total: usize) -> Option<usize> {
    if sat_add(offset, limit) < total {
        Some(sat_add(offset, limit))
    } else {
        None
    }
}

proof fn lemma_page_step<A>(v: Seq<A>, x: A, offset: int, limit: int)
    requires
        0 <= offset,
        1 <= limit,
    ensures
        page_of(v.push(x), offset, limit) == if offset <= v.len() < offset + limit {
            page_of(v, offset, limit).push(x)
        } else {
            page_of(v, offset, limit)
        },
{
    if offset <= v.len() < offset + limit {
        assert(page_of(v.push(x), offset, limit) =~= page_of(v, offset, limit).push(x));
    } else {
        assert(page_of(v.push(x), offset, limit) =~= page_of(v, offset, limit));
    }
}

/// Filter the queue by status (open work when no status is asked for),
/// count what matched, and cut the requested page.
pub fn editorial_queue_page(
    items: Vec<EditorialItem>,
    status: Option<EditorialStatus>,
    offset: Option<usize>,
    limit: Option<usize>,
) -> (r: EditorialPage)
    ensures
        ({
            let visible = visible_items(items@, status);
            let off = match offset {
                Some(o) => o,
                None => 0,
            };
            let lim = spec_queue_limit(limit);
            &&& r.total == visible.len()
            &&& r.items@ == page_of(visible, off as int, lim as int)
            &&& r.next_offset == spec_next_offset(off, lim, r.total)
        }),
{
    let off: usize = match offset {
        Some(o) => o,
        None => 0,
    };
    let raw: usize = match limit {
        Some(l) => l,
        None => 30,
    };
    let lim: usize = if raw < 1 {
        1
    } else if raw > 100 {
        100
    } else {
        raw
    };
    let ghost orig = items@;
    let mut rest = items;
    let mut page: Vec<EditorialItem> = Vec::new();
    let mut total: usize = 0;
    let mut i: usize = 0;
    assert(orig.len() == rest.len());
    while rest.len() > 0
        invariant
            i <= orig.len(),
            orig.len() <= usize::MAX,
            i + rest@.len() == orig.len(),
            rest@ == orig.skip(i as int),
            total == visible_items(orig.take(i as int), status).len(),
            total <= i,
            page@ == page_of(visible_items(orig.take(i as int), status), off as int, lim as int),
            1 <= lim,
        decreases rest.len(),
    {
        let ghost before = visible_items(orig.take(i as int), status);
        let x = rest.remove(0);
        proof {
            assert(orig.take(i + 1).drop_last() =~= orig.take(i as int));
            assert(orig.take(i + 1).last() == x);
            lemma_page_step(before, x, off as int, lim as int);
        }
        if status_visible(status, x.status) {
            if off <= total && total - off < lim {
                page.push(x);
            }
            total = total + 1;
        }
        i = i + 1;
        assert(rest@ =~= orig.skip(i as int));
    }
    assert(orig.take(i as int) =~= orig);
    let next = saturating_add(off, lim);
    let next_offset = if next < total {
        Some(next)
    } else {
        None
    };
    EditorialPage { items: page, total, next_offset }
}

/// The current hash of each chapter up to a reading cursor.
pub struct ChapterHash {
    pub book_number: i32,
    pub chapter_number: i32,
    pub hash: String,
}

/// The hash recorded for a chapter: the first entry at that position.
pub open spec fn spec_hash_at(hashes: Seq<ChapterHash>, book: i32, chapter: i32) -> Option<
    Seq<char>,
>
    decreases hashes.len(),
{
    if hashes.len() == 0 {
        None
    } else if hashes[0].book_number == book && hashes[0].chapter_number == chapter {
        Some(hashes[0].hash@)
    } else {
        spec_hash_at(hashes.drop_first(), book, chapter)
    }
}

pub fn hash_at(hashes: &Vec<ChapterHash>, book: i32, chapter: i32) -> (r: Option<String>)
    ensures
        opt_view(r) == spec_hash_at(hashes@, book, chapter),
{
    let mut i: usize = 0;
    assert(hashes@.skip(0) =~= hashes@);
    while i < hashes.len()
        invariant
            i <= hashes.len(),
            spec_hash_at(hashes@, book, chapter) == spec_hash_at(
                hashes@.skip(i as int),
                book,
                chapter,
            ),
        decreases hashes.len() - i,
    {
        assert(hashes@.skip(i as int).drop_first() =~= hashes@.skip(i + 1));
        assert(hashes@.skip(i as int)[0] == hashes@[i as int]);
        if hashes[i].book_number == book && hashes[i].chapter_number == chapter {
            return Some(hashes[i].hash.clone());
        }
        i = i + 1;
    }
    None
}

/// The latest chapter position on a page, whose hashes cover the page.
pub fn latest_queue_position(page: &Vec<EditorialItem>) -> (r: Option<(i32, i32)>)
    ensures
        match r {
            None => page@.len() == 0,
            Some((b, c)) => {
                &&& exists|k: int|
                    0 <= k < page@.len() && page@[k].book_number == b && page@[k].chapter_number
                        == c
                &&& forall|j: int|
                    0 <= j < page@.len() ==> crate::placement::key_le(
                        (page@[j].book_number, page@[j].chapter_number, 0),
                        (b, c, 0),
                    )
            },
        },
{
    if page.len() == 0 {
        return None;
    }
    let mut best: (i32, i32) = (page[0].book_number, page[0].chapter_number);
    let ghost mut best_k: int = 0;
    let mut i: usize = 1;
    while i < page.len()
        invariant
            1 <= i <= page.len(),
            0 <= best_k < page@.len(),
            page@[best_k].book_number == best.0 && page@[best_k].chapter_number == best.1,
            forall|j: int|
                0 <= j < i ==> crate::placement::key_le(
                    (page@[j].book_number, page@[j].chapter_number, 0),
                    (best.0, best.1, 0),
                ),
        decreases page.len() - i,
    {
        let b = page[i].book_number;
        let c = page[i].chapter_number;
        if b > best.0 || (b == best.0 && c >= best.1) {
            best = (b, c);
            proof {
                best_k = i as int;
            }
        }
        i = i + 1;
    }
    Some(best)
}

/// An item as the queue presents it: with the chapter's current hash and
/// whether the text changed since the concern was raised.
pub struct EditorialItemView {
    pub item: EditorialItem,
    pub current_source_hash: Option<String>,
    pub source_changed: bool,
}

pub struct EditorialQueueOutput {
    pub items: Vec<EditorialItemView>,
    pub total: usize,
    pub next_offset: Option<usize>,
}

/// Attach the current source hash to every item of a page.
pub fn editorial_queue_output(page: EditorialPage, hashes: &Vec<ChapterHash>) -> (r:
    EditorialQueueOutput)
    ensures
        r.total == page.total,
        r.next_offset == page.next_offset,
        r.items@.len() == page.items@.len(),
        forall|i: int|
            0 <= i < r.items@.len() ==> {
                let it = page.items@[i];
                let current = spec_hash_at(hashes@, it.book_number, it.chapter_number);
                &&& (#[trigger] r.items@[i]).item == it
                &&& opt_view(r.items@[i].current_source_hash) == current
                &&& r.items@[i].source_changed == (current != Some(it.source_hash@))
            },
{
    let ghost orig = page.items@;
    let mut rest = page.items;
    let mut out: Vec<EditorialItemView> = Vec::new();
    while rest.len() > 0
        invariant
            out@.len() + rest@.len() == orig.len(),
            rest@ == orig.skip(out@.len() as int),
            forall|i: int|
                0 <= i < out@.len() ==> {
                    let it = orig[i];
                    let current = spec_hash_at(hashes@, it.book_number, it.chapter_number);
                    &&& (#[trigger] out@[i]).item == it
                    &&& opt_view(out@[i].current_source_hash) == current
                    &&& out@[i].source_changed == (current != Some(it.source_hash@))
                },
        decreases rest.len(),
    {
        let ghost n = out@.len();
        let item = rest.remove(0);
        assert(item == orig[n as int]);
        let current = hash_at(hashes, item.book_number, item.chapter_number);
        let changed = match &current {
            Some(h) => !crate::text::str_eq(h.as_str(), item.source_hash.as_str()),
            None => true,
        };
        out.push(EditorialItemView { item, current_source_hash: current, source_changed: changed });
        assert(rest@ =~= orig.skip(out@.len() as int));
    }
    EditorialQueueOutput { items: out, total: page.total, next_offset: page.next_offset }
}

// ---------------------------------------------------------------------------
// Episode releases
// ---------------------------------------------------------------------------

/// A released scene: its text is pinned by its SHA-256.
pub struct ReleasedScene {
    pub scene_id: String,
    pub scene_order: i32,
    pub text_sha256: String,
    pub content_rating: String,
    pub draft_origin: Option<String>,
}

/// What a release freezes of a chapter.
pub struct EpisodeSnapshot {
    pub project_id: String,
    pub branch_id: String,
    pub book_number: i32,
    pub chapter_number: i32,
    pub markdown: String,
    pub title: String,
    pub word_count: usize,
    pub scenes: Vec<ReleasedScene>,
}

pub struct EpisodeReleasePreview {
    pub snapshot: EpisodeSnapshot,
    pub source_hash: String,
    pub blocking_issues: Vec<String>,
    pub previous_release_id: Option<String>,
}

pub struct EpisodeRelease {
    pub id: String,
    pub revision: u32,
    pub source_hash: String,
    pub previous_release_id: Option<String>,
    pub released_at: String,
    pub note: Option<String>,
    pub snapshot: EpisodeSnapshot,
}

pub struct ReleaseEpisodeInput {
    pub project_id: String,
    pub book_number: i32,
    pub chapter_number: i32,
    pub expected_source_hash: String,
    pub previous_release_id: Option<String>,
    pub note: Option<String>,
}

/// Why a release was refused.
#[derive(Debug)]
pub enum ReleaseError {
    /// "episode is not ready: {issues}", the blocking issues joined by "; "
    NotReady { issues: String },
    /// "episode changed since preview; prepare the release again"
    ChangedSincePreview,
    /// "release history changed; prepare the release again before correcting it"
    HistoryChanged,
    /// "release revision overflow"
    RevisionOverflow,
}

/// What releasing does, given the preview as it reads now and the latest
/// recorded release of the chapter.
pub enum ReleaseDecision {
    NotReady,
    ChangedSincePreview,
    /// The same text was already released: the retry returns that release.
    AlreadyReleased,
    HistoryChanged,
    RevisionOverflow,
    /// A new release with this revision.
    Create { revision: u32 },
}

pub open spec fn spec_release_decision(
    ready: bool,
    preview_hash: Seq<char>,
    expected_hash: Seq<char>,
    previous: Option<(u32, Seq<char>)>,
    preview_previous_id: Option<Seq<char>>,
    input_previous_id: Option<Seq<char>>,
) -> ReleaseDecision {
    if !ready {
        ReleaseDecision::NotReady
    } else if preview_hash != expected_hash {
        ReleaseDecision::ChangedSincePreview
    } else if (match previous {
        Some((_, h)) => h == preview_hash,
        None => false,
    }) {
        ReleaseDecision::AlreadyReleased
    } else if preview_previous_id != input_previous_id {
        ReleaseDecision::HistoryChanged
    } else {
        match previous {
            None => ReleaseDecision::Create { revision: 1 },
            Some((rev, _)) => if rev == u32::MAX {
                ReleaseDecision::RevisionOverflow
            } else {
                ReleaseDecision::Create { revision: (rev + 1) as u32 }
            },
        }
    }
}

pub open spec fn release_summary(previous: Option<EpisodeRelease>) -> Option<(u32, Seq<char>)> {
    match previous {
        Some(p) => Some((p.revision, p.source_hash@)),
        None => None,
    }
}

/// Release a chapter: refuse while anything blocks it or the text changed
/// since the preview; a retry of a release already recorded for the same
/// text returns that release; otherwise record a new revision whose parent
/// is the release the preview was made against. `new_id` and `released_at`
/// are the identifier and time the new release gets.
pub fn release_episode(
    preview: EpisodeReleasePreview,
    input: ReleaseEpisodeInput,
    previous: Option<EpisodeRelease>,
    new_id: String,
    released_at: String,
) -> (r: Result<EpisodeRelease, ReleaseError>)
    ensures
        ({
            let d = spec_release_decision(
                preview.blocking_issues@.len() == 0,
                preview.source_hash@,
                input.expected_source_hash@,
                release_summary(previous),
                opt_view(preview.previous_release_id),
                opt_view(input.previous_release_id),
            );
            match d {
                ReleaseDecision::NotReady => r == Err::<EpisodeRelease, ReleaseError>(
                    ReleaseError::NotReady {
                        issues: r->Err_0->issues,
                    },
                ) && r->Err_0->issues@ == spec_join(views(preview.blocking_issues@), "; "@),
                ReleaseDecision::ChangedSincePreview => r == Err::<EpisodeRelease, ReleaseError>(
                    ReleaseError::ChangedSincePreview,
                ),
                ReleaseDecision::AlreadyReleased => r == Ok::<EpisodeRelease, ReleaseError>(
                    previous->0,
                ),
                ReleaseDecision::HistoryChanged => r == Err::<EpisodeRelease, ReleaseError>(
                    ReleaseError::HistoryChanged,
                ),
                ReleaseDecision::RevisionOverflow => r == Err::<EpisodeRelease, ReleaseError>(
                    ReleaseError::RevisionOverflow,
                ),
                ReleaseDecision::Create { revision } => r == Ok::<EpisodeRelease, ReleaseError>(
                    EpisodeRelease {
                        id: new_id,
                        revision,
                        source_hash: preview.source_hash,
                        previous_release_id: preview.previous_release_id,
                        released_at,
                        note: input.note,
                        snapshot: preview.snapshot,
                    },
                ),
            }
        }),
{
    if preview.blocking_issues.len() > 0 {
        let issues = join_strings(&preview.blocking_issues, "; ");
        return Err(ReleaseError::NotReady { issues });
    }
    if preview.source_hash != input.expected_source_hash {
        return Err(ReleaseError::ChangedSincePreview);
    }
    let previous_revision: Option<u32> = match &previous {
        Some(p) => Some(p.revision),
        None => None,
    };
    if let Some(p) = previous {
        if p.source_hash == preview.source_hash {
            return Ok(p);
        }
    }
    if !opt_string_eq(&preview.previous_release_id, &input.previous_release_id) {
        return Err(ReleaseError::HistoryChanged);
    }
    let revision: u32 = match previous_revision {
        None => 1,
        Some(rev) => {
            if rev == u32::MAX {
                return Err(ReleaseError::RevisionOverflow);
            }
            rev + 1
        },
    };
    Ok(
        EpisodeRelease {
            id: new_id,
            revision,
            source_hash: preview.source_hash,
            previous_release_id: preview.previous_release_id,
            released_at,
            note: input.note,
            snapshot: preview.snapshot,
        },
    )
}

/// Retrying a release is idempotent: once a release of text `h` is
/// recorded, releasing the same ready preview of `h` again returns it.
pub proof fn law_release_retry_returns_recorded(
    h: Seq<char>,
    revision: u32,
    preview_previous_id: Option<Seq<char>>,
    input_previous_id: Option<Seq<char>>,
)
    ensures
        spec_release_decision(
            true,
            h,
            h,
            Some((revision, h)),
            preview_previous_id,
            input_previous_id,
        ) is AlreadyReleased,
{
}

/// The first release of a chapter is revision 1; a correction of changed
/// text is the next revision, made against the release it replaces.
pub proof fn law_release_revisions_count_up(
    h: Seq<char>,
    old_h: Seq<char>,
    revision: u32,
    parent: Option<Seq<char>>,
)
    requires
        old_h != h,
        revision < u32::MAX,
    ensures
        spec_release_decision(true, h, h, None, parent, parent) == (ReleaseDecision::Create {
            revision: 1,
        }),
        spec_release_decision(true, h, h, Some((revision, old_h)), parent, parent) == (
        ReleaseDecision::Create { revision: (revision + 1) as u32 }),
{
}

/// A release is never made against text other than the previewed text, nor
/// while anything blocks it.
pub proof fn law_release_requires_ready_current_preview(
    ready: bool,
    preview_hash: Seq<char>,
    expected_hash: Seq<char>,
    previous: Option<(u32, Seq<char>)>,
    preview_previous_id: Option<Seq<char>>,
    input_previous_id: Option<Seq<char>>,
)
    requires
        !ready || preview_hash != expected_hash,
    ensures
        !(spec_release_decision(
            ready,
            preview_hash,
            expected_hash,
            previous,
            preview_previous_id,
            input_previous_id,
        ) is Create),
        !(spec_release_decision(
            ready,
            preview_hash,
            expected_hash,
            previous,
            preview_previous_id,
            input_previous_id,
        ) is AlreadyReleased),
{
}

// ---------------------------------------------------------------------------
// Episode preview
// ---------------------------------------------------------------------------

/// A release placement is a positive book and a chapter in `0..chapter_radix`.
pub fn valid_episode_placement(book_number: i32, chapter_number: i32, chapter_radix: i32) -> (r:
    bool)
    ensures
        r == (book_number > 0 && 0 <= chapter_number < chapter_radix),
{
    book_number > 0 && 0 <= chapter_number && chapter_number < chapter_radix
}

/// The project's minimum scene length when it sets a positive one that fits
/// in `usize`, else `default`.
pub fn effective_min_scene_words(configured: Option<i64>, default: usize) -> (r: usize)
    ensures
        r == (match configured {
            Some(n) => if 0 < n <= usize::MAX {
                n as usize
            } else {
                default
            },
            None => default,
        }),
{
    match configured {
        Some(n) => {
            if n > 0 && (n as u64) <= (usize::MAX as u64) {
                n as usize
            } else {
                default
            }
        },
        None => default,
    }
}

pub open spec fn scene_msg_prefix(order: i32) -> Seq<char> {
    "Scene "@ + int_decimal(order as int)
}

pub open spec fn not_drafted_msg(order: i32) -> Seq<char> {
    scene_msg_prefix(order) + " is not drafted"@
}

pub open spec fn inconsistent_ref_msg(order: i32) -> Seq<char> {
    scene_msg_prefix(order) + " has an inconsistent chapter reference"@
}

pub open spec fn stub_msg(order: i32, reason: Seq<char>) -> Seq<char> {
    scene_msg_prefix(order) + ": "@ + reason
}

pub open spec fn has_scene_order(scenes: Seq<Scene>, order: i32) -> bool {
    exists|i: int| 0 <= i < scenes.len() && scenes[i].scene_order == order
}

/// One message per planned scene that has no draft, in plan order.
pub open spec fn missing_plan_msgs(planned: Seq<i32>, scenes: Seq<Scene>) -> Seq<Seq<char>>
    decreases planned.len(),
{
    if planned.len() == 0 {
        Seq::empty()
    } else {
        let rest = missing_plan_msgs(planned.drop_last(), scenes);
        if has_scene_order(scenes, planned.last()) {
            rest
        } else {
            rest.push(not_drafted_msg(planned.last()))
        }
    }
}

/// The messages of one drafted scene: a wrong chapter reference, then the
/// reason it still reads as a stub.
pub open spec fn one_scene_msgs(
    scene: Scene,
    stub: Option<String>,
    chapter_id: Seq<char>,
    book_id: Seq<char>,
) -> Seq<Seq<char>> {
    let a = if scene.chapter_id@ != chapter_id || scene.book_id@ != book_id {
        seq![inconsistent_ref_msg(scene.scene_order)]
    } else {
        Seq::empty()
    };
    let b = match stub {
        Some(reason) => seq![stub_msg(scene.scene_order, reason@)],
        None => Seq::empty(),
    };
    a + b
}

pub open spec fn scene_msgs(
    scenes: Seq<Scene>,
    stubs: Seq<Option<String>>,
    chapter_id: Seq<char>,
    book_id: Seq<char>,
    n: int,
) -> Seq<Seq<char>>
    decreases n,
{
    if n <= 0 {
        Seq::empty()
    } else {
        scene_msgs(scenes, stubs, chapter_id, book_id, n - 1) + one_scene_msgs(
            scenes[n - 1],
            stubs[n - 1],
            chapter_id,
            book_id,
        )
    }
}

/// Everything that stops a chapter from being released.
pub open spec fn spec_blocking_issues(
    scenes: Seq<Scene>,
    stubs: Seq<Option<String>>,
    planned: Option<Seq<i32>>,
    chapter_id: Seq<char>,
    book_id: Seq<char>,
) -> Seq<Seq<char>> {
    let no_scenes = if scenes.len() == 0 {
        seq!["No drafted scenes"@]
    } else {
        Seq::empty()
    };
    let no_plan = match planned {
        Some(p) => if p.len() == 0 {
            seq!["No scene plan; plan the episode before releasing it"@]
        } else {
            Seq::empty()
        },
        None => seq!["No scene plan; plan the episode before releasing it"@],
    };
    let missing = match planned {
        Some(p) => missing_plan_msgs(p, scenes),
        None => Seq::empty(),
    };
    no_scenes + no_plan + missing + scene_msgs(scenes, stubs, chapter_id, book_id, scenes.len() as int)
}

fn scene_order_drafted(scenes: &Vec<Scene>, order: i32) -> (r: bool)
    ensures
        r == has_scene_order(scenes@, order),
{
    let mut i: usize = 0;
    while i < scenes.len()
        invariant
            i <= scenes.len(),
            forall|j: int| 0 <= j < i ==> scenes@[j].scene_order != order,
        decreases scenes.len() - i,
    {
        if scenes[i].scene_order == order {
            return true;
        }
        i = i + 1;
    }
    false
}

fn scene_message(order: i32, tail: &str) -> (r: String)
    ensures
        r@ == scene_msg_prefix(order) + tail@,
{
    let mut s = String::new();
    s.append("Scene ");
    push_i64_decimal(&mut s, order as i64);
    s.append(tail);
    proof {
        reveal_strlit("Scene ");
        assert(s@ =~= scene_msg_prefix(order) + tail@);
    }
    s
}

proof fn lemma_views_push(v: Seq<String>, s: String)
    ensures
        views(v.push(s)) == views(v).push(s@),
{
    assert(views(v.push(s)) =~= views(v).push(s@));
}

/// The blocking issues of a chapter, given its drafted scenes (in scene
/// order), the reason each still reads as a stub (`None` when it does not),
/// the planned scene orders, and the chapter row the scenes must point at.
pub fn episode_blocking_issues(
    scenes: &Vec<Scene>,
    stub_reasons: &Vec<Option<String>>,
    planned_orders: &Option<Vec<i32>>,
    chapter: &Chapter,
) -> (r: Vec<String>)
    requires
        stub_reasons@.len() == scenes@.len(),
    ensures
        views(r@) == spec_blocking_issues(
            scenes@,
            stub_reasons@,
            match planned_orders {
                Some(p) => Some(p@),
                None => None,
            },
            chapter.id@,
            chapter.book_id@,
        ),
{
    let mut out: Vec<String> = Vec::new();
    let ghost planned_view: Option<Seq<i32>> = match planned_orders {
        Some(p) => Some(p@),
        None => None,
    };
    if scenes.len() == 0 {
        out.push(to_owned_string("No drafted scenes"));
    }
    let plan_empty = match planned_orders {
        Some(p) => p.len() == 0,
        None => true,
    };
    if plan_empty {
        out.push(to_owned_string("No scene plan; plan the episode before releasing it"));
    }
    let ghost head = views(out@);
    assert(head == (if scenes@.len() == 0 {
        seq!["No drafted scenes"@]
    } else {
        Seq::empty()
    }) + (match planned_view {
        Some(p) => if p.len() == 0 {
            seq!["No scene plan; plan the episode before releasing it"@]
        } else {
            Seq::empty()
        },
        None => seq!["No scene plan; plan the episode before releasing it"@],
    }));
    if let Some(planned) = planned_orders {
        let mut k: usize = 0;
        while k < planned.len()
            invariant
                k <= planned.len(),
                views(out@) == head + missing_plan_msgs(planned@.take(k as int), scenes@),
            decreases planned.len() - k,
        {
            assert(planned@.take(k + 1).drop_last() =~= planned@.take(k as int));
            let order = planned[k];
            if !scene_order_drafted(scenes, order) {
                let msg = scene_message(order, " is not drafted");
                proof {
                    lemma_views_push(out@, msg);
                }
                out.push(msg);
            }
            k = k + 1;
        }
        assert(planned@.take(planned@.len() as int) =~= planned@);
    }
    let ghost head2 = views(out@);
    assert(head2 == head + match planned_view {
        Some(p) => missing_plan_msgs(p, scenes@),
        None => Seq::empty(),
    });
    let mut i: usize = 0;
    while i < scenes.len()
        invariant
            i <= scenes.len(),
            stub_reasons@.len() == scenes@.len(),
            views(out@) == head2 + scene_msgs(
                scenes@,
                stub_reasons@,
                chapter.id@,
                chapter.book_id@,
                i as int,
            ),
        decreases scenes.len() - i,
    {
        let scene = &scenes[i];
        let ghost before = views(out@);
        if !str_eq(scene.chapter_id.as_str(), chapter.id.as_str()) || !str_eq(
            scene.book_id.as_str(),
            chapter.book_id.as_str(),
        ) {
            let msg = scene_message(scene.scene_order, " has an inconsistent chapter reference");
            proof {
                lemma_views_push(out@, msg);
            }
            out.push(msg);
        }
        let ghost mid = views(out@);
        match &stub_reasons[i] {
            Some(reason) => {
                let mut msg = scene_message(scene.scene_order, ": ");
                msg.append(reason.as_str());
                proof {
                    lemma_views_push(out@, msg);
                }
                out.push(msg);
            },
            None => {},
        }
        proof {
            let one = one_scene_msgs(scenes@[i as int], stub_reasons@[i as int], chapter.id@, chapter.book_id@);
            assert(views(out@) =~= before + one);
        }
        i = i + 1;
    }
    assert(views(out@) =~= head2 + scene_msgs(
        scenes@,
        stub_reasons@,
        chapter.id@,
        chapter.book_id@,
        scenes@.len() as int,
    ));
    out
}

/// The chapter's title when it has a non-blank one, else "Chapter {n}".
pub open spec fn spec_episode_title(title: Option<String>, chapter_number: i32) -> Seq<char> {
    match title {
        Some(t) => if !is_blank(t@) {
            t@
        } else {
            "Chapter "@ + int_decimal(chapter_number as int)
        },
        None => "Chapter "@ + int_decimal(chapter_number as int),
    }
}

pub fn episode_title(title: &Option<String>, chapter_number: i32) -> (r: String)
    ensures
        r@ == spec_episode_title(*title, chapter_number),
{
    if let Some(t) = title {
        if !str_is_blank(t.as_str()) {
            return t.clone();
        }
    }
    let mut s = to_owned_string("Chapter ");
    push_i64_decimal(&mut s, chapter_number as i64);
    s
}

pub open spec fn scene_texts(scenes: Seq<Scene>) -> Seq<Seq<char>> {
    scenes.map_values(|s: Scene| s.full_text@)
}

/// The released markdown: the title as a heading, then the scenes separated
/// by a `***` rule.
pub open spec fn spec_episode_markdown(title: Seq<char>, scenes: Seq<Scene>) -> Seq<char> {
    "# "@ + title + "\n\n"@ + spec_join(scene_texts(scenes), "\n\n***\n\n"@) + "\n"@
}

pub fn episode_markdown(title: &str, scenes: &Vec<Scene>) -> (r: String)
    ensures
        r@ == spec_episode_markdown(title@, scenes@),
{
    let mut texts: Vec<String> = Vec::new();
    let mut i: usize = 0;
    while i < scenes.len()
        invariant
            i <= scenes.len(),
            views(texts@) == scene_texts(scenes@.take(i as int)),
        decreases scenes.len() - i,
    {
        let t = scenes[i].full_text.clone();
        proof {
            lemma_views_push(texts@, t);
        }
        texts.push(t);
        i = i + 1;
        assert(scene_texts(scenes@.take(i as int)) =~= scene_texts(scenes@.take(i - 1)).push(
            scenes@[i - 1].full_text@,
        ));
    }
    assert(scenes@.take(scenes@.len() as int) =~= scenes@);
    let body = join_strings(&texts, "\n\n***\n\n");
    let mut s = to_owned_string("# ");
    s.append(title);
    s.append("\n\n");
    s.append(body.as_str());
    s.append("\n");
    s
}

/// Total words of the first `n` scenes.
pub open spec fn total_words(scenes: Seq<Scene>, n: int) -> nat
    decreases n,
{
    if n <= 0 {
        0
    } else {
        total_words(scenes, n - 1) + spec_word_count(scenes[n - 1].full_text@)
    }
}

proof fn lemma_total_words_mono(scenes: Seq<Scene>, a: int, b: int)
    requires
        0 <= a <= b,
    ensures
        total_words(scenes, a) <= total_words(scenes, b),
    decreases b - a,
{
    if a < b {
        lemma_total_words_mono(scenes, a, b - 1);
    }
}

/// The frozen form of a chapter: title, markdown, word count and each
/// scene's text fingerprint.
pub fn episode_snapshot(
    project_id: String,
    branch_id: String,
    book_number: i32,
    chapter: &Chapter,
    scenes: &Vec<Scene>,
) -> (r: EpisodeSnapshot)
    requires
        total_words(scenes@, scenes@.len() as int) <= usize::MAX,
    ensures
        r.project_id == project_id,
        r.branch_id == branch_id,
        r.book_number == book_number,
        r.chapter_number == chapter.chapter_number,
        r.title@ == spec_episode_title(chapter.title, chapter.chapter_number),
        r.markdown@ == spec_episode_markdown(r.title@, scenes@),
        r.word_count == total_words(scenes@, scenes@.len() as int),
        r.scenes@.len() == scenes@.len(),
        forall|i: int|
            0 <= i < scenes@.len() ==> {
                let rs = #[trigger] r.scenes@[i];
                &&& rs.scene_id == scenes@[i].id
                &&& rs.scene_order == scenes@[i].scene_order
                &&& rs.text_sha256@ == sha256_hex_utf8(scenes@[i].full_text@)
                &&& rs.content_rating == scenes@[i].content_rating
                &&& rs.draft_origin == scenes@[i].draft_origin
            },
{
    let title = episode_title(&chapter.title, chapter.chapter_number);
    let markdown = episode_markdown(title.as_str(), scenes);
    let mut words: usize = 0;
    let mut released: Vec<ReleasedScene> = Vec::new();
    let mut i: usize = 0;
    while i < scenes.len()
        invariant
            i <= scenes.len(),
            total_words(scenes@, scenes@.len() as int) <= usize::MAX,
            words == total_words(scenes@, i as int),
            released@.len() == i,
            forall|j: int|
                0 <= j < i ==> {
                    let rs = #[trigger] released@[j];
                    &&& rs.scene_id == scenes@[j].id
                    &&& rs.scene_order == scenes@[j].scene_order
                    &&& rs.text_sha256@ == sha256_hex_utf8(scenes@[j].full_text@)
                    &&& rs.content_rating == scenes@[j].content_rating
                    &&& rs.draft_origin == scenes@[j].draft_origin
                },
        decreases scenes.len() - i,
    {
        let scene = &scenes[i];
        proof {
            lemma_total_words_mono(scenes@, i + 1, scenes@.len() as int);
        }
        words = words + word_count(scene.full_text.as_str());
        released.push(
            ReleasedScene {
                scene_id: scene.id.clone(),
                scene_order: scene.scene_order,
                text_sha256: sha256_hex(scene.full_text.as_str()),
                content_rating: scene.content_rating.clone(),
                draft_origin: clone_opt_string(&scene.draft_origin),
            },
        );
        i = i + 1;
    }
    EpisodeSnapshot {
        project_id,
        branch_id,
        book_number,
        chapter_number: chapter.chapter_number,
        markdown,
        title,
        word_count: words,
        scenes: released,
    }
}

// ---------------------------------------------------------------------------
// Series status
// ---------------------------------------------------------------------------

/// The latest recorded release of a chapter.
pub struct ReleaseSummary {
    pub id: String,
    pub revision: u32,
    pub source_hash: String,
}

/// A chapter of the manuscript as its preview reads now.
pub struct EpisodeState {
    pub book_number: i32,
    pub chapter_number: i32,
    pub title: String,
    pub word_count: usize,
    pub blocking_issues: Vec<String>,
    pub source_hash: String,
    pub release: Option<ReleaseSummary>,
}

pub struct EpisodeStatus {
    pub book_number: i32,
    pub chapter_number: i32,
    pub title: String,
    pub word_count: usize,
    pub ready: bool,
    pub blocking_issues: Vec<String>,
    pub latest_release_id: Option<String>,
    pub release_revision: Option<u32>,
    pub changed_since_release: bool,
}

pub struct SeriesStatusOutput {
    pub project_id: String,
    pub branch_id: String,
    pub published_through: Option<StoryPlacement>,
    pub released_episodes: usize,
    pub draft_backlog: usize,
    pub ready_backlog: usize,
    pub episodes: Vec<EpisodeStatus>,
    pub next_offset: Option<usize>,
}

#[derive(Debug, PartialEq, Eq, Structural)]
pub enum SeriesError {
    /// "limit must be between 1 and 200"
    LimitOutOfRange,
}

/// Chapter `(b, c)` directly follows `prev` in reading order: the first
/// chapter (0 or 1) of book 1 opens the series, and a book continues with
/// the next chapter or gives way to the first chapter of the next book.
pub open spec fn follows(prev: Option<(i32, i32)>, b: i32, c: i32) -> bool {
    match prev {
        None => b == 1 && 0 <= c <= 1,
        Some((pb, pc)) => (b == pb && c == pc + 1) || (b == pb + 1 && 0 <= c <= 1),
    }
}

fn follows_exec(prev: Option<(i32, i32)>, b: i32, c: i32) -> (r: bool)
    ensures
        r == follows(prev, b, c),
{
    match prev {
        None => b == 1 && 0 <= c && c <= 1,
        Some((pb, pc)) => (b == pb && (c as i64) == (pc as i64) + 1) || ((b as i64) == (pb as i64)
            + 1 && 0 <= c && c <= 1),
    }
}

pub open spec fn position_of(e: EpisodeState) -> (i32, i32) {
    (e.book_number, e.chapter_number)
}

pub open spec fn prev_position(chs: Seq<EpisodeState>, i: int) -> Option<(i32, i32)> {
    if i <= 0 {
        None
    } else {
        Some(position_of(chs[i - 1]))
    }
}

/// The first `n` chapters are all released and follow one another.
pub open spec fn released_run(chs: Seq<EpisodeState>, n: int) -> bool
    decreases n,
{
    if n <= 0 {
        true
    } else {
        released_run(chs, n - 1) && follows(
            prev_position(chs, n - 1),
            chs[n - 1].book_number,
            chs[n - 1].chapter_number,
        ) && chs[n - 1].release is Some
    }
}

/// How far the series is published: the last chapter of the longest run of
/// released chapters, in order, that starts the series without a gap.
pub open spec fn published_through(chs: Seq<EpisodeState>, n: int) -> Option<(i32, i32)>
    decreases n,
{
    if n <= 0 {
        None
    } else if released_run(chs, n) {
        Some(position_of(chs[n - 1]))
    } else {
        published_through(chs, n - 1)
    }
}

pub open spec fn count_released(chs: Seq<EpisodeState>, n: int) -> nat
    decreases n,
{
    if n <= 0 {
        0
    } else {
        count_released(chs, n - 1) + if chs[n - 1].release is Some {
            1nat
        } else {
            0nat
        }
    }
}

/// Unreleased chapters that already hold prose.
pub open spec fn count_draft_backlog(chs: Seq<EpisodeState>, n: int) -> nat
    decreases n,
{
    if n <= 0 {
        0
    } else {
        count_draft_backlog(chs, n - 1) + if chs[n - 1].release is None && chs[n - 1].word_count
            > 0 {
            1nat
        } else {
            0nat
        }
    }
}

/// Unreleased chapters with nothing blocking their release.
pub open spec fn count_ready_backlog(chs: Seq<EpisodeState>, n: int) -> nat
    decreases n,
{
    if n <= 0 {
        0
    } else {
        count_ready_backlog(chs, n - 1) + if chs[n - 1].release is None
            && chs[n - 1].blocking_issues@.len() == 0 {
            1nat
        } else {
            0nat
        }
    }
}

/// The chapters the listing shows: those of the requested book, or all.
pub open spec fn shown_episodes(chs: Seq<EpisodeState>, book: Option<i32>) -> Seq<EpisodeState>
    decreases chs.len(),
{
    if chs.len() == 0 {
        Seq::empty()
    } else {
        let rest = shown_episodes(chs.drop_last(), book);
        match book {
            Some(b) => if chs.last().book_number == b {
                rest.push(chs.last())
            } else {
                rest
            },
            None => rest.push(chs.last()),
        }
    }
}

/// The listed status of one chapter.
pub open spec fn status_of(st: EpisodeStatus, e: EpisodeState) -> bool {
    &&& st.book_number == e.book_number
    &&& st.chapter_number == e.chapter_number
    &&& st.title == e.title
    &&& st.word_count == e.word_count
    &&& st.ready == (e.blocking_issues@.len() == 0)
    &&& st.blocking_issues == e.blocking_issues
    &&& match e.release {
        Some(rel) => {
            &&& st.latest_release_id == Some(rel.id)
            &&& st.release_revision == Some(rel.revision)
            &&& st.changed_since_release == (rel.source_hash@ != e.source_hash@)
        },
        None => {
            &&& st.latest_release_id is None
            &&& st.release_revision is None
            &&& !st.changed_since_release
        },
    }
}

proof fn lemma_counts_bounded(chs: Seq<EpisodeState>, n: int)
    requires
        0 <= n,
    ensures
        count_released(chs, n) <= n,
        count_draft_backlog(chs, n) <= n,
        count_ready_backlog(chs, n) <= n,
    decreases n,
{
    if n > 0 {
        lemma_counts_bounded(chs, n - 1);
    }
}

/// The page size of the status and usage listings: 50 by default, at most
/// 200.
pub fn listing_limit(limit: Option<usize>) -> (r: Result<usize, SeriesError>)
    ensures
        match r {
            Ok(l) => 1 <= l <= 200 && l == (match limit {
                Some(x) => x,
                None => 50,
            }),
            Err(e) => e == SeriesError::LimitOutOfRange && !(1 <= (match limit {
                Some(x) => x,
                None => 50,
            }) <= 200),
        },
{
    let l = match limit {
        Some(x) => x,
        None => 50,
    };
    if 1 <= l && l <= 200 {
        Ok(l)
    } else {
        Err(SeriesError::LimitOutOfRange)
    }
}

/// A page of a list: `items.into_iter().skip(offset).take(limit)`.
pub fn take_page<T>(items: Vec<T>, offset: usize, limit: usize) -> (r: Vec<T>)
    requires
        1 <= limit,
    ensures
        r@ == page_of(items@, offset as int, limit as int),
{
    let ghost all = items@;
    let mut rest = items;
    let mut page: Vec<T> = Vec::new();
    let mut k: usize = 0;
    assert(all.len() == rest.len());
    while rest.len() > 0
        invariant
            k <= all.len(),
            all.len() <= usize::MAX,
            k + rest@.len() == all.len(),
            rest@ == all.skip(k as int),
            page@ == page_of(all.take(k as int), offset as int, limit as int),
            1 <= limit,
        decreases rest.len(),
    {
        let x = rest.remove(0);
        proof {
            assert(all.take(k + 1) =~= all.take(k as int).push(x));
            lemma_page_step(all.take(k as int), x, offset as int, limit as int);
        }
        if offset <= k && k - offset < limit {
            page.push(x);
        }
        k = k + 1;
        assert(rest@ =~= all.skip(k as int));
    }
    assert(all.take(k as int) =~= all);
    page
}

/// Running totals over a series.
pub struct SeriesTotals {
    pub published: Option<(i32, i32)>,
    pub released: usize,
    pub drafts: usize,
    pub ready: usize,
}

/// One pass over the chapters in reading order: totals, and the status of
/// every chapter of the requested book (or of all).
fn series_pass(chapters: Vec<EpisodeState>, book_filter: Option<i32>) -> (r: (
    SeriesTotals,
    Vec<EpisodeStatus>,
))
    ensures
        ({
            let chs = chapters@;
            let n = chs.len() as int;
            let shown = shown_episodes(chs, book_filter);
            &&& r.0.published == published_through(chs, n)
            &&& r.0.released == count_released(chs, n)
            &&& r.0.drafts == count_draft_backlog(chs, n)
            &&& r.0.ready == count_ready_backlog(chs, n)
            &&& r.1@.len() == shown.len()
            &&& forall|j: int| 0 <= j < shown.len() ==> status_of(#[trigger] r.1@[j], shown[j])
        }),
{
    let ghost chs = chapters@;
    let mut rest = chapters;
    let mut statuses: Vec<EpisodeStatus> = Vec::new();
    let ghost mut shown_states: Seq<EpisodeState> = Seq::empty();
    let mut released: usize = 0;
    let mut drafts: usize = 0;
    let mut ready: usize = 0;
    let mut contiguous = true;
    let mut previous: Option<(i32, i32)> = None;
    let mut published: Option<(i32, i32)> = None;
    let mut i: usize = 0;
    assert(chs.len() == rest.len());
    while rest.len() > 0
        invariant
            i <= chs.len(),
            chs.len() <= usize::MAX,
            i + rest@.len() == chs.len(),
            rest@ == chs.skip(i as int),
            released == count_released(chs, i as int),
            drafts == count_draft_backlog(chs, i as int),
            ready == count_ready_backlog(chs, i as int),
            contiguous == released_run(chs, i as int),
            previous == prev_position(chs, i as int),
            published == published_through(chs, i as int),
            shown_states == shown_episodes(chs.take(i as int), book_filter),
            statuses@.len() == shown_states.len(),
            forall|j: int|
                0 <= j < statuses@.len() ==> status_of(#[trigger] statuses@[j], shown_states[j]),
        decreases rest.len(),
    {
        let e = rest.remove(0);
        assert(e == chs[i as int]);
        proof {
            lemma_counts_bounded(chs, i as int);
            assert(chs.take(i + 1).drop_last() =~= chs.take(i as int));
            assert(chs.take(i + 1).last() == e);
        }
        let adjacent = follows_exec(previous, e.book_number, e.chapter_number);
        let has_release = e.release.is_some();
        contiguous = contiguous && adjacent && has_release;
        if contiguous {
            published = Some((e.book_number, e.chapter_number));
        }
        previous = Some((e.book_number, e.chapter_number));
        if has_release {
            released = released + 1;
        } else if e.word_count > 0 {
            drafts = drafts + 1;
        }
        let no_issues = e.blocking_issues.len() == 0;
        if !has_release && no_issues {
            ready = ready + 1;
        }
        let show = match book_filter {
            Some(b) => b == e.book_number,
            None => true,
        };
        if show {
            let changed = match &e.release {
                Some(rel) => rel.source_hash != e.source_hash,
                None => false,
            };
            let ghost e_copy = e;
            let (latest_release_id, release_revision) = match e.release {
                Some(rel) => (Some(rel.id), Some(rel.revision)),
                None => (None, None),
            };
            let st = EpisodeStatus {
                book_number: e.book_number,
                chapter_number: e.chapter_number,
                title: e.title,
                word_count: e.word_count,
                ready: no_issues,
                blocking_issues: e.blocking_issues,
                latest_release_id,
                release_revision,
                changed_since_release: changed,
            };
            assert(status_of(st, e_copy));
            statuses.push(st);
            proof {
                shown_states = shown_states.push(e_copy);
            }
        }
        i = i + 1;
        assert(rest@ =~= chs.skip(i as int));
    }
    assert(chs.take(i as int) =~= chs);
    (SeriesTotals { published, released, drafts, ready }, statuses)
}

/// Summarize a series from its chapters in reading order: how far it is
/// published without gaps, how many chapters are released, drafted but
/// unreleased, and ready but unreleased, and one page of per-chapter status
/// (optionally for one book).
pub fn series_status(
    project_id: String,
    branch_id: String,
    chapters: Vec<EpisodeState>,
    book_filter: Option<i32>,
    offset: Option<usize>,
    limit: Option<usize>,
) -> (r: Result<SeriesStatusOutput, SeriesError>)
    ensures
        ({
            let chs = chapters@;
            let n = chs.len() as int;
            let lim = match limit {
                Some(x) => x,
                None => 50,
            };
            let off = match offset {
                Some(o) => o,
                None => 0,
            };
            let shown = shown_episodes(chs, book_filter);
            let page = page_of(shown, off as int, lim as int);
            match r {
                Err(e) => e == SeriesError::LimitOutOfRange && !(1 <= lim <= 200),
                Ok(out) => {
                    &&& 1 <= lim <= 200
                    &&& out.project_id == project_id
                    &&& out.branch_id == branch_id
                    &&& match published_through(chs, n) {
                        Some((b, c)) => out.published_through == Some(
                            StoryPlacement {
                                book_number: b,
                                chapter_number: c,
                                scene_order: None,
                                note: None,
                            },
                        ),
                        None => out.published_through is None,
                    }
                    &&& out.released_episodes == count_released(chs, n)
                    &&& out.draft_backlog == count_draft_backlog(chs, n)
                    &&& out.ready_backlog == count_ready_backlog(chs, n)
                    &&& out.episodes@.len() == page.len()
                    &&& forall|i: int|
                        0 <= i < page.len() ==> status_of(#[trigger] out.episodes@[i], page[i])
                    &&& out.next_offset == (if off + lim <= usize::MAX && off + lim < shown.len() {
                        Some((off + lim) as usize)
                    } else {
                        None
                    })
                },
            }
        }),
{
    let lim = match listing_limit(limit) {
        Ok(l) => l,
        Err(e) => {
            return Err(e);
        },
    };
    let off: usize = match offset {
        Some(o) => o,
        None => 0,
    };
    let (totals, statuses) = series_pass(chapters, book_filter);
    let next_offset: Option<usize> = if off <= usize::MAX - lim && off + lim < statuses.len() {
        Some(off + lim)
    } else {
        None
    };
    let ghost all = statuses@;
    let page = take_page(statuses, off, lim);
    proof {
        let shown = shown_episodes(chapters@, book_filter);
        let pg = page_of(shown, off as int, lim as int);
        assert forall|j: int| 0 <= j < pg.len() implies status_of(#[trigger] page@[j], pg[j]) by {
            let lo = min_int(off as int, all.len() as int);
            assert(page@[j] == all[lo + j]);
            assert(pg[j] == shown[lo + j]);
        }
    }
    let published_through = match totals.published {
        Some((b, c)) => Some(
            StoryPlacement { book_number: b, chapter_number: c, scene_order: None, note: None },
        ),
        None => None,
    };
    Ok(
        SeriesStatusOutput {
            project_id,
            branch_id,
            published_through,
            released_episodes: totals.released,
            draft_backlog: totals.drafts,
            ready_backlog: totals.ready,
            episodes: page,
            next_offset,
        },
    )
}

/// An unreleased chapter stops the publication cursor: nothing after it
/// counts as published, however much of the rest is released.
pub proof fn law_unreleased_chapter_stops_cursor(chs: Seq<EpisodeState>, k: int, n: int)
    requires
        0 <= k < n <= chs.len(),
        chs[k].release is None,
    ensures
        published_through(chs, n) == published_through(chs, k),
    decreases n - k,
{
    lemma_run_breaks(chs, k, n);
    if n > k + 1 {
        law_unreleased_chapter_stops_cursor(chs, k, n - 1);
    } else {
        assert(!released_run(chs, k + 1));
    }
}

/// The series opens with chapter 0 or 1 of book 1; a chapter is followed by
/// the next chapter of its book or by chapter 0 or 1 of the next book.
pub proof fn law_reading_order_steps(b: i32, c: i32)
    ensures
        follows(None, 1, 0),
        follows(None, 1, 1),
        c < i32::MAX ==> follows(Some((b, c)), b, (c + 1) as i32),
        b < i32::MAX ==> follows(Some((b, c)), (b + 1) as i32, 0),
        b < i32::MAX ==> follows(Some((b, c)), (b + 1) as i32, 1),
{
}

/// Nothing else follows a chapter: not itself or an earlier chapter of its
/// book, not a chapter two or more ahead, not an earlier book, a book two or
/// more ahead, or a chapter past 1 (or below 0) of the next book.
pub proof fn law_reading_order_gaps(b: i32, c: i32, b2: i32, c2: i32)
    requires
        (b2 == b && (c2 > c + 1 || c2 <= c)) || b2 > b + 1 || (b2 == b + 1 && (c2 > 1 || c2 < 0))
            || b2 < b,
    ensures
        !follows(Some((b, c)), b2, c2),
{
}

/// Only chapter 0 or 1 of book 1 opens the series.
pub proof fn law_series_opening(b: i32, c: i32)
    requires
        b != 1 || c < 0 || c > 1,
    ensures
        !follows(None, b, c),
{
}

/// Chapters `1..=n` of a run that opens the series and steps one chapter at
/// a time (or to chapter 0 or 1 of the next book), all released, are all
/// published: the cursor stands at the last of them.
pub proof fn law_gapless_released_series_is_published(chs: Seq<EpisodeState>, n: int)
    requires
        1 <= n <= chs.len(),
        forall|i: int| 0 <= i < n ==> (#[trigger] chs[i]).release is Some,
        chs[0].book_number == 1,
        0 <= chs[0].chapter_number <= 1,
        forall|i: int|
            #![trigger chs[i]]
            0 < i < n ==> (chs[i].book_number == chs[i - 1].book_number && chs[i].chapter_number
                == chs[i - 1].chapter_number + 1) || (chs[i].book_number == chs[i - 1].book_number
                + 1 && 0 <= chs[i].chapter_number <= 1),
    ensures
        published_through(chs, n) == Some((chs[n - 1].book_number, chs[n - 1].chapter_number)),
{
    lemma_gapless_run(chs, n);
}

proof fn lemma_gapless_run(chs: Seq<EpisodeState>, n: int)
    requires
        0 <= n <= chs.len(),
        forall|i: int| 0 <= i < n ==> (#[trigger] chs[i]).release is Some,
        n > 0 ==> chs[0].book_number == 1 && 0 <= chs[0].chapter_number <= 1,
        forall|i: int|
            #![trigger chs[i]]
            0 < i < n ==> (chs[i].book_number == chs[i - 1].book_number && chs[i].chapter_number
                == chs[i - 1].chapter_number + 1) || (chs[i].book_number == chs[i - 1].book_number
                + 1 && 0 <= chs[i].chapter_number <= 1),
    ensures
        released_run(chs, n),
    decreases n,
{
    if n > 0 {
        lemma_gapless_run(chs, n - 1);
        let e = chs[n - 1];
        assert(e.release is Some);
        if n > 1 {
            let d = chs[n - 2];
            assert(prev_position(chs, n - 1) == Some((d.book_number, d.chapter_number)));
        }
    }
}

proof fn lemma_run_breaks(chs: Seq<EpisodeState>, k: int, n: int)
    requires
        0 <= k < n <= chs.len(),
        chs[k].release is None,
    ensures
        !released_run(chs, n),
    decreases n - k,
{
    if n > k + 1 {
        lemma_run_breaks(chs, k, n - 1);
    }
}

// ---------------------------------------------------------------------------
// Reader memory
// ---------------------------------------------------------------------------

/// A reading cursor names a positive book and a non-negative chapter.
pub fn valid_reader_cursor(book_number: i32, chapter_number: i32) -> (r: bool)
    ensures
        r == (book_number > 0 && chapter_number >= 0),
{
    book_number > 0 && chapter_number >= 0
}

/// A stored reading, as listed from the latest position backwards.
pub struct MemoryCandidate {
    pub id: String,
    pub book_number: i32,
    pub chapter_number: i32,
    pub source_hash: String,
}

/// Which stored reading to resume from, and how many were skipped as stale.
pub struct PriorSelection {
    pub prior: Option<usize>,
    pub stale_records: usize,
}

/// Scan the stored readings from index `i` on: a reading made against text
/// that has since changed is stale and skipped; with `force`, a reading of
/// the target chapter itself is passed over; the first other one is used.
pub open spec fn selection_from(
    records: Seq<MemoryCandidate>,
    hashes: Seq<ChapterHash>,
    book: i32,
    chapter: i32,
    force: bool,
    i: int,
) -> (Option<int>, nat)
    decreases records.len() - i,
{
    if i < 0 || i >= records.len() {
        (None, 0)
    } else {
        let r = records[i];
        let rest = selection_from(records, hashes, book, chapter, force, i + 1);
        if spec_hash_at(hashes, r.book_number, r.chapter_number) != Some(r.source_hash@) {
            (rest.0, rest.1 + 1)
        } else if force && r.book_number == book && r.chapter_number == chapter {
            rest
        } else {
            (Some(i), 0)
        }
    }
}

proof fn lemma_selection_stale_bound(
    records: Seq<MemoryCandidate>,
    hashes: Seq<ChapterHash>,
    book: i32,
    chapter: i32,
    force: bool,
    i: int,
)
    requires
        0 <= i <= records.len(),
    ensures
        selection_from(records, hashes, book, chapter, force, i).1 <= records.len() - i,
    decreases records.len() - i,
{
    if i < records.len() {
        lemma_selection_stale_bound(records, hashes, book, chapter, force, i + 1);
    }
}

/// A reading is resumed only while the text it read is unchanged: the
/// chosen reading's chapter still carries the fingerprint it was made
/// against, and a forced re-read never resumes the reading of the target
/// chapter itself. Every reading listed before it was stale or, when
/// forced, of the target chapter.
pub proof fn law_resumed_reading_is_current(
    records: Seq<MemoryCandidate>,
    hashes: Seq<ChapterHash>,
    book: i32,
    chapter: i32,
    force: bool,
    i: int,
)
    requires
        0 <= i,
    ensures
        ({
            let sel = selection_from(records, hashes, book, chapter, force, i);
            match sel.0 {
                Some(k) => {
                    &&& i <= k < records.len()
                    &&& spec_hash_at(hashes, records[k].book_number, records[k].chapter_number)
                        == Some(records[k].source_hash@)
                    &&& !(force && records[k].book_number == book && records[k].chapter_number
                        == chapter)
                    &&& forall|j: int|
                        i <= j < k ==> (spec_hash_at(
                            hashes,
                            (#[trigger] records[j]).book_number,
                            records[j].chapter_number,
                        ) != Some(records[j].source_hash@) || (force && records[j].book_number
                            == book && records[j].chapter_number == chapter))
                },
                None => forall|j: int|
                    i <= j < records.len() ==> (spec_hash_at(
                        hashes,
                        (#[trigger] records[j]).book_number,
                        records[j].chapter_number,
                    ) != Some(records[j].source_hash@) || (force && records[j].book_number == book
                        && records[j].chapter_number == chapter)),
            }
        }),
    decreases records.len() - i,
{
    if i < records.len() {
        law_resumed_reading_is_current(records, hashes, book, chapter, force, i + 1);
    }
}

pub fn select_prior_memory(
    records: &Vec<MemoryCandidate>,
    hashes: &Vec<ChapterHash>,
    book_number: i32,
    chapter_number: i32,
    force: bool,
) -> (r: PriorSelection)
    ensures
        ({
            let sel = selection_from(records@, hashes@, book_number, chapter_number, force, 0);
            &&& r.stale_records == sel.1
            &&& match r.prior {
                Some(k) => sel.0 == Some(k as int),
                None => sel.0 is None,
            }
        }),
{
    let mut stale: usize = 0;
    let mut i: usize = 0;
    while i < records.len()
        invariant
            i <= records.len(),
            ({
                let all = selection_from(records@, hashes@, book_number, chapter_number, force, 0);
                let here = selection_from(
                    records@,
                    hashes@,
                    book_number,
                    chapter_number,
                    force,
                    i as int,
                );
                all.0 == here.0 && all.1 == stale + here.1
            }),
            stale <= i,
        decreases records.len() - i,
    {
        let rec = &records[i];
        let current = hash_at(hashes, rec.book_number, rec.chapter_number);
        let matches_text = match &current {
            Some(h) => str_eq(h.as_str(), rec.source_hash.as_str()),
            None => false,
        };
        if !matches_text {
            stale = stale + 1;
        } else if force && rec.book_number == book_number && rec.chapter_number == chapter_number {
        } else {
            proof {
                lemma_selection_stale_bound(records@, hashes@, book_number, chapter_number, force, i + 1);
            }
            return PriorSelection { prior: Some(i), stale_records: stale };
        }
        i = i + 1;
    }
    PriorSelection { prior: None, stale_records: stale }
}

/// The strictest content rating among the scenes of the chapter read,
/// starting from "general"; an earlier scene keeps its place on a tie.
pub open spec fn strictest_rating(ratings: Seq<Seq<char>>, n: int) -> Seq<char>
    decreases n,
{
    if n <= 0 {
        "general"@
    } else {
        let cur = strictest_rating(ratings, n - 1);
        if spec_rating_rank(ratings[n - 1]) > spec_rating_rank(cur) {
            ratings[n - 1]
        } else {
            cur
        }
    }
}

pub fn chapter_rating(ratings: &Vec<String>) -> (r: String)
    ensures
        r@ == strictest_rating(views(ratings@), ratings@.len() as int),
{
    let mut cur = to_owned_string("general");
    let mut i: usize = 0;
    while i < ratings.len()
        invariant
            i <= ratings.len(),
            cur@ == strictest_rating(views(ratings@), i as int),
        decreases ratings.len() - i,
    {
        if serial_rating_rank(ratings[i].as_str()) > serial_rating_rank(cur.as_str()) {
            cur = ratings[i].clone();
        }
        i = i + 1;
    }
    cur
}

/// The text key of a chapter position, `"{book}:{chapter}"`.
pub open spec fn spec_position_key(book: i32, chapter: i32) -> Seq<char> {
    int_decimal(book as int) + ":"@ + int_decimal(chapter as int)
}

pub fn position_key(book: i32, chapter: i32) -> (r: String)
    ensures
        r@ == spec_position_key(book, chapter),
{
    let mut s = i64_to_decimal(book as i64);
    s.append(":");
    push_i64_decimal(&mut s, chapter as i64);
    s
}

pub open spec fn contains_view(v: Seq<String>, x: Seq<char>) -> bool {
    exists|i: int| 0 <= i < v.len() && v[i]@ == x
}

fn strings_contain(v: &Vec<String>, x: &String) -> (r: bool)
    ensures
        r == contains_view(v@, x@),
{
    let mut i: usize = 0;
    while i < v.len()
        invariant
            i <= v.len(),
            forall|j: int| 0 <= j < i ==> v@[j]@ != x@,
        decreases v.len() - i,
    {
        if v[i] == *x {
            return true;
        }
        i = i + 1;
    }
    false
}

/// Earlier chapters the reader has not been through: every chapter before
/// the target, in order, that the resumed reading did not cover (all of
/// them when there is nothing to resume).
pub open spec fn unread_before(
    hashes: Seq<ChapterHash>,
    book: i32,
    chapter: i32,
    read: Option<Seq<String>>,
) -> Seq<Seq<char>>
    decreases hashes.len(),
{
    if hashes.len() == 0 {
        Seq::empty()
    } else {
        let rest = unread_before(hashes.drop_last(), book, chapter, read);
        let h = hashes.last();
        let key = spec_position_key(h.book_number, h.chapter_number);
        let earlier = crate::placement::key_lt(
            (h.book_number, h.chapter_number, 0),
            (book, chapter, 0),
        );
        let covered = match read {
            Some(r) => contains_view(r, key),
            None => false,
        };
        if earlier && !covered {
            rest.push(key)
        } else {
            rest
        }
    }
}

pub fn unread_prior_chapters(
    hashes: &Vec<ChapterHash>,
    book_number: i32,
    chapter_number: i32,
    chapters_read: &Option<Vec<String>>,
) -> (r: Vec<String>)
    ensures
        views(r@) == unread_before(
            hashes@,
            book_number,
            chapter_number,
            match chapters_read {
                Some(v) => Some(v@),
                None => None,
            },
        ),
{
    let ghost read = match chapters_read {
        Some(v) => Some(v@),
        None => None,
    };
    let mut out: Vec<String> = Vec::new();
    let mut i: usize = 0;
    while i < hashes.len()
        invariant
            i <= hashes.len(),
            read == (match chapters_read {
                Some(v) => Some(v@),
                None => None::<Seq<String>>,
            }),
            views(out@) == unread_before(hashes@.take(i as int), book_number, chapter_number, read),
        decreases hashes.len() - i,
    {
        assert(hashes@.take(i + 1).drop_last() =~= hashes@.take(i as int));
        let h = &hashes[i];
        let earlier = h.book_number < book_number || (h.book_number == book_number
            && h.chapter_number < chapter_number);
        if earlier {
            let key = position_key(h.book_number, h.chapter_number);
            let covered = match chapters_read {
                Some(v) => strings_contain(v, &key),
                None => false,
            };
            if !covered {
                proof {
                    lemma_views_push(out@, key);
                }
                out.push(key);
            }
        }
        i = i + 1;
    }
    assert(hashes@.take(hashes@.len() as int) =~= hashes@);
    out
}

/// Every chapter before the target (an earlier book, or an earlier chapter
/// of the same book) that the resumed reading did not cover is listed as
/// unread, and nothing else is: each listed key names such a chapter.
pub proof fn law_unread_prior_chapters(
    hashes: Seq<ChapterHash>,
    book: i32,
    chapter: i32,
    read: Option<Seq<String>>,
)
    ensures
        forall|k: int|
            0 <= k < hashes.len() && ((#[trigger] hashes[k]).book_number < book || (
            hashes[k].book_number == book && hashes[k].chapter_number < chapter)) && !(match read {
                Some(r) => contains_view(r, spec_position_key(hashes[k].book_number, hashes[k].chapter_number)),
                None => false,
            }) ==> unread_before(hashes, book, chapter, read).contains(
                spec_position_key(hashes[k].book_number, hashes[k].chapter_number),
            ),
        forall|x: Seq<char>|
            #[trigger] unread_before(hashes, book, chapter, read).contains(x) ==> exists|k: int|
                0 <= k < hashes.len() && ((#[trigger] hashes[k]).book_number < book || (
                hashes[k].book_number == book && hashes[k].chapter_number < chapter))
                && spec_position_key(hashes[k].book_number, hashes[k].chapter_number) == x,
    decreases hashes.len(),
{
    if hashes.len() > 0 {
        let rest = hashes.drop_last();
        law_unread_prior_chapters(rest, book, chapter, read);
        let prev = unread_before(rest, book, chapter, read);
        let cur = unread_before(hashes, book, chapter, read);
        assert forall|k: int|
            0 <= k < hashes.len() && ((#[trigger] hashes[k]).book_number < book || (
            hashes[k].book_number == book && hashes[k].chapter_number < chapter)) && !(match read {
                Some(r) => contains_view(r, spec_position_key(hashes[k].book_number, hashes[k].chapter_number)),
                None => false,
            }) implies cur.contains(spec_position_key(hashes[k].book_number, hashes[k].chapter_number)) by {
            let key = spec_position_key(hashes[k].book_number, hashes[k].chapter_number);
            if k < hashes.len() - 1 {
                assert(rest[k] == hashes[k]);
                let w = choose|m: int| 0 <= m < prev.len() && prev[m] == key;
                assert(cur[w] == prev[w]);
            } else {
                assert(cur[prev.len() as int] == key);
            }
        }
        assert forall|x: Seq<char>| #[trigger] cur.contains(x) implies exists|k: int|
            0 <= k < hashes.len() && ((#[trigger] hashes[k]).book_number < book || (
            hashes[k].book_number == book && hashes[k].chapter_number < chapter))
            && spec_position_key(hashes[k].book_number, hashes[k].chapter_number) == x by {
            let i = choose|i: int| 0 <= i < cur.len() && cur[i] == x;
            if i < prev.len() {
                assert(prev[i] == x);
                assert(prev.contains(x));
                let k = choose|k: int|
                    0 <= k < rest.len() && ((#[trigger] rest[k]).book_number < book || (
                    rest[k].book_number == book && rest[k].chapter_number < chapter))
                    && spec_position_key(rest[k].book_number, rest[k].chapter_number) == x;
                assert(hashes[k] == rest[k]);
            } else {
                assert(hashes[hashes.len() - 1] == hashes.last());
            }
        }
    }
}

/// With nothing resumed and every chapter before the target, every chapter
/// is unread, in the order given.
pub proof fn law_all_prior_chapters_unread_in_order(hashes: Seq<ChapterHash>, book: i32, chapter: i32)
    requires
        forall|k: int|
            0 <= k < hashes.len() ==> (#[trigger] hashes[k]).book_number < book || (
            hashes[k].book_number == book && hashes[k].chapter_number < chapter),
    ensures
        unread_before(hashes, book, chapter, None) == hashes.map_values(
            |h: ChapterHash| spec_position_key(h.book_number, h.chapter_number),
        ),
    decreases hashes.len(),
{
    if hashes.len() > 0 {
        let rest = hashes.drop_last();
        assert forall|k: int| 0 <= k < rest.len() implies (#[trigger] rest[k]).book_number < book || (
            rest[k].book_number == book && rest[k].chapter_number < chapter) by {
            assert(rest[k] == hashes[k]);
        }
        law_all_prior_chapters_unread_in_order(rest, book, chapter);
        assert(hashes[hashes.len() - 1] == hashes.last());
        assert(hashes.map_values(|h: ChapterHash| spec_position_key(h.book_number, h.chapter_number))
            =~= rest.map_values(|h: ChapterHash| spec_position_key(h.book_number, h.chapter_number)).push(
            spec_position_key(hashes.last().book_number, hashes.last().chapter_number),
        ));
    }
}

/// The rating the reader model is told: the stricter of the chapter's
/// rating and the resumed reading's, the resumed one winning a tie.
pub open spec fn spec_reading_rating(source: Seq<char>, prior: Option<Seq<char>>) -> Seq<char> {
    match prior {
        Some(p) => if spec_rating_rank(p) >= spec_rating_rank(source) {
            p
        } else {
            source
        },
        None => source,
    }
}

pub fn reading_rating(source: &String, prior: &Option<String>) -> (r: String)
    ensures
        r@ == spec_reading_rating(source@, opt_view(*prior)),
{
    match prior {
        Some(p) => {
            if serial_rating_rank(p.as_str()) >= serial_rating_rank(source.as_str()) {
                p.clone()
            } else {
                source.clone()
            }
        },
        None => source.clone(),
    }
}

/// The notes handed to the reader model: the resumed reading's notes, its
/// open questions, and a warning about chapters it has not seen.
pub open spec fn spec_prior_notes(
    notes: Option<Seq<char>>,
    questions: Option<Seq<Seq<char>>>,
    unread: nat,
) -> Seq<char> {
    let base = match notes {
        Some(n) => n,
        None => Seq::empty(),
    };
    let with_questions = match questions {
        Some(q) => if q.len() > 0 {
            base + "\nOpen reader questions:\n"@ + spec_join(q, "\n"@)
        } else {
            base
        },
        None => base,
    };
    if unread > 0 {
        with_questions + "\n"@ + nat_decimal(unread)
            + " earlier chapters have not been reviewed. Treat their events as unknown; do not fill gaps by invention."@
    } else {
        with_questions
    }
}

/// `prior` holds the resumed reading's notes and open questions, if any.
pub fn compose_prior_notes(prior: Option<(&String, &Vec<String>)>, unread: usize) -> (r: String)
    ensures
        r@ == spec_prior_notes(
            match prior {
                Some((n, _)) => Some(n@),
                None => None,
            },
            match prior {
                Some((_, q)) => Some(views(q@)),
                None => None,
            },
            unread as nat,
        ),
{
    let mut out = match prior {
        Some((n, _)) => n.clone(),
        None => String::new(),
    };
    if let Some((_, questions)) = prior {
        if questions.len() > 0 {
            out.append("\nOpen reader questions:\n");
            let joined = join_strings(questions, "\n");
            out.append(joined.as_str());
        }
    }
    if unread > 0 {
        out.append("\n");
        push_u64_decimal(&mut out, unread as u64);
        out.append(
            " earlier chapters have not been reviewed. Treat their events as unknown; do not fill gaps by invention.",
        );
    }
    out
}

/// A fresh reading is stored only if the chapter still reads as it did and
/// the reading it resumed is still the latest valid one.
pub fn memory_store_allowed(
    current_hash: &Option<String>,
    source_hash: &String,
    current_prior_id: &Option<String>,
    expected_parent_id: &Option<String>,
) -> (r: bool)
    ensures
        r == (opt_view(*current_hash) == Some(source_hash@) && opt_view(*current_prior_id)
            == opt_view(*expected_parent_id)),
{
    let same_text = match current_hash {
        Some(h) => str_eq(h.as_str(), source_hash.as_str()),
        None => false,
    };
    same_text && opt_string_eq(current_prior_id, expected_parent_id)
}

/// The open questions a new reading keeps: the model's own list, or else
/// the resumed reading's, without blank entries and at most twelve, each cut
/// to 240 bytes.
pub open spec fn kept_questions(qs: Seq<String>, n: int) -> Seq<Seq<char>>
    decreases n,
{
    if n <= 0 {
        Seq::empty()
    } else {
        let rest = kept_questions(qs, n - 1);
        if !is_blank(qs[n - 1]@) && rest.len() < 12 {
            rest.push(truncate_from(qs[n - 1]@, 240))
        } else {
            rest
        }
    }
}

proof fn lemma_kept_len(qs: Seq<String>, n: int)
    ensures
        kept_questions(qs, n).len() <= 12,
    decreases n,
{
    if n > 0 {
        lemma_kept_len(qs, n - 1);
    }
}

pub fn reader_question_candidates(model: &Option<Vec<String>>, prior: &Option<Vec<String>>) -> (r:
    Vec<String>)
    ensures
        ({
            let src = match model {
                Some(q) => q@,
                None => match prior {
                    Some(q) => q@,
                    None => Seq::empty(),
                },
            };
            views(r@) == kept_questions(src, src.len() as int)
        }),
{
    let empty: Vec<String> = Vec::new();
    let src: &Vec<String> = match model {
        Some(q) => q,
        None => match prior {
            Some(q) => q,
            None => &empty,
        },
    };
    let mut out: Vec<String> = Vec::new();
    let mut i: usize = 0;
    while i < src.len()
        invariant
            i <= src.len(),
            views(out@) == kept_questions(src@, i as int),
        decreases src.len() - i,
    {
        proof {
            lemma_kept_len(src@, i as int);
        }
        if !str_is_blank(src[i].as_str()) && out.len() < 12 {
            let q = to_owned_string(truncate_to_bytes(src[i].as_str(), 240));
            proof {
                lemma_views_push(out@, q);
            }
            out.push(q);
        }
        i = i + 1;
    }
    out
}

// ---------------------------------------------------------------------------
// Readings
// ---------------------------------------------------------------------------

/// A concern the reader model raised about a chapter.
pub struct ReaderConcern {
    pub severity: String,
    pub description: String,
}

/// What the reader model made of a chapter.
pub struct ReaderOutcome {
    pub status: String,
    pub notes: String,
    pub open_questions: Option<Vec<String>>,
    pub concerns: Vec<ReaderConcern>,
}

/// A stored reading: where the simulated reader stopped, against which
/// text, and what it remembers.
pub struct ReaderMemoryRecord {
    pub id: String,
    pub project_id: String,
    pub branch_id: String,
    pub book_number: i32,
    pub chapter_number: i32,
    pub source_hash: String,
    pub chapters_read: Vec<String>,
    pub open_questions: Vec<String>,
    pub rating: String,
    pub outcome: ReaderOutcome,
}

/// What a reading did with memory.
pub struct ReaderMemoryTrace {
    pub source_hash: String,
    pub loaded_memory_id: Option<String>,
    pub stale_records_ignored: usize,
    pub unread_prior_chapters: Vec<String>,
    pub cached: bool,
    pub stored_memory_id: Option<String>,
    pub persistence_note: Option<String>,
}

#[derive(Debug, PartialEq, Eq, Structural)]
pub enum ReadError {
    /// "invalid reader cursor"
    InvalidCursor,
    /// "reader source cursor missing"
    CursorMissing,
}

/// The next step of a reading.
pub enum ReadingStep {
    /// The resumed reading is of this very chapter and text: reuse it.
    Cached,
    /// Call the reader model with these notes and this rating.
    Read { prior_notes: String, rating: String },
}

pub open spec fn prior_position_is(prior: Option<&ReaderMemoryRecord>, b: i32, c: i32) -> bool {
    match prior {
        Some(p) => p.book_number == b && p.chapter_number == c,
        None => false,
    }
}

/// Decide how to read chapter `(book, chapter)` once its source is known:
/// `hashes` are the chapter hashes up to the cursor, `prior` the reading to
/// resume (as `select_prior_memory` chose it), `stale` the readings skipped
/// as stale, and `source_rating` the chapter's strictest rating.
pub fn plan_reading(
    hashes: &Vec<ChapterHash>,
    book_number: i32,
    chapter_number: i32,
    prior: Option<&ReaderMemoryRecord>,
    stale: usize,
    source_rating: &String,
) -> (r: Result<(ReaderMemoryTrace, ReadingStep), ReadError>)
    ensures
        match r {
            Err(e) => e == ReadError::CursorMissing && spec_hash_at(
                hashes@,
                book_number,
                chapter_number,
            ) is None,
            Ok((trace, step)) => {
                let read = match prior {
                    Some(p) => Some(p.chapters_read@),
                    None => None,
                };
                &&& spec_hash_at(hashes@, book_number, chapter_number) == Some(trace.source_hash@)
                &&& trace.loaded_memory_id == (match prior {
                    Some(p) => Some(p.id),
                    None => None,
                })
                &&& trace.stale_records_ignored == stale
                &&& views(trace.unread_prior_chapters@) == unread_before(
                    hashes@,
                    book_number,
                    chapter_number,
                    read,
                )
                &&& trace.cached == prior_position_is(prior, book_number, chapter_number)
                &&& (trace.cached ==> trace.stored_memory_id == (match prior {
                    Some(p) => Some(p.id),
                    None => None,
                }))
                &&& (!trace.cached ==> trace.stored_memory_id is None)
                &&& trace.persistence_note is None
                &&& match step {
                    ReadingStep::Cached => trace.cached,
                    ReadingStep::Read { prior_notes, rating } => {
                        &&& !trace.cached
                        &&& prior_notes@ == spec_prior_notes(
                            match prior {
                                Some(p) => Some(p.outcome.notes@),
                                None => None,
                            },
                            match prior {
                                Some(p) => Some(views(p.open_questions@)),
                                None => None,
                            },
                            trace.unread_prior_chapters@.len(),
                        )
                        &&& rating@ == spec_reading_rating(
                            source_rating@,
                            match prior {
                                Some(p) => Some(p.rating@),
                                None => None,
                            },
                        )
                    },
                }
            },
        },
{
    let source_hash = match hash_at(hashes, book_number, chapter_number) {
        Some(h) => h,
        None => {
            return Err(ReadError::CursorMissing);
        },
    };
    let chapters_read: Option<Vec<String>> = match prior {
        Some(p) => Some(crate::text::clone_strings(&p.chapters_read)),
        None => None,
    };
    let unread = unread_prior_chapters(hashes, book_number, chapter_number, &chapters_read);
    let loaded: Option<String> = match prior {
        Some(p) => Some(p.id.clone()),
        None => None,
    };
    let cached = match prior {
        Some(p) => p.book_number == book_number && p.chapter_number == chapter_number,
        None => false,
    };
    if cached {
        let stored = match prior {
            Some(p) => Some(p.id.clone()),
            None => None,
        };
        let trace = ReaderMemoryTrace {
            source_hash,
            loaded_memory_id: loaded,
            stale_records_ignored: stale,
            unread_prior_chapters: unread,
            cached: true,
            stored_memory_id: stored,
            persistence_note: None,
        };
        return Ok((trace, ReadingStep::Cached));
    }
    let unread_count = unread.len();
    let notes = match prior {
        Some(p) => compose_prior_notes(Some((&p.outcome.notes, &p.open_questions)), unread_count),
        None => compose_prior_notes(None, unread_count),
    };
    let prior_rating: Option<String> = match prior {
        Some(p) => Some(p.rating.clone()),
        None => None,
    };
    let rating = reading_rating(source_rating, &prior_rating);
    let trace = ReaderMemoryTrace {
        source_hash,
        loaded_memory_id: loaded,
        stale_records_ignored: stale,
        unread_prior_chapters: unread,
        cached: false,
        stored_memory_id: None,
        persistence_note: None,
    };
    Ok((trace, ReadingStep::Read { prior_notes: notes, rating }))
}

/// The chapters a new reading has covered: those of the reading it resumed,
/// then the one just read.
pub fn next_chapters_read(prior: Option<&ReaderMemoryRecord>, book_number: i32, chapter_number: i32)
    -> (r: Vec<String>)
    ensures
        views(r@) == (match prior {
            Some(p) => views(p.chapters_read@),
            None => Seq::empty(),
        }).push(spec_position_key(book_number, chapter_number)),
{
    let mut out: Vec<String> = match prior {
        Some(p) => crate::text::clone_strings(&p.chapters_read),
        None => Vec::new(),
    };
    let key = position_key(book_number, chapter_number);
    proof {
        lemma_views_push(out@, key);
    }
    out.push(key);
    out
}

// ---------------------------------------------------------------------------
// Reader concerns become editorial items
// ---------------------------------------------------------------------------

/// The concerns of a reading that are queued for the author: those whose
/// description is not blank, at most twenty, each as its severity and its
/// trimmed description cut to 2000 bytes.
pub open spec fn staged_concerns(cs: Seq<ReaderConcern>, n: int) -> Seq<(Seq<char>, Seq<char>)>
    decreases n,
{
    if n <= 0 {
        Seq::empty()
    } else {
        let rest = staged_concerns(cs, n - 1);
        let c = cs[n - 1];
        if !is_blank(c.description@) && rest.len() < 20 {
            rest.push((c.severity@, truncate_from(spec_trim(c.description@), 2000)))
        } else {
            rest
        }
    }
}

proof fn lemma_staged_len(cs: Seq<ReaderConcern>, n: int)
    ensures
        staged_concerns(cs, n).len() <= 20,
        n >= 0 ==> staged_concerns(cs, n).len() <= n,
    decreases n,
{
    if n > 0 {
        lemma_staged_len(cs, n - 1);
    }
}

/// serde_json's compact text of the JSON array
/// `[project, branch, book, chapter, source_hash, description]`.
pub uninterp spec fn json_concern_tuple(
    project: Seq<char>,
    branch: Seq<char>,
    book: i32,
    chapter: i32,
    source_hash: Seq<char>,
    description: Seq<char>,
) -> Seq<char>;

/// Calls `serde_json::to_string` on the tuple `(project, branch, book,
/// chapter, source_hash, description)`, which serde writes as a JSON array.
/// serde_json fails only where a `Serialize` impl fails or a map has a key
/// that is not a string; strings and integers do neither. Claimed: the
/// result is the named text of that array.
#[verifier::external_body]
fn concern_key_json(
    project: &str,
    branch: &str,
    book: i32,
    chapter: i32,
    source_hash: &str,
    description: &str,
) -> (r: String)
    ensures
        r@ == json_concern_tuple(project@, branch@, book, chapter, source_hash@, description@),
{
    match serde_json::to_string(&(project, branch, book, chapter, source_hash, description)) {
        Ok(text) => text,
        Err(_) => String::new(),
    }
}

/// The key that keeps a concern from being queued twice for the same text:
/// the SHA-256 of the JSON array of the reading's position, its source hash
/// and the description.
pub fn concern_dedupe_key(memory: &ReaderMemoryRecord, description: &str) -> (r: String)
    ensures
        r@ == sha256_hex_utf8(
            json_concern_tuple(
                memory.project_id@,
                memory.branch_id@,
                memory.book_number,
                memory.chapter_number,
                memory.source_hash@,
                description@,
            ),
        ),
{
    let json = concern_key_json(
        memory.project_id.as_str(),
        memory.branch_id.as_str(),
        memory.book_number,
        memory.chapter_number,
        memory.source_hash.as_str(),
        description,
    );
    sha256_hex(json.as_str())
}

/// An editorial item made from a reader concern, with its dedupe key.
pub struct StagedConcern {
    pub item: EditorialItem,
    pub dedupe_key: String,
}

pub open spec fn staged_item_matches(
    st: StagedConcern,
    memory: ReaderMemoryRecord,
    scene_ids: Seq<String>,
    concern: (Seq<char>, Seq<char>),
) -> bool {
    let it = st.item;
    &&& crate::ids::is_minted_id("editorial_item"@, it.id@)
    &&& it.project_id@ == memory.project_id@
    &&& it.branch_id@ == memory.branch_id@
    &&& it.book_number == memory.book_number
    &&& it.chapter_number == memory.chapter_number
    &&& it.source_hash@ == memory.source_hash@
    &&& it.reader_memory_id@ == memory.id@
    &&& it.scene_ids@ == scene_ids
    &&& it.severity@ == concern.0
    &&& it.description@ == concern.1
    &&& it.status == EditorialStatus::Open
    &&& it.revision == 0
    &&& it.decisions@.len() == 0
    &&& st.dedupe_key@ == sha256_hex_utf8(
        json_concern_tuple(
            memory.project_id@,
            memory.branch_id@,
            memory.book_number,
            memory.chapter_number,
            memory.source_hash@,
            concern.1,
        ),
    )
}

/// The editorial items a stored reading queues, one per staged concern, in
/// the order the reader raised them.
pub fn stage_reader_concerns(memory: &ReaderMemoryRecord, scene_ids: &Vec<String>) -> (r: Vec<
    StagedConcern,
>)
    ensures
        ({
            let staged = staged_concerns(
                memory.outcome.concerns@,
                memory.outcome.concerns@.len() as int,
            );
            &&& r@.len() == staged.len()
            &&& forall|i: int|
                0 <= i < r@.len() ==> staged_item_matches(
                    #[trigger] r@[i],
                    *memory,
                    scene_ids@,
                    staged[i],
                )
        }),
{
    let concerns = &memory.outcome.concerns;
    let mut out: Vec<StagedConcern> = Vec::new();
    let mut i: usize = 0;
    while i < concerns.len()
        invariant
            i <= concerns.len(),
            concerns == &memory.outcome.concerns,
            out@.len() == staged_concerns(concerns@, i as int).len(),
            forall|k: int|
                0 <= k < out@.len() ==> staged_item_matches(
                    #[trigger] out@[k],
                    *memory,
                    scene_ids@,
                    staged_concerns(concerns@, i as int)[k],
                ),
        decreases concerns.len() - i,
    {
        proof {
            lemma_staged_len(concerns@, i as int);
        }
        let c = &concerns[i];
        if !str_is_blank(c.description.as_str()) && out.len() < 20 {
            let description = truncate_to_bytes(trim(c.description.as_str()), 2000);
            let key = concern_dedupe_key(memory, description);
            let item = EditorialItem {
                id: crate::ids::mint_id("editorial_item"),
                project_id: memory.project_id.clone(),
                branch_id: memory.branch_id.clone(),
                book_number: memory.book_number,
                chapter_number: memory.chapter_number,
                source_hash: memory.source_hash.clone(),
                reader_memory_id: memory.id.clone(),
                scene_ids: crate::text::clone_strings(scene_ids),
                severity: c.severity.clone(),
                description: to_owned_string(description),
                status: EditorialStatus::Open,
                revision: 0,
                decisions: Vec::new(),
            };
            out.push(StagedConcern { item, dedupe_key: key });
        }
        i = i + 1;
    }
    out
}

// ---------------------------------------------------------------------------
// Accepted revision requests as open threads
// ---------------------------------------------------------------------------

/// An accepted item raised at or before the cursor.
pub open spec fn accepted_through(it: EditorialItem, book: i32, chapter: i32) -> bool {
    &&& it.status == EditorialStatus::Accepted
    &&& crate::placement::key_le((it.book_number, it.chapter_number, 0), (book, chapter, 0))
}

/// Positions in `items` of the open threads, newest first: walking back
/// from the last item, those accepted at or before the cursor, at most five.
/// `k` is how many items from the end have been walked.
pub open spec fn thread_positions(items: Seq<EditorialItem>, book: i32, chapter: i32, k: int) -> Seq<
    int,
>
    decreases k,
{
    if k <= 0 {
        Seq::empty()
    } else {
        let rest = thread_positions(items, book, chapter, k - 1);
        let p = items.len() - k;
        if accepted_through(items[p], book, chapter) && rest.len() < 5 {
            rest.push(p)
        } else {
            rest
        }
    }
}

proof fn lemma_thread_positions(items: Seq<EditorialItem>, book: i32, chapter: i32, k: int)
    requires
        k <= items.len(),
    ensures
        thread_positions(items, book, chapter, k).len() <= 5,
        forall|j: int|
            0 <= j < thread_positions(items, book, chapter, k).len() ==> items.len() - k
                <= #[trigger] thread_positions(items, book, chapter, k)[j] < items.len(),
    decreases k,
{
    if k > 0 {
        lemma_thread_positions(items, book, chapter, k - 1);
    }
}

pub open spec fn spec_thread_name(book: i32, chapter: i32) -> Seq<char> {
    "Revision request from book "@ + int_decimal(book as int) + " chapter "@ + int_decimal(
        chapter as int,
    )
}

/// An accepted revision request, shown to the writer as an open thread:
/// the request cut to 300 bytes, and what the last decision asked for cut
/// to 400.
pub struct EditorialThread {
    pub id: String,
    pub kind: String,
    pub name: String,
    pub statement: String,
    pub status: String,
    pub next_expectation: Option<String>,
}

pub open spec fn thread_matches(t: EditorialThread, it: EditorialItem) -> bool {
    &&& t.id@ == it.id@
    &&& t.kind@ == "editorial"@
    &&& t.name@ == spec_thread_name(it.book_number, it.chapter_number)
    &&& t.statement@ == truncate_from(it.description@, 300)
    &&& t.status@ == "accepted; unresolved"@
    &&& opt_view(t.next_expectation) == (if it.decisions@.len() == 0 {
        None
    } else {
        Some(truncate_from(it.decisions@.last().note@, 400))
    })
}

/// The accepted revision requests that a chapter at `(book, chapter)` should
/// keep in view: newest first, at most five.
pub fn editorial_threads(items: &Vec<EditorialItem>, book: i32, chapter: i32) -> (r: Vec<
    EditorialThread,
>)
    ensures
        ({
            let pos = thread_positions(items@, book, chapter, items@.len() as int);
            &&& r@.len() == pos.len()
            &&& forall|j: int|
                0 <= j < r@.len() ==> thread_matches(#[trigger] r@[j], items@[pos[j]])
        }),
{
    let mut out: Vec<EditorialThread> = Vec::new();
    let mut k: usize = 0;
    while k < items.len()
        invariant
            k <= items.len(),
            out@.len() == thread_positions(items@, book, chapter, k as int).len(),
            forall|j: int|
                0 <= j < out@.len() ==> thread_matches(
                    #[trigger] out@[j],
                    items@[thread_positions(items@, book, chapter, k as int)[j]],
                ),
        decreases items.len() - k,
    {
        proof {
            lemma_thread_positions(items@, book, chapter, k as int);
        }
        let it = &items[items.len() - 1 - k];
        let through = it.book_number < book || (it.book_number == book && it.chapter_number
            <= chapter);
        if it.status == EditorialStatus::Accepted && through && out.len() < 5 {
            let mut name = to_owned_string("Revision request from book ");
            push_i64_decimal(&mut name, it.book_number as i64);
            name.append(" chapter ");
            push_i64_decimal(&mut name, it.chapter_number as i64);
            proof {
                assert(name@ =~= spec_thread_name(it.book_number, it.chapter_number));
            }
            let next_expectation = if it.decisions.len() == 0 {
                None
            } else {
                Some(
                    to_owned_string(
                        truncate_to_bytes(it.decisions[it.decisions.len() - 1].note.as_str(), 400),
                    ),
                )
            };
            out.push(EditorialThread {
                id: it.id.clone(),
                kind: to_owned_string("editorial"),
                name,
                statement: to_owned_string(truncate_to_bytes(it.description.as_str(), 300)),
                status: to_owned_string("accepted; unresolved"),
                next_expectation,
            });
        }
        k = k + 1;
    }
    out
}

// ---------------------------------------------------------------------------
// Finishing a reading
// ---------------------------------------------------------------------------

/// A reading the model did not complete ("read") leaves the previous memory
/// in place, and the trace says why.
pub open spec fn spec_unfinished_note(status: Seq<char>) -> Option<Seq<char>> {
    if status == "read"@ {
        None
    } else {
        Some("reading "@ + status + ": previous memory preserved"@)
    }
}

pub fn unfinished_reading_note(status: &str) -> (r: Option<String>)
    ensures
        opt_view(r) == spec_unfinished_note(status@),
{
    proof {
        reveal_strlit("reading ");
        reveal_strlit(": previous memory preserved");
    }
    if str_eq(status, "read") {
        None
    } else {
        let mut note = to_owned_string("reading ");
        note.append(status);
        note.append(": previous memory preserved");
        Some(note)
    }
}

/// The memory a completed reading stores: a fresh id, the position and text
/// it read, the chapters read so far, the rating it was read at, and the
/// model's outcome with its notes cut to 4000 bytes and its open questions
/// replaced by the ones kept (the model's, else the resumed reading's).
pub fn completed_reading_record(
    project_id: &String,
    branch_id: &String,
    book_number: i32,
    chapter_number: i32,
    source_hash: &String,
    prior: Option<&ReaderMemoryRecord>,
    rating: &String,
    outcome: ReaderOutcome,
) -> (r: ReaderMemoryRecord)
    ensures
        crate::ids::is_minted_id("reader_memory"@, r.id@),
        r.project_id@ == project_id@,
        r.branch_id@ == branch_id@,
        r.book_number == book_number,
        r.chapter_number == chapter_number,
        r.source_hash@ == source_hash@,
        views(r.chapters_read@) == (match prior {
            Some(p) => views(p.chapters_read@),
            None => Seq::empty(),
        }).push(spec_position_key(book_number, chapter_number)),
        ({
            let src = match outcome.open_questions {
                Some(q) => q@,
                None => match prior {
                    Some(p) => p.open_questions@,
                    None => Seq::empty(),
                },
            };
            &&& views(r.open_questions@) == kept_questions(src, src.len() as int)
            &&& r.outcome.open_questions is Some
            &&& views(r.outcome.open_questions->0@) == kept_questions(src, src.len() as int)
        }),
        r.rating@ == rating@,
        r.outcome.status == outcome.status,
        r.outcome.notes@ == truncate_from(outcome.notes@, 4000),
        r.outcome.concerns == outcome.concerns,
{
    let prior_questions: Option<Vec<String>> = match prior {
        Some(p) => Some(crate::text::clone_strings(&p.open_questions)),
        None => None,
    };
    let questions = reader_question_candidates(&outcome.open_questions, &prior_questions);
    let kept = crate::text::clone_strings(&questions);
    let chapters_read = next_chapters_read(prior, book_number, chapter_number);
    let notes = to_owned_string(truncate_to_bytes(outcome.notes.as_str(), 4000));
    let ReaderOutcome { status, notes: _, open_questions: _, concerns } = outcome;
    ReaderMemoryRecord {
        id: crate::ids::mint_id("reader_memory"),
        project_id: project_id.clone(),
        branch_id: branch_id.clone(),
        book_number,
        chapter_number,
        source_hash: source_hash.clone(),
        chapters_read,
        open_questions: questions,
        rating: rating.clone(),
        outcome: ReaderOutcome { status, notes, open_questions: Some(kept), concerns },
    }
}

/// What became of a completed reading's memory.
pub enum Persistence {
    /// The reader model's setup changed while it read: nothing was stored.
    ModelChanged,
    /// The memory was stored.
    Stored,
    /// The chapter text or the resumed reading changed meanwhile: nothing
    /// was stored.
    SourceChanged,
    /// Storing failed.
    StoreFailed,
}

pub open spec fn spec_persistence_note(p: Persistence) -> Option<Seq<char>> {
    match p {
        Persistence::ModelChanged => Some(
            "Model configuration changed during reading; memory was not stored"@,
        ),
        Persistence::Stored => None,
        Persistence::SourceChanged => Some(
            "Manuscript or prior reading changed; memory was not stored"@,
        ),
        Persistence::StoreFailed => Some(
            "Reading completed, but memory could not be stored; retry the reading"@,
        ),
    }
}

/// The trace's stored memory id and note once the memory's fate is known.
pub fn persistence_outcome(p: Persistence, record_id: &String) -> (r: (Option<String>, Option<
    String,
>))
    ensures
        r.0 == (match p {
            Persistence::Stored => Some(*record_id),
            _ => None,
        }),
        opt_view(r.1) == spec_persistence_note(p),
{
    match p {
        Persistence::ModelChanged => (
            None,
            Some(to_owned_string("Model configuration changed during reading; memory was not stored")),
        ),
        Persistence::Stored => (Some(record_id.clone()), None),
        Persistence::SourceChanged => (
            None,
            Some(to_owned_string("Manuscript or prior reading changed; memory was not stored")),
        ),
        Persistence::StoreFailed => (
            None,
            Some(
                to_owned_string(
                    "Reading completed, but memory could not be stored; retry the reading",
                ),
            ),
        ),
    }
}

// ---------------------------------------------------------------------------
// Preparing a release
// ---------------------------------------------------------------------------

/// A chapter is ready for release: it has drafted scenes and a non-empty
/// scene plan whose every scene is drafted, and every drafted scene points
/// at the chapter and its book and is no stub.
pub open spec fn episode_ready(
    scenes: Seq<Scene>,
    stubs: Seq<Option<String>>,
    planned: Option<Seq<i32>>,
    chapter_id: Seq<char>,
    book_id: Seq<char>,
) -> bool {
    &&& scenes.len() > 0
    &&& planned matches Some(p) && p.len() > 0 && forall|k: int|
        0 <= k < p.len() ==> has_scene_order(scenes, #[trigger] p[k])
    &&& forall|i: int|
        0 <= i < scenes.len() ==> {
            &&& (#[trigger] scenes[i]).chapter_id@ == chapter_id
            &&& scenes[i].book_id@ == book_id
            &&& stubs[i] is None
        }
}

proof fn lemma_missing_plan_empty(planned: Seq<i32>, scenes: Seq<Scene>)
    ensures
        missing_plan_msgs(planned, scenes).len() == 0 <==> forall|k: int|
            0 <= k < planned.len() ==> has_scene_order(scenes, #[trigger] planned[k]),
    decreases planned.len(),
{
    if planned.len() > 0 {
        let rest = planned.drop_last();
        lemma_missing_plan_empty(rest, scenes);
        if missing_plan_msgs(planned, scenes).len() == 0 {
            assert forall|k: int| 0 <= k < planned.len() implies has_scene_order(
                scenes,
                #[trigger] planned[k],
            ) by {
                if k < planned.len() - 1 {
                    assert(rest[k] == planned[k]);
                }
            }
        }
        if forall|k: int| 0 <= k < planned.len() ==> has_scene_order(scenes, #[trigger] planned[k]) {
            assert forall|k: int| 0 <= k < rest.len() implies has_scene_order(scenes, #[trigger] rest[k]) by {
                assert(rest[k] == planned[k]);
            }
            assert(has_scene_order(scenes, planned[planned.len() - 1]));
        }
    }
}

proof fn lemma_scene_msgs_empty(
    scenes: Seq<Scene>,
    stubs: Seq<Option<String>>,
    chapter_id: Seq<char>,
    book_id: Seq<char>,
    n: int,
)
    requires
        0 <= n <= scenes.len(),
        stubs.len() == scenes.len(),
    ensures
        scene_msgs(scenes, stubs, chapter_id, book_id, n).len() == 0 <==> forall|i: int|
            0 <= i < n ==> {
                &&& (#[trigger] scenes[i]).chapter_id@ == chapter_id
                &&& scenes[i].book_id@ == book_id
                &&& stubs[i] is None
            },
    decreases n,
{
    if n > 0 {
        lemma_scene_msgs_empty(scenes, stubs, chapter_id, book_id, n - 1);
    }
}

/// Whatever blocks a release, nothing does exactly when the chapter is
/// ready: the blocking issues are empty if and only if `episode_ready`.
pub proof fn law_no_blocking_issue_iff_ready(
    scenes: Seq<Scene>,
    stubs: Seq<Option<String>>,
    planned: Option<Seq<i32>>,
    chapter_id: Seq<char>,
    book_id: Seq<char>,
)
    requires
        stubs.len() == scenes.len(),
    ensures
        spec_blocking_issues(scenes, stubs, planned, chapter_id, book_id).len() == 0
            <==> episode_ready(scenes, stubs, planned, chapter_id, book_id),
{
    lemma_scene_msgs_empty(scenes, stubs, chapter_id, book_id, scenes.len() as int);
    match planned {
        Some(p) => {
            lemma_missing_plan_empty(p, scenes);
        },
        None => {},
    }
}

/// Why a release cannot even be previewed.
#[derive(Debug, PartialEq, Eq, Structural)]
pub enum PreviewError {
    /// "invalid episode placement"
    InvalidPlacement,
    /// "project has no active branch"
    NoActiveBranch,
}

/// The snapshot a preview shows of a chapter's scenes.
pub open spec fn snapshot_of(
    r: EpisodeSnapshot,
    project_id: String,
    branch_id: String,
    book_number: i32,
    chapter: Chapter,
    scenes: Seq<Scene>,
) -> bool {
    &&& r.project_id == project_id
    &&& r.branch_id == branch_id
    &&& r.book_number == book_number
    &&& r.chapter_number == chapter.chapter_number
    &&& r.title@ == spec_episode_title(chapter.title, chapter.chapter_number)
    &&& r.markdown@ == spec_episode_markdown(r.title@, scenes)
    &&& r.word_count == total_words(scenes, scenes.len() as int)
    &&& r.scenes@.len() == scenes.len()
    &&& forall|i: int|
        0 <= i < scenes.len() ==> {
            let rs = #[trigger] r.scenes@[i];
            &&& rs.scene_id == scenes[i].id
            &&& rs.scene_order == scenes[i].scene_order
            &&& rs.text_sha256@ == sha256_hex_utf8(scenes[i].full_text@)
            &&& rs.content_rating == scenes[i].content_rating
            &&& rs.draft_origin == scenes[i].draft_origin
        }
}

/// The preview of a release, from what was read of the project's active
/// branch: the chapter row, its scenes on that branch (in scene order), the
/// stub verdict on each, and its scene plan there. The placement is checked
/// first; the snapshot is of the active branch's scenes only, and the
/// issues are everything that blocks the release.
pub fn episode_preview_draft(
    project_id: String,
    active_branch_id: &Option<String>,
    book_number: i32,
    chapter_number: i32,
    chapter_radix: i32,
    chapter: &Chapter,
    scenes: &Vec<Scene>,
    stub_reasons: &Vec<Option<String>>,
    planned_orders: &Option<Vec<i32>>,
) -> (r: Result<(EpisodeSnapshot, Vec<String>), PreviewError>)
    requires
        stub_reasons@.len() == scenes@.len(),
        total_words(scenes@, scenes@.len() as int) <= usize::MAX,
    ensures
        !(book_number > 0 && 0 <= chapter_number < chapter_radix) ==> r == Err::<
            (EpisodeSnapshot, Vec<String>),
            PreviewError,
        >(PreviewError::InvalidPlacement),
        (book_number > 0 && 0 <= chapter_number < chapter_radix) && active_branch_id is None
            ==> r == Err::<(EpisodeSnapshot, Vec<String>), PreviewError>(
            PreviewError::NoActiveBranch,
        ),
        (book_number > 0 && 0 <= chapter_number < chapter_radix) && active_branch_id is Some
            ==> match r {
            Ok((snap, issues)) => {
                &&& snapshot_of(
                    snap,
                    project_id,
                    active_branch_id->0,
                    book_number,
                    *chapter,
                    scenes@,
                )
                &&& views(issues@) == spec_blocking_issues(
                    scenes@,
                    stub_reasons@,
                    match planned_orders {
                        Some(p) => Some(p@),
                        None => None,
                    },
                    chapter.id@,
                    chapter.book_id@,
                )
            },
            Err(_) => false,
        },
{
    if !valid_episode_placement(book_number, chapter_number, chapter_radix) {
        return Err(PreviewError::InvalidPlacement);
    }
    let branch_id = match active_branch_id {
        Some(b) => b.clone(),
        None => {
            return Err(PreviewError::NoActiveBranch);
        },
    };
    let issues = episode_blocking_issues(scenes, stub_reasons, planned_orders, chapter);
    let snapshot = episode_snapshot(project_id, branch_id, book_number, chapter, scenes);
    Ok((snapshot, issues))
}

} // verus!
