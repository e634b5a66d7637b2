//! Story placements and the "at or before" ordering that every
//! time-travel query (snapshots, canonical facts, character states) uses.
//!
//! A placement is compared through its key `(book, chapter, scene)`, where a
//! missing scene order stands for "the whole chapter" and so sorts after
//! every scene of that chapter.

use vstd::prelude::*;

verus! {

/// A point in the manuscript.
pub struct StoryPlacement {
    pub book_number: i32,
    pub chapter_number: i32,
    pub scene_order: Option<i32>,
    pub note: Option<String>,
}

/// A comparison key: book, chapter, scene.
pub type PlacementKey = (i32, i32, i32);

/// Lexicographic `<=` on keys, as Rust orders tuples.
pub open spec fn key_le(a: PlacementKey, b: PlacementKey) -> bool {
    a.0 < b.0 || (a.0 == b.0 && (a.1 < b.1 || (a.1 == b.1 && a.2 <= b.2)))
}

/// Lexicographic `<` on keys.
pub open spec fn key_lt(a: PlacementKey, b: PlacementKey) -> bool {
    key_le(a, b) && a != b
}

pub open spec fn spec_placement_key(p: StoryPlacement) -> PlacementKey {
    (
        p.book_number,
        p.chapter_number,
        match p.scene_order {
            Some(o) => o,
            None => i32::MAX,
        },
    )
}

/// `current` lies at or after `point`.
pub open spec fn spec_at_or_after(current: StoryPlacement, point: StoryPlacement) -> bool {
    key_le(spec_placement_key(point), spec_placement_key(current))
}

/// Exec `<=` on keys.
pub fn key_less_eq(a: PlacementKey, b: PlacementKey) -> (r: bool)
    ensures
        r == key_le(a, b),
{
    a.0 < b.0 || (a.0 == b.0 && (a.1 < b.1 || (a.1 == b.1 && a.2 <= b.2)))
}

pub fn placement_key(p: &StoryPlacement) -> (r: PlacementKey)
    ensures
        r == spec_placement_key(*p),
{
    (
        p.book_number,
        p.chapter_number,
        match p.scene_order {
            Some(o) => o,
            None => i32::MAX,
        },
    )
}

pub fn placement_at_or_after(current: &StoryPlacement, point: &StoryPlacement) -> (r: bool)
    ensures
        r == spec_at_or_after(*current, *point),
{
    key_less_eq(placement_key(point), placement_key(current))
}

/// A record stamped at `(book, chapter, order)` is visible from `placement`.
pub open spec fn spec_position_at_or_before(
    book: i32,
    chapter: i32,
    order: i32,
    placement: StoryPlacement,
) -> bool {
    key_le((book, chapter, order), spec_placement_key(placement))
}

/// Shared by `scene_at_or_before` and `state_at_or_before`: both compare
/// the record's `(book, chapter, scene_order)` with the placement's key.
pub fn position_at_or_before(book: i32, chapter: i32, order: i32, placement: &StoryPlacement) -> (r:
    bool)
    ensures
        r == spec_position_at_or_before(book, chapter, order, *placement),
{
    key_less_eq((book, chapter, order), placement_key(placement))
}

/// A canonical fact established in `(fact_book, fact_chapter)` holds at
/// `placement`: it was established no later than the placement, its
/// `valid_from` is not after it, and its `valid_until` is not before it.
pub open spec fn spec_fact_at_or_before(
    fact_book: i32,
    fact_chapter: i32,
    valid_from: Option<StoryPlacement>,
    valid_until: Option<StoryPlacement>,
    placement: StoryPlacement,
) -> bool {
    let current = spec_placement_key(placement);
    &&& key_le((fact_book, fact_chapter, i32::MIN), current)
    &&& match valid_from {
        Some(f) => key_le(spec_placement_key(f), current),
        None => true,
    }
    &&& match valid_until {
        Some(u) => key_le(current, spec_placement_key(u)),
        None => true,
    }
}

pub fn fact_at_or_before(
    fact_book: i32,
    fact_chapter: i32,
    valid_from: &Option<StoryPlacement>,
    valid_until: &Option<StoryPlacement>,
    placement: &StoryPlacement,
) -> (r: bool)
    ensures
        r == spec_fact_at_or_before(fact_book, fact_chapter, *valid_from, *valid_until, *placement),
{
    let current = placement_key(placement);
    if !key_less_eq((fact_book, fact_chapter, i32::MIN), current) {
        return false;
    }
    if let Some(f) = valid_from {
        if !key_less_eq(placement_key(f), current) {
            return false;
        }
    }
    if let Some(u) = valid_until {
        if !key_less_eq(current, placement_key(u)) {
            return false;
        }
    }
    true
}

/// The key of the earliest placed milestone, if any milestone is placed.
pub open spec fn earliest_key(milestones: Seq<Option<StoryPlacement>>) -> Option<PlacementKey>
    decreases milestones.len(),
{
    if milestones.len() == 0 {
        None
    } else {
        let rest = earliest_key(milestones.drop_last());
        match milestones.last() {
            None => rest,
            Some(p) => match rest {
                None => Some(spec_placement_key(p)),
                Some(k) => if key_le(k, spec_placement_key(p)) {
                    Some(k)
                } else {
                    Some(spec_placement_key(p))
                },
            },
        }
    }
}

/// A character arc is established at `placement` when its first placed
/// milestone lies at or before it; an arc without placed milestones is
/// established everywhere.
pub open spec fn spec_arc_established(
    milestones: Seq<Option<StoryPlacement>>,
    placement: StoryPlacement,
) -> bool {
    match earliest_key(milestones) {
        Some(k) => key_le(k, spec_placement_key(placement)),
        None => true,
    }
}

pub fn arc_established_at_or_before(
    milestones: &Vec<Option<StoryPlacement>>,
    placement: &StoryPlacement,
) -> (r: bool)
    ensures
        r == spec_arc_established(milestones@, *placement),
{
    let mut best: Option<PlacementKey> = None;
    let mut i: usize = 0;
    while i < milestones.len()
        invariant
            i <= milestones.len(),
            best == earliest_key(milestones@.take(i as int)),
        decreases milestones.len() - i,
    {
        assert(milestones@.take(i + 1).drop_last() =~= milestones@.take(i as int));
        match &milestones[i] {
            None => {},
            Some(p) => {
                let k = placement_key(p);
                match best {
                    None => {
                        best = Some(k);
                    },
                    Some(b) => {
                        if !key_less_eq(b, k) {
                            best = Some(k);
                        }
                    },
                }
            },
        }
        i = i + 1;
    }
    assert(milestones@.take(milestones@.len() as int) =~= milestones@);
    match best {
        Some(k) => key_less_eq(k, placement_key(placement)),
        None => true,
    }
}

/// `at_or_after` holds of every placement and itself.
pub proof fn law_at_or_after_reflexive(p: StoryPlacement)
    ensures
        spec_at_or_after(p, p),
{
}

/// `at_or_after` is transitive: if `a` is at or after `b` and `b` at or
/// after `c`, then `a` is at or after `c`.
pub proof fn law_at_or_after_transitive(a: StoryPlacement, b: StoryPlacement, c: StoryPlacement)
    requires
        spec_at_or_after(a, b),
        spec_at_or_after(b, c),
    ensures
        spec_at_or_after(a, c),
{
}

/// Any two placements are comparable.
pub proof fn law_at_or_after_total(a: StoryPlacement, b: StoryPlacement)
    ensures
        spec_at_or_after(a, b) || spec_at_or_after(b, a),
{
}

/// A placement without a scene order covers every scene of its chapter: a
/// record in that chapter is at or before it, whatever its scene order.
pub proof fn law_chapter_placement_covers_scenes(p: StoryPlacement, order: i32)
    requires
        p.scene_order is None,
    ensures
        spec_position_at_or_before(p.book_number, p.chapter_number, order, p),
{
}

/// A fact whose validity starts in a later book, or in a later chapter of
/// the same book, does not hold at the placement.
pub proof fn law_fact_not_yet_valid(
    fact_book: i32,
    fact_chapter: i32,
    f: StoryPlacement,
    valid_until: Option<StoryPlacement>,
    p: StoryPlacement,
)
    requires
        f.book_number > p.book_number || (f.book_number == p.book_number && f.chapter_number
            > p.chapter_number),
    ensures
        !spec_fact_at_or_before(fact_book, fact_chapter, Some(f), valid_until, p),
{
}

/// Within one chapter, a fact valid from a later scene than the placement's
/// does not hold there yet.
pub proof fn law_fact_not_yet_valid_in_chapter(
    fact_book: i32,
    fact_chapter: i32,
    f: StoryPlacement,
    valid_until: Option<StoryPlacement>,
    p: StoryPlacement,
    fo: i32,
    po: i32,
)
    requires
        f.book_number == p.book_number,
        f.chapter_number == p.chapter_number,
        f.scene_order == Some(fo),
        p.scene_order == Some(po),
        fo > po,
    ensures
        !spec_fact_at_or_before(fact_book, fact_chapter, Some(f), valid_until, p),
{
}

/// A fact whose validity ended in an earlier book, or an earlier chapter of
/// the same book, no longer holds at the placement.
pub proof fn law_fact_expired(
    fact_book: i32,
    fact_chapter: i32,
    valid_from: Option<StoryPlacement>,
    u: StoryPlacement,
    p: StoryPlacement,
)
    requires
        u.book_number < p.book_number || (u.book_number == p.book_number && u.chapter_number
            < p.chapter_number),
    ensures
        !spec_fact_at_or_before(fact_book, fact_chapter, valid_from, Some(u), p),
{
}

/// A fact established in a later book, or a later chapter of the same book,
/// does not hold at the placement.
pub proof fn law_fact_not_yet_established(
    fact_book: i32,
    fact_chapter: i32,
    valid_from: Option<StoryPlacement>,
    valid_until: Option<StoryPlacement>,
    p: StoryPlacement,
)
    requires
        fact_book > p.book_number || (fact_book == p.book_number && fact_chapter
            > p.chapter_number),
    ensures
        !spec_fact_at_or_before(fact_book, fact_chapter, valid_from, valid_until, p),
{
}

/// A fact established no later than the placement's chapter, valid from an
/// earlier chapter (or always) and until a later one (or for good), holds
/// at the placement.
pub proof fn law_fact_in_force(
    fact_book: i32,
    fact_chapter: i32,
    valid_from: Option<StoryPlacement>,
    valid_until: Option<StoryPlacement>,
    p: StoryPlacement,
)
    requires
        fact_book < p.book_number || (fact_book == p.book_number && fact_chapter
            <= p.chapter_number),
        match valid_from {
            Some(f) => f.book_number < p.book_number || (f.book_number == p.book_number
                && f.chapter_number < p.chapter_number),
            None => true,
        },
        match valid_until {
            Some(u) => u.book_number > p.book_number || (u.book_number == p.book_number
                && u.chapter_number > p.chapter_number),
            None => true,
        },
    ensures
        spec_fact_at_or_before(fact_book, fact_chapter, valid_from, valid_until, p),
{
}

/// Exactly when a fact holds at a placement, comparing (book, chapter,
/// scene) in reading order, where a placement without a scene stands at the
/// end of its chapter: the fact's chapter has begun, its `valid_from` is not
/// after the placement, and its `valid_until` is not before it.
pub proof fn law_fact_at_or_before_exact(
    fact_book: i32,
    fact_chapter: i32,
    valid_from: Option<StoryPlacement>,
    valid_until: Option<StoryPlacement>,
    p: StoryPlacement,
)
    ensures
        ({
            let po: int = match p.scene_order {
                Some(o) => o as int,
                None => i32::MAX as int,
            };
            let established = fact_book < p.book_number || (fact_book == p.book_number
                && fact_chapter <= p.chapter_number);
            let started = match valid_from {
                Some(f) => {
                    let fo: int = match f.scene_order {
                        Some(o) => o as int,
                        None => i32::MAX as int,
                    };
                    f.book_number < p.book_number || (f.book_number == p.book_number && (
                    f.chapter_number < p.chapter_number || (f.chapter_number == p.chapter_number
                        && fo <= po)))
                },
                None => true,
            };
            let not_ended = match valid_until {
                Some(u) => {
                    let uo: int = match u.scene_order {
                        Some(o) => o as int,
                        None => i32::MAX as int,
                    };
                    p.book_number < u.book_number || (p.book_number == u.book_number && (
                    p.chapter_number < u.chapter_number || (p.chapter_number == u.chapter_number
                        && po <= uo)))
                },
                None => true,
            };
            spec_fact_at_or_before(fact_book, fact_chapter, valid_from, valid_until, p) == (
            established && started && not_ended)
        }),
{
}

/// An owned copy of a placement.
pub fn clone_placement(p: &StoryPlacement) -> (r: StoryPlacement)
    ensures
        r == *p,
{
    StoryPlacement {
        book_number: p.book_number,
        chapter_number: p.chapter_number,
        scene_order: p.scene_order,
        note: crate::text::clone_opt_string(&p.note),
    }
}

/// An owned copy of an optional placement.
pub fn clone_opt_placement(p: &Option<StoryPlacement>) -> (r: Option<StoryPlacement>)
    ensures
        r == *p,
{
    match p {
        Some(x) => Some(clone_placement(x)),
        None => None,
    }
}

} // verus!
