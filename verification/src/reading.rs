//! What a simulated reading is measured against: the chapters up to the
//! cursor, in order, each with a fingerprint of everything read up to it.
//!
//! A stored reading remembers the fingerprint of the chapter it stopped at;
//! it stays usable while that fingerprint is unchanged, so any edit to that
//! chapter or to one before it makes the reading stale.

use vstd::prelude::*;
use crate::records::Scene;
use crate::row::{timestamp_rfc3339_z, rfc3339_z_text_of, utc_representable_micros};
use crate::digest::{sha256_hex_bytes, sha256_hex_of_bytes};
use crate::serial::{ChapterHash, spec_rating_rank, serial_rating_rank};
use crate::text::{views, to_owned_string, int_decimal};

verus! {

/// A chapter's place in the series: book number, chapter number.
pub type Position = (i32, i32);

pub open spec fn pos_le(a: Position, b: Position) -> bool {
    a.0 < b.0 || (a.0 == b.0 && a.1 <= b.1)
}

pub open spec fn pos_lt(a: Position, b: Position) -> bool {
    a.0 < b.0 || (a.0 == b.0 && a.1 < b.1)
}

pub open spec fn scene_pos(s: Scene) -> Position {
    (s.book_number, s.chapter_number)
}

/// Scenes listed by book and chapter, as the scene query orders them.
pub open spec fn scenes_in_order(s: Seq<Scene>) -> bool {
    forall|i: int, j: int| 0 <= i < j < s.len() ==> pos_le(scene_pos(s[i]), scene_pos(s[j]))
}

pub open spec fn positions_in_order(p: Seq<Position>) -> bool {
    forall|i: int, j: int| 0 <= i < j < p.len() ==> pos_le(p[i], p[j])
}

pub open spec fn strictly_increasing(p: Seq<Position>) -> bool {
    forall|i: int, j: int| 0 <= i < j < p.len() ==> pos_lt(p[i], p[j])
}

pub open spec fn has_scene_at(scenes: Seq<Scene>, p: Position) -> bool {
    exists|k: int| 0 <= k < scenes.len() && scene_pos(#[trigger] scenes[k]) == p
}

/// `out` lists, in order and once each, every position that holds a scene
/// or a chapter row.
pub open spec fn covers(out: Seq<Position>, scenes: Seq<Scene>, chapters: Seq<Position>) -> bool {
    &&& strictly_increasing(out)
    &&& forall|p: Position| #[trigger]
        out.contains(p) <==> (has_scene_at(scenes, p) || chapters.contains(p))
}

/// The bytes of an ASCII text.
pub open spec fn ascii_bytes(s: Seq<char>) -> Seq<u8> {
    s.map_values(|c: char| c as u8)
}

/// The compact JSON array `[book,chapter]`: both numbers in decimal, a `-`
/// before a negative one, no spaces.
pub open spec fn json_position(book: i32, chapter: i32) -> Seq<u8> {
    ascii_bytes("["@ + int_decimal(book as int) + ","@ + int_decimal(chapter as int) + "]"@)
}

/// serde_json's bytes for the array `[id, order, text, rating, time]`.
pub uninterp spec fn json_scene_entry(
    id: Seq<char>,
    order: i32,
    text: Seq<char>,
    rating: Seq<char>,
    time: Seq<char>,
) -> Seq<u8>;

/// Calls `serde_json::to_vec(&(book, chapter))`. serde_json fails only where
/// a `Serialize` impl fails or a map has a key that is not a string; two
/// integers do neither. Claimed: a pair is written as a compact array and
/// each `i32` in decimal, as `json_position` states.
#[verifier::external_body]
fn position_json(book: i32, chapter: i32) -> (r: Vec<u8>)
    ensures
        r@ == json_position(book, chapter),
{
    match serde_json::to_vec(&(book, chapter)) {
        Ok(bytes) => bytes,
        Err(_) => Vec::new(),
    }
}

/// Calls `serde_json::to_vec(&(id, order, text, rating, time))`; strings
/// and an integer cannot make it fail. Claimed: the result is the named
/// encoding.
#[verifier::external_body]
fn scene_entry_json(id: &str, order: i32, text: &str, rating: &str, time: &str) -> (r: Vec<u8>)
    ensures
        r@ == json_scene_entry(id@, order, text@, rating@, time@),
{
    match serde_json::to_vec(&(id, order, text, rating, time)) {
        Ok(bytes) => bytes,
        Err(_) => Vec::new(),
    }
}

/// What a scene adds to the fingerprint: its id, order, text, rating and
/// last change.
pub open spec fn scene_entry(s: Scene) -> Seq<u8> {
    json_scene_entry(
        s.id@,
        s.scene_order,
        s.full_text@,
        s.content_rating@,
        rfc3339_z_text_of(s.updated_at.micros as int),
    )
}

/// The entries of the scenes at `p` among the first `n`, in order.
pub open spec fn entries_at(scenes: Seq<Scene>, p: Position, n: int) -> Seq<u8>
    decreases n,
{
    if n <= 0 {
        Seq::empty()
    } else {
        let rest = entries_at(scenes, p, n - 1);
        if scene_pos(scenes[n - 1]) == p {
            rest + scene_entry(scenes[n - 1])
        } else {
            rest
        }
    }
}

/// What one chapter adds to the fingerprint: its position, then its scenes.
pub open spec fn chunk(scenes: Seq<Scene>, p: Position) -> Seq<u8> {
    json_position(p.0, p.1) + entries_at(scenes, p, scenes.len() as int)
}

/// The bytes read through the `n`-th chapter of `ps`.
pub open spec fn stream(prefix: Seq<u8>, scenes: Seq<Scene>, ps: Seq<Position>, n: int) -> Seq<u8>
    decreases n,
{
    if n <= 0 {
        prefix
    } else {
        stream(prefix, scenes, ps, n - 1) + chunk(scenes, ps[n - 1])
    }
}

/// The ids of the scenes at `p` among the first `n`, in order.
pub open spec fn ids_at(scenes: Seq<Scene>, p: Position, n: int) -> Seq<Seq<char>>
    decreases n,
{
    if n <= 0 {
        Seq::empty()
    } else {
        let rest = ids_at(scenes, p, n - 1);
        if scene_pos(scenes[n - 1]) == p {
            rest.push(scenes[n - 1].id@)
        } else {
            rest
        }
    }
}

/// The strictest rating of the scenes at `p` among the first `n`, starting
/// from "general"; an earlier scene keeps its place on a tie.
pub open spec fn rating_at(scenes: Seq<Scene>, p: Position, n: int) -> Seq<char>
    decreases n,
{
    if n <= 0 {
        "general"@
    } else {
        let cur = rating_at(scenes, p, n - 1);
        let s = scenes[n - 1];
        if scene_pos(s) == p && spec_rating_rank(s.content_rating@) > spec_rating_rank(cur) {
            s.content_rating@
        } else {
            cur
        }
    }
}

pub open spec fn hash_positions(hs: Seq<ChapterHash>) -> Seq<Position> {
    hs.map_values(|h: ChapterHash| (h.book_number, h.chapter_number))
}

/// The chapters up to a reading cursor with their fingerprints, and the
/// scenes and rating of the chapter to read.
pub struct ReaderDigest {
    pub hashes: Vec<ChapterHash>,
    pub scene_ids: Vec<String>,
    pub rating: String,
}

proof fn lemma_entries_tail(scenes: Seq<Scene>, p: Position, a: int, n: int)
    requires
        0 <= a <= n <= scenes.len(),
        forall|k: int| a <= k < n ==> scene_pos(#[trigger] scenes[k]) != p,
    ensures
        entries_at(scenes, p, n) == entries_at(scenes, p, a),
    decreases n - a,
{
    if n > a {
        lemma_entries_tail(scenes, p, a, n - 1);
    }
}

proof fn lemma_stream_push(prefix: Seq<u8>, scenes: Seq<Scene>, ps: Seq<Position>, x: Position, n: int)
    requires
        0 <= n <= ps.len(),
    ensures
        stream(prefix, scenes, ps.push(x), n) == stream(prefix, scenes, ps, n),
    decreases n,
{
    if n > 0 {
        lemma_stream_push(prefix, scenes, ps, x, n - 1);
        assert(ps.push(x)[n - 1] == ps[n - 1]);
    }
}

fn position_le(a: Position, b: Position) -> (r: bool)
    ensures
        r == pos_le(a, b),
{
    a.0 < b.0 || (a.0 == b.0 && a.1 <= b.1)
}

/// Fingerprint the chapters up to a reading cursor. `prefix` is what the
/// fingerprint starts from (the project, branch, reader contract and model
/// setup), `scenes` the scenes up to the cursor and `chapters` the chapter
/// rows up to it, both in book and chapter order. Every position that holds
/// a scene or a chapter row gets the digest of `prefix` and of every
/// chapter's position and scenes up to and including it. `None` when a
/// scene's change time is outside what chrono represents.
pub fn reader_digest(
    prefix: Vec<u8>,
    scenes: &Vec<Scene>,
    chapters: &Vec<Position>,
    book: i32,
    chapter: i32,
) -> (r: Option<ReaderDigest>)
    requires
        scenes_in_order(scenes@),
        positions_in_order(chapters@),
    ensures
        match r {
            None => exists|k: int|
                0 <= k < scenes@.len() && !utc_representable_micros(
                    (#[trigger] scenes@[k]).updated_at.micros as int,
                ),
            Some(d) => {
                let ps = hash_positions(d.hashes@);
                &&& forall|k: int|
                    0 <= k < scenes@.len() ==> utc_representable_micros(
                        (#[trigger] scenes@[k]).updated_at.micros as int,
                    )
                &&& covers(ps, scenes@, chapters@)
                &&& forall|k: int|
                    0 <= k < ps.len() ==> (#[trigger] d.hashes@[k]).hash@ == sha256_hex_of_bytes(
                        stream(prefix@, scenes@, ps, k + 1),
                    )
                &&& views(d.scene_ids@) == ids_at(scenes@, (book, chapter), scenes@.len() as int)
                &&& d.rating@ == rating_at(scenes@, (book, chapter), scenes@.len() as int)
            },
        },
{
    let ghost pre = prefix@;
    let ghost target: Position = (book, chapter);
    let mut acc = prefix;
    let mut hashes: Vec<ChapterHash> = Vec::new();
    let mut ids: Vec<String> = Vec::new();
    let mut rating = to_owned_string("general");
    proof {
        reveal_strlit("general");
    }
    let ns = scenes.len();
    let nc = chapters.len();
    let mut i: usize = 0;
    let mut j: usize = 0;
    while i < ns || j < nc
        invariant
            ns == scenes@.len(),
            nc == chapters@.len(),
            i <= ns,
            j <= nc,
            scenes_in_order(scenes@),
            positions_in_order(chapters@),
            target == (book, chapter),
            strictly_increasing(hash_positions(hashes@)),
            forall|q: Position| #[trigger]
                hash_positions(hashes@).contains(q) <==> (has_scene_at(scenes@.take(i as int), q)
                    || chapters@.take(j as int).contains(q)),
            hashes@.len() > 0 ==> forall|k: int|
                i <= k < ns ==> pos_lt(hash_positions(hashes@).last(), scene_pos(#[trigger] scenes@[k])),
            hashes@.len() > 0 ==> forall|k: int|
                j <= k < nc ==> pos_lt(hash_positions(hashes@).last(), #[trigger] chapters@[k]),
            acc@ == stream(pre, scenes@, hash_positions(hashes@), hashes@.len() as int),
            forall|k: int|
                0 <= k < hashes@.len() ==> (#[trigger] hashes@[k]).hash@ == sha256_hex_of_bytes(
                    stream(pre, scenes@, hash_positions(hashes@), k + 1),
                ),
            forall|k: int|
                0 <= k < i ==> utc_representable_micros(
                    (#[trigger] scenes@[k]).updated_at.micros as int,
                ),
            views(ids@) == ids_at(scenes@, target, i as int),
            rating@ == rating_at(scenes@, target, i as int),
        decreases (ns - i) + (nc - j),
    {
        let ghost ps = hash_positions(hashes@);
        let ghost i0 = i;
        let ghost j0 = j;
        let p: Position = if i < ns && j < nc {
            let sp: Position = (scenes[i].book_number, scenes[i].chapter_number);
            if position_le(sp, chapters[j]) {
                sp
            } else {
                chapters[j]
            }
        } else if i < ns {
            (scenes[i].book_number, scenes[i].chapter_number)
        } else {
            chapters[j]
        };
        proof {
            // Every scene and chapter not yet consumed lies at or after `p`.
            assert forall|k: int| i0 <= k < ns implies pos_le(p, scene_pos(#[trigger] scenes@[k])) by {
                assert(pos_le(scene_pos(scenes@[i0 as int]), scene_pos(scenes@[k])));
            }
            assert forall|k: int| j0 <= k < nc implies pos_le(p, #[trigger] chapters@[k]) by {
                assert(pos_le(chapters@[j0 as int], chapters@[k]));
            }
            // Nothing consumed so far lies at `p`.
            assert forall|k: int| 0 <= k < i0 implies scene_pos(#[trigger] scenes@[k]) != p by {
                assert(scenes@.take(i0 as int)[k] == scenes@[k]);
                assert(has_scene_at(scenes@.take(i0 as int), scene_pos(scenes@[k])));
                assert(ps.contains(scene_pos(scenes@[k])));
                let m = choose|m: int| 0 <= m < ps.len() && ps[m] == scene_pos(scenes@[k]);
                if m < ps.len() - 1 {
                    assert(pos_lt(ps[m], ps[ps.len() - 1]));
                }
            }
            lemma_entries_tail(scenes@, p, 0, i0 as int);
        }
        let mut bytes = position_json(p.0, p.1);
        while i < ns && scenes[i].book_number == p.0 && scenes[i].chapter_number == p.1
            invariant
                ns == scenes@.len(),
                i0 <= i <= ns,
                target == (book, chapter),
                forall|k: int| i0 <= k < i ==> scene_pos(#[trigger] scenes@[k]) == p,
                bytes@ == json_position(p.0, p.1) + entries_at(scenes@, p, i as int),
                forall|k: int|
                    0 <= k < i ==> utc_representable_micros(
                        (#[trigger] scenes@[k]).updated_at.micros as int,
                    ),
                views(ids@) == ids_at(scenes@, target, i as int),
                rating@ == rating_at(scenes@, target, i as int),
            decreases ns - i,
        {
            let s = &scenes[i];
            let time = match timestamp_rfc3339_z(s.updated_at) {
                Some(t) => t,
                None => {
                    return None;
                },
            };
            let mut entry = scene_entry_json(
                s.id.as_str(),
                s.scene_order,
                s.full_text.as_str(),
                s.content_rating.as_str(),
                time.as_str(),
            );
            bytes.append(&mut entry);
            if p.0 == book && p.1 == chapter {
                if serial_rating_rank(s.content_rating.as_str()) > serial_rating_rank(
                    rating.as_str(),
                ) {
                    rating = s.content_rating.clone();
                }
                let id = s.id.clone();
                proof {
                    assert(views(ids@.push(id)) =~= views(ids@).push(id@));
                }
                ids.push(id);
            }
            i = i + 1;
        }
        while j < nc && chapters[j].0 == p.0 && chapters[j].1 == p.1
            invariant
                nc == chapters@.len(),
                j0 <= j <= nc,
                forall|k: int| j0 <= k < j ==> #[trigger] chapters@[k] == p,
            decreases nc - j,
        {
            j = j + 1;
        }
        proof {
            // The scenes after the chapter's block lie after `p`.
            assert forall|k: int| i <= k < ns implies pos_lt(p, scene_pos(#[trigger] scenes@[k])) by {
                assert(pos_le(scene_pos(scenes@[i as int]), scene_pos(scenes@[k])));
                assert(pos_le(p, scene_pos(scenes@[i as int])));
            }
            assert forall|k: int| j <= k < nc implies pos_lt(p, #[trigger] chapters@[k]) by {
                assert(pos_le(chapters@[j as int], chapters@[k]));
                assert(pos_le(p, chapters@[j as int]));
            }
            lemma_entries_tail(scenes@, p, i as int, ns as int);
        }
        acc.append(&mut bytes);
        let h = sha256_hex_bytes(acc.as_slice());
        let ghost old_hashes = hashes@;
        hashes.push(ChapterHash { book_number: p.0, chapter_number: p.1, hash: h });
        proof {
            let ps2 = hash_positions(hashes@);
            assert(ps2 =~= ps.push(p));
            assert forall|k: int| 0 <= k <= ps.len() implies stream(pre, scenes@, ps2, k) == stream(
                pre,
                scenes@,
                ps,
                k,
            ) by {
                lemma_stream_push(pre, scenes@, ps, p, k);
            }
            assert(stream(pre, scenes@, ps2, ps2.len() as int) == stream(pre, scenes@, ps, ps.len() as int)
                + chunk(scenes@, p));
            assert forall|k: int| 0 <= k < hashes@.len() implies (#[trigger] hashes@[k]).hash@
                == sha256_hex_of_bytes(stream(pre, scenes@, ps2, k + 1)) by {
                if k < old_hashes.len() {
                    assert(hashes@[k] == old_hashes[k]);
                }
            }
            assert forall|a: int, b: int| 0 <= a < b < ps2.len() implies pos_lt(ps2[a], ps2[b]) by {
                if b == ps2.len() - 1 && a < ps.len() {
                    if a < ps.len() - 1 {
                        assert(pos_lt(ps[a], ps[ps.len() - 1]));
                    }
                    if i0 < ns && pos_le(scene_pos(scenes@[i0 as int]), p) {
                        assert(pos_lt(ps.last(), scene_pos(scenes@[i0 as int])));
                    } else {
                        assert(pos_lt(ps.last(), chapters@[j0 as int]));
                    }
                }
            }
            assert forall|q: Position| #[trigger]
                ps2.contains(q) <==> (has_scene_at(scenes@.take(i as int), q)
                    || chapters@.take(j as int).contains(q)) by {
                if ps2.contains(q) {
                    let m = choose|m: int| 0 <= m < ps2.len() && ps2[m] == q;
                    if m < ps.len() {
                        assert(ps.contains(q));
                        if has_scene_at(scenes@.take(i0 as int), q) {
                            let w = choose|w: int| 0 <= w < i0 && scene_pos(scenes@.take(i0 as int)[w]) == q;
                            assert(scenes@.take(i as int)[w] == scenes@.take(i0 as int)[w]);
                        } else {
                            let w = choose|w: int| 0 <= w < j0 && chapters@.take(j0 as int)[w] == q;
                            assert(chapters@.take(j as int)[w] == chapters@.take(j0 as int)[w]);
                        }
                    } else {
                        assert(q == p);
                        if i > i0 {
                            assert(scenes@.take(i as int)[i0 as int] == scenes@[i0 as int]);
                        } else {
                            assert(chapters@.take(j as int)[j0 as int] == chapters@[j0 as int]);
                        }
                    }
                }
                if has_scene_at(scenes@.take(i as int), q) {
                    let w = choose|w: int| 0 <= w < i && scene_pos(scenes@.take(i as int)[w]) == q;
                    if w < i0 {
                        assert(scenes@.take(i0 as int)[w] == scenes@[w]);
                        assert(has_scene_at(scenes@.take(i0 as int), q));
                        assert(ps.contains(q));
                        let m = choose|m: int| 0 <= m < ps.len() && ps[m] == q;
                        assert(ps2[m] == q);
                    } else {
                        assert(scenes@[w] == scenes@.take(i as int)[w]);
                        assert(ps2[ps.len() as int] == q);
                    }
                }
                if chapters@.take(j as int).contains(q) {
                    let w = choose|w: int| 0 <= w < j && chapters@.take(j as int)[w] == q;
                    if w < j0 {
                        assert(chapters@.take(j0 as int)[w] == q);
                        assert(ps.contains(q));
                        let m = choose|m: int| 0 <= m < ps.len() && ps[m] == q;
                        assert(ps2[m] == q);
                    } else {
                        assert(chapters@[w] == q);
                        assert(ps2[ps.len() as int] == q);
                    }
                }
            }
        }
    }
    proof {
        assert(scenes@.take(ns as int) =~= scenes@);
        assert(chapters@.take(nc as int) =~= chapters@);
    }
    Some(ReaderDigest { hashes, scene_ids: ids, rating })
}

/// The scenes at `p` among the first `n`, in order.
pub open spec fn scenes_at(scenes: Seq<Scene>, p: Position, n: int) -> Seq<Scene>
    decreases n,
{
    if n <= 0 {
        Seq::empty()
    } else {
        let rest = scenes_at(scenes, p, n - 1);
        if scene_pos(scenes[n - 1]) == p {
            rest.push(scenes[n - 1])
        } else {
            rest
        }
    }
}

pub open spec fn entries_of(ss: Seq<Scene>) -> Seq<u8>
    decreases ss.len(),
{
    if ss.len() == 0 {
        Seq::empty()
    } else {
        entries_of(ss.drop_last()) + scene_entry(ss.last())
    }
}

proof fn lemma_entries_at_scenes(scenes: Seq<Scene>, p: Position, n: int)
    ensures
        entries_at(scenes, p, n) == entries_of(scenes_at(scenes, p, n)),
    decreases n,
{
    if n > 0 {
        lemma_entries_at_scenes(scenes, p, n - 1);
        let rest = scenes_at(scenes, p, n - 1);
        if scene_pos(scenes[n - 1]) == p {
            assert(rest.push(scenes[n - 1]).drop_last() =~= rest);
        }
    }
}

/// The fingerprint through a chapter reads nothing after it: two
/// manuscripts whose scenes agree at each chapter up to the `n`-th give the
/// same bytes there, however they differ later, so editing a later chapter
/// leaves an earlier reading valid.
pub proof fn law_fingerprint_reads_only_earlier_chapters(
    prefix: Seq<u8>,
    s1: Seq<Scene>,
    s2: Seq<Scene>,
    ps: Seq<Position>,
    n: int,
)
    requires
        0 <= n <= ps.len(),
        forall|k: int|
            0 <= k < n ==> scenes_at(s1, #[trigger] ps[k], s1.len() as int) == scenes_at(
                s2,
                ps[k],
                s2.len() as int,
            ),
    ensures
        stream(prefix, s1, ps, n) == stream(prefix, s2, ps, n),
    decreases n,
{
    if n > 0 {
        law_fingerprint_reads_only_earlier_chapters(prefix, s1, s2, ps, n - 1);
        let p = ps[n - 1];
        lemma_entries_at_scenes(s1, p, s1.len() as int);
        lemma_entries_at_scenes(s2, p, s2.len() as int);
    }
}

/// The branch a reading follows: the one asked for, else the project's
/// active branch; `None` when neither is set.
pub fn reader_branch(requested: &Option<String>, active: &Option<String>) -> (r: Option<String>)
    ensures
        r == (match requested {
            Some(b) => Some(*b),
            None => *active,
        }),
{
    match requested {
        Some(b) => Some(b.clone()),
        None => crate::text::clone_opt_string(active),
    }
}

} // verus!
