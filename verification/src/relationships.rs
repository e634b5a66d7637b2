//! Relationship edges between characters: which row an edit addresses and
//! how trust and tension change.

use vstd::prelude::*;
use crate::records::RelatesTo;
use crate::row::Timestamp;
use crate::text::str_eq;

verus! {

/// A stored edge links the pair in either orientation.
pub open spec fn links_pair(row_in: Seq<char>, row_out: Seq<char>, a: Seq<char>, b: Seq<char>) -> bool {
    (row_in == a && row_out == b) || (row_in == b && row_out == a)
}

pub fn edge_links_pair(row_in: &str, row_out: &str, a: &str, b: &str) -> (r: bool)
    ensures
        r == links_pair(row_in@, row_out@, a@, b@),
{
    (str_eq(row_in, a) && str_eq(row_out, b)) || (str_eq(row_in, b) && str_eq(row_out, a))
}

/// Where creating a relationship between `a` and `b` writes.
pub enum EdgeWrite {
    /// An edge already links the pair: overwrite it, keeping its orientation.
    Update { in_id: String, out_id: String },
    /// Insert the edge `a -> b`.
    Insert { in_id: String, out_id: String },
}

pub fn plan_create_relationship(existing: Option<(String, String)>, a: String, b: String) -> (r:
    EdgeWrite)
    ensures
        match existing {
            Some((i, o)) => r == (EdgeWrite::Update { in_id: i, out_id: o }),
            None => r == (EdgeWrite::Insert { in_id: a, out_id: b }),
        },
{
    match existing {
        Some((i, o)) => EdgeWrite::Update { in_id: i, out_id: o },
        None => EdgeWrite::Insert { in_id: a, out_id: b },
    }
}

#[derive(Debug, PartialEq, Eq, Structural)]
pub enum RelationshipError {
    /// The new trust or tension does not fit the column's `i32`.
    ValueOutOfRange,
}

pub open spec fn fits_i32(x: int) -> bool {
    i32::MIN <= x <= i32::MAX
}

/// Apply trust and tension deltas to an edge and record why and where.
pub fn apply_relationship_delta(
    rel: RelatesTo,
    trust_delta: i32,
    tension_delta: i32,
    reason: Option<String>,
    scene_id: Option<String>,
    now: Timestamp,
) -> (r: Result<RelatesTo, RelationshipError>)
    ensures
        match r {
            Ok(out) => {
                &&& fits_i32(rel.trust + trust_delta)
                &&& fits_i32(rel.tension + tension_delta)
                &&& out == (RelatesTo {
                    trust: (rel.trust + trust_delta) as i32,
                    tension: (rel.tension + tension_delta) as i32,
                    reason,
                    last_scene_id: scene_id,
                    updated_at: now,
                    ..rel
                })
            },
            Err(e) => e == RelationshipError::ValueOutOfRange && !(fits_i32(rel.trust + trust_delta)
                && fits_i32(rel.tension + tension_delta)),
        },
{
    let t = rel.trust as i64 + trust_delta as i64;
    let n = rel.tension as i64 + tension_delta as i64;
    if t < i32::MIN as i64 || t > i32::MAX as i64 || n < i32::MIN as i64 || n > i32::MAX as i64 {
        return Err(RelationshipError::ValueOutOfRange);
    }
    let mut rel = rel;
    rel.trust = t as i32;
    rel.tension = n as i32;
    rel.reason = reason;
    rel.last_scene_id = scene_id;
    rel.updated_at = now;
    Ok(rel)
}

/// Write absolute trust and tension (imports carry canonical values, not
/// deltas); a missing reason or scene keeps the stored one.
pub open spec fn spec_set_absolute(
    rel: RelatesTo,
    trust: i32,
    tension: i32,
    reason: Option<String>,
    last_scene_id: Option<String>,
    now: Timestamp,
) -> RelatesTo {
    RelatesTo {
        trust,
        tension,
        reason: match reason {
            Some(x) => Some(x),
            None => rel.reason,
        },
        last_scene_id: match last_scene_id {
            Some(x) => Some(x),
            None => rel.last_scene_id,
        },
        updated_at: now,
        ..rel
    }
}

pub fn set_relationship_absolute(
    rel: RelatesTo,
    trust: i32,
    tension: i32,
    reason: Option<String>,
    last_scene_id: Option<String>,
    now: Timestamp,
) -> (r: RelatesTo)
    ensures
        r == spec_set_absolute(rel, trust, tension, reason, last_scene_id, now),
{
    let mut rel = rel;
    rel.trust = trust;
    rel.tension = tension;
    if reason.is_some() {
        rel.reason = reason;
    }
    if last_scene_id.is_some() {
        rel.last_scene_id = last_scene_id;
    }
    rel.updated_at = now;
    rel
}

/// Setting absolute values keeps what was not given: with no reason (or no
/// scene) the stored one stays, a given one replaces it, and the edge's
/// ends, type and dynamics never change.
pub proof fn law_absolute_keeps_unspecified(
    rel: RelatesTo,
    trust: i32,
    tension: i32,
    reason: Option<String>,
    last_scene_id: Option<String>,
    now: Timestamp,
)
    ensures
        ({
            let r = spec_set_absolute(rel, trust, tension, reason, last_scene_id, now);
            &&& reason is None ==> r.reason == rel.reason
            &&& reason is Some ==> r.reason == reason
            &&& last_scene_id is None ==> r.last_scene_id == rel.last_scene_id
            &&& last_scene_id is Some ==> r.last_scene_id == last_scene_id
            &&& r.in_id == rel.in_id
            &&& r.out_id == rel.out_id
            &&& r.relationship_type == rel.relationship_type
            &&& r.dynamics == rel.dynamics
            &&& r.updated_at == now
        }),
{
}

/// Absolute values overwrite: after `set_relationship_absolute` the edge
/// holds exactly the given trust and tension, whatever it held before.
pub proof fn law_absolute_overwrites(
    rel: RelatesTo,
    trust: i32,
    tension: i32,
    reason: Option<String>,
    last_scene_id: Option<String>,
    now: Timestamp,
)
    ensures
        spec_set_absolute(rel, trust, tension, reason, last_scene_id, now).trust == trust,
        spec_set_absolute(rel, trust, tension, reason, last_scene_id, now).tension == tension,
        spec_set_absolute(
            spec_set_absolute(rel, trust, tension, reason, last_scene_id, now),
            trust,
            tension,
            reason,
            last_scene_id,
            now,
        ) == spec_set_absolute(rel, trust, tension, reason, last_scene_id, now),
{
}

/// The edge that creating a relationship between `a` and `b` leaves: an
/// edge already joining them (either way round) keeps its direction,
/// reason and last scene and takes the new type, trust, tension and
/// dynamics; otherwise a new edge `a -> b` with no reason and no last
/// scene. Either way it is stamped `now`.
pub fn relationship_after_create(
    existing: Option<RelatesTo>,
    a: String,
    b: String,
    relationship_type: String,
    trust: i32,
    tension: i32,
    dynamics: Vec<String>,
    now: Timestamp,
) -> (r: RelatesTo)
    ensures
        r == (match existing {
            Some(e) => RelatesTo {
                relationship_type,
                trust,
                tension,
                dynamics,
                updated_at: now,
                ..e
            },
            None => RelatesTo {
                in_id: a,
                out_id: b,
                relationship_type,
                trust,
                tension,
                dynamics,
                reason: None,
                last_scene_id: None,
                updated_at: now,
            },
        }),
{
    match existing {
        Some(e) => RelatesTo { relationship_type, trust, tension, dynamics, updated_at: now, ..e },
        None => RelatesTo {
            in_id: a,
            out_id: b,
            relationship_type,
            trust,
            tension,
            dynamics,
            reason: None,
            last_scene_id: None,
            updated_at: now,
        },
    }
}

} // verus!
