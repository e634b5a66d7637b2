//! A character's recorded state: the columns a state row is written with.

use vstd::prelude::*;
use crate::text::{clone_strings, clone_opt_string, to_owned_string};

verus! {

/// A change to a character's state, as a caller supplies it. The emotional
/// state (a map of intensities) is written by the caller alongside.
pub struct CharacterStatePatch {
    pub goals: Option<Vec<String>>,
    pub status: Option<Vec<String>>,
    pub notes: Option<Vec<String>>,
    pub source_summary: Option<String>,
}

/// The list columns and source summary a state row is written with.
pub struct StateColumns {
    pub goals: Vec<String>,
    pub status: Vec<String>,
    pub notes: Vec<String>,
    pub source_summary: Option<String>,
}

pub open spec fn or_empty(v: Option<Vec<String>>) -> Seq<String> {
    match v {
        Some(x) => x@,
        None => Seq::empty(),
    }
}

fn clone_or_empty(v: &Option<Vec<String>>) -> (r: Vec<String>)
    ensures
        r@ == or_empty(*v),
{
    match v {
        Some(x) => clone_strings(x),
        None => Vec::new(),
    }
}

/// The columns of a state row: each absent list is written empty and the
/// source summary as given.
pub fn state_columns(patch: &CharacterStatePatch) -> (r: StateColumns)
    ensures
        r.goals@ == or_empty(patch.goals),
        r.status@ == or_empty(patch.status),
        r.notes@ == or_empty(patch.notes),
        r.source_summary == patch.source_summary,
{
    StateColumns {
        goals: clone_or_empty(&patch.goals),
        status: clone_or_empty(&patch.status),
        notes: clone_or_empty(&patch.notes),
        source_summary: clone_opt_string(&patch.source_summary),
    }
}

/// The state a new character starts with: the given one, or else a
/// baseline with empty lists and the source summary "baseline".
pub fn initial_state_columns(patch: &Option<CharacterStatePatch>) -> (r: StateColumns)
    ensures
        match patch {
            Some(p) => {
                &&& r.goals@ == or_empty(p.goals)
                &&& r.status@ == or_empty(p.status)
                &&& r.notes@ == or_empty(p.notes)
                &&& r.source_summary == p.source_summary
            },
            None => {
                &&& r.goals@.len() == 0
                &&& r.status@.len() == 0
                &&& r.notes@.len() == 0
                &&& r.source_summary matches Some(s) && s@ == "baseline"@
            },
        },
{
    match patch {
        Some(p) => state_columns(p),
        None => StateColumns {
            goals: Vec::new(),
            status: Vec::new(),
            notes: Vec::new(),
            source_summary: Some(to_owned_string("baseline")),
        },
    }
}

} // verus!
