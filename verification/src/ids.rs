//! Record identifiers: `"<table>:<ulid>"` for every row, and
//! `"<in_id>|<out_id>"` for relationship subjects, whose rows have no
//! surrogate key.

use vstd::prelude::*;
use vstd::string::*;
use crate::text::{split_once, spec_split_once, split_left, str_eq, to_owned_string, has_char};

verus! {

/// The Crockford base-32 alphabet that ULIDs are written in.
pub open spec fn is_crockford(c: char) -> bool {
    ('0' <= c && c <= '9') || ('A' <= c && c <= 'Z' && c != 'I' && c != 'L' && c != 'O' && c
        != 'U')
}

/// Calls `ulid::Ulid::new()` and renders it with `Display`. The value rests
/// on the clock and on chance, so only its shape is claimed: 26 characters
/// of the Crockford alphabet (`ULID_LEN` characters of `ALPHABET` in the
/// crate's `base32` encoder).
#[verifier::external_body]
fn fresh_ulid() -> (r: String)
    ensures
        r@.len() == 26,
        forall|i: int| 0 <= i < r@.len() ==> is_crockford(#[trigger] r@[i]),
{
    ulid::Ulid::new().to_string()
}

/// `id` is `table`, a colon, and a 26-character ULID.
pub open spec fn is_minted_id(table: Seq<char>, id: Seq<char>) -> bool {
    &&& id.len() == table.len() + 27
    &&& id.take(table.len() as int) == table
    &&& id[table.len() as int] == ':'
    &&& forall|i: int| table.len() < i < id.len() ==> is_crockford(#[trigger] id[i])
}

/// Mint a fresh `table:ulid` identifier.
pub fn mint_id(table: &str) -> (r: String)
    ensures
        is_minted_id(table@, r@),
{
    let u = fresh_ulid();
    let mut s = to_owned_string(table);
    s.append(":");
    s.append(u.as_str());
    proof {
        reveal_strlit(":");
        assert(s@ =~= table@ + seq![':'] + u@);
        assert(s@.take(table@.len() as int) =~= table@);
        assert forall|i: int| table@.len() < i < s@.len() implies is_crockford(#[trigger] s@[i]) by {
            assert(s@[i] == u@[i - table@.len() - 1]);
        }
    }
    s
}

/// The same minting, for callers inside write transactions.
pub fn mint_id_local(table: &str) -> (r: String)
    ensures
        is_minted_id(table@, r@),
{
    mint_id(table)
}

/// Why an identifier could not be read.
#[derive(Debug)]
pub enum IdError {
    /// "id missing table prefix: {id}"
    MissingTablePrefix { id: String },
    /// "relationship subject id must be of the form '<in_id>|<out_id>': {id}"
    NotRelationshipId { id: String },
    /// "unsupported subject table: {table}"
    UnsupportedSubjectTable { table: String },
}

/// The table part of an id: the text before its first `:`.
pub fn id_table_prefix(id: &str) -> (r: Result<&str, IdError>)
    ensures
        match r {
            Ok(p) => spec_split_once(id@, ':') is Some && split_left(id@, ':') == p@,
            Err(e) => spec_split_once(id@, ':') is None && e == (IdError::MissingTablePrefix {
                id: e->MissingTablePrefix_id,
            }) && e->MissingTablePrefix_id@ == id@,
        },
{
    match split_once(id, ':') {
        Some((table, _)) => Ok(table),
        None => Err(IdError::MissingTablePrefix { id: to_owned_string(id) }),
    }
}

/// The two character ids of a relationship subject id `"<in_id>|<out_id>"`.
pub fn split_relationship_subject_id(id: &str) -> (r: Result<(String, String), IdError>)
    ensures
        match r {
            Ok((a, b)) => spec_split_once(id@, '|') == Some((a@, b@)),
            Err(e) => spec_split_once(id@, '|') is None && e == (IdError::NotRelationshipId {
                id: e->NotRelationshipId_id,
            }) && e->NotRelationshipId_id@ == id@,
        },
{
    match split_once(id, '|') {
        Some((a, b)) => Ok((to_owned_string(a), to_owned_string(b))),
        None => Err(IdError::NotRelationshipId { id: to_owned_string(id) }),
    }
}

/// The kinds of story-bible subject a snapshot can be taken of.
#[derive(Clone, Copy, Debug, PartialEq, Eq, Structural)]
pub enum SubjectTable {
    Project,
    WorldRule,
    Character,
    Location,
    Faction,
    Religion,
    Economy,
    PlotLine,
    Conflict,
    Theme,
    Motif,
    SystemOverlay,
    NarrativePromise,
    CharacterArc,
    Term,
    Relationship,
    TimelineEvent,
    Scene,
    Chapter,
    Book,
}

/// The subject table a table prefix names; `project` is not addressed by
/// id, and `relates_to` is the stored name of relationships.
pub open spec fn spec_table_for_prefix(p: Seq<char>) -> Option<SubjectTable> {
    if p == "world_rule"@ {
        Some(SubjectTable::WorldRule)
    } else if p == "character"@ {
        Some(SubjectTable::Character)
    } else if p == "location"@ {
        Some(SubjectTable::Location)
    } else if p == "faction"@ {
        Some(SubjectTable::Faction)
    } else if p == "religion"@ {
        Some(SubjectTable::Religion)
    } else if p == "economy"@ {
        Some(SubjectTable::Economy)
    } else if p == "plot_line"@ {
        Some(SubjectTable::PlotLine)
    } else if p == "conflict"@ {
        Some(SubjectTable::Conflict)
    } else if p == "theme"@ {
        Some(SubjectTable::Theme)
    } else if p == "motif"@ {
        Some(SubjectTable::Motif)
    } else if p == "system_overlay"@ {
        Some(SubjectTable::SystemOverlay)
    } else if p == "narrative_promise"@ {
        Some(SubjectTable::NarrativePromise)
    } else if p == "character_arc"@ {
        Some(SubjectTable::CharacterArc)
    } else if p == "term"@ {
        Some(SubjectTable::Term)
    } else if p == "relationship"@ || p == "relates_to"@ {
        Some(SubjectTable::Relationship)
    } else if p == "timeline_event"@ {
        Some(SubjectTable::TimelineEvent)
    } else if p == "scene"@ {
        Some(SubjectTable::Scene)
    } else if p == "chapter"@ {
        Some(SubjectTable::Chapter)
    } else if p == "book"@ {
        Some(SubjectTable::Book)
    } else {
        None
    }
}

pub fn table_for_prefix(p: &str) -> (r: Option<SubjectTable>)
    ensures
        r == spec_table_for_prefix(p@),
{
    if str_eq(p, "world_rule") {
        Some(SubjectTable::WorldRule)
    } else if str_eq(p, "character") {
        Some(SubjectTable::Character)
    } else if str_eq(p, "location") {
        Some(SubjectTable::Location)
    } else if str_eq(p, "faction") {
        Some(SubjectTable::Faction)
    } else if str_eq(p, "religion") {
        Some(SubjectTable::Religion)
    } else if str_eq(p, "economy") {
        Some(SubjectTable::Economy)
    } else if str_eq(p, "plot_line") {
        Some(SubjectTable::PlotLine)
    } else if str_eq(p, "conflict") {
        Some(SubjectTable::Conflict)
    } else if str_eq(p, "theme") {
        Some(SubjectTable::Theme)
    } else if str_eq(p, "motif") {
        Some(SubjectTable::Motif)
    } else if str_eq(p, "system_overlay") {
        Some(SubjectTable::SystemOverlay)
    } else if str_eq(p, "narrative_promise") {
        Some(SubjectTable::NarrativePromise)
    } else if str_eq(p, "character_arc") {
        Some(SubjectTable::CharacterArc)
    } else if str_eq(p, "term") {
        Some(SubjectTable::Term)
    } else if str_eq(p, "relationship") || str_eq(p, "relates_to") {
        Some(SubjectTable::Relationship)
    } else if str_eq(p, "timeline_event") {
        Some(SubjectTable::TimelineEvent)
    } else if str_eq(p, "scene") {
        Some(SubjectTable::Scene)
    } else if str_eq(p, "chapter") {
        Some(SubjectTable::Chapter)
    } else if str_eq(p, "book") {
        Some(SubjectTable::Book)
    } else {
        None
    }
}

/// The subject table an id belongs to, read from its table prefix.
pub fn subject_table_from_id(id: &str) -> (r: Result<SubjectTable, IdError>)
    ensures
        match r {
            Ok(t) => spec_split_once(id@, ':') is Some && spec_table_for_prefix(
                split_left(id@, ':'),
            ) == Some(t),
            Err(IdError::MissingTablePrefix { id: i }) => spec_split_once(id@, ':') is None
                && i@ == id@,
            Err(IdError::UnsupportedSubjectTable { table }) => spec_split_once(id@, ':') is Some
                && split_left(id@, ':') == table@ && spec_table_for_prefix(table@) is None,
            Err(IdError::NotRelationshipId { .. }) => false,
        },
{
    let prefix = match id_table_prefix(id) {
        Ok(p) => p,
        Err(e) => {
            return Err(e);
        },
    };
    match table_for_prefix(prefix) {
        Some(t) => Ok(t),
        None => Err(IdError::UnsupportedSubjectTable { table: to_owned_string(prefix) }),
    }
}

/// A freshly minted id reads back its table: when the table name holds no
/// colon, the table prefix of `mint_id(table)` is `table`.
pub proof fn law_minted_id_prefix(table: Seq<char>, id: Seq<char>)
    requires
        is_minted_id(table, id),
        !has_char(table, ':'),
    ensures
        spec_split_once(id, ':') is Some,
        split_left(id, ':') == table,
{
    let k = table.len() as int;
    assert forall|j: int| 0 <= j < k implies id[j] != ':' by {
        assert(id[j] == id.take(k)[j]);
        assert(!(table[j] == ':'));
    }
    assert(has_char(id, ':'));
    crate::text::lemma_first_index(id, ':', k);
}

/// A relationship subject id splits back into the two ids it was made of,
/// when the first holds no `|`.
pub proof fn law_relationship_id_split(a: Seq<char>, b: Seq<char>)
    requires
        !has_char(a, '|'),
    ensures
        spec_split_once(a + seq!['|'] + b, '|') == Some((a, b)),
{
    let s = a + seq!['|'] + b;
    let k = a.len() as int;
    assert forall|j: int| 0 <= j < k implies s[j] != '|' by {
        assert(s[j] == a[j]);
    }
    assert(s[k] == '|');
    assert(has_char(s, '|'));
    crate::text::lemma_first_index(s, '|', k);
    assert(s.take(k) =~= a);
    assert(s.skip(k + 1) =~= b);
}

} // verus!
