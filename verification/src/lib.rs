//! Verified core of the Spindle SQLite adapter: identifier rules, schema
//! allowlists, story placement ordering, snapshot projections and the
//! serial-publishing decisions.

pub mod text;
pub mod schema;
pub mod placement;
pub mod row;
pub mod digest;
pub mod serial;
pub mod records;
pub mod ids;
pub mod scenes;
pub mod relationships;
pub mod snapshot;
pub mod subject_kind;
pub mod repository;
pub mod reading;
pub mod subject_facts;
pub mod subject_snapshot;
pub mod restore;
pub mod characters;
pub mod merge;
pub mod export;
