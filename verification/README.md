# spindle_adapters

The verified core of Spindle's SQLite storage layer: the rules a story bible
applies to what it stores, proved with Verus.

- `src/` — the library, checked by Verus; its public operations state what they
  return in `ensures` clauses:
  - `text` — string helpers with exact specifications (trim, word counts,
    decimal rendering, splitting, substring search).
  - `schema` — the column and table allowlists that guard exports, archiving
    and in-place entity updates.
  - `ids` — `table:ulid` identifiers and the subject table an id names.
  - `placement` — story placements and their reading order.
  - `row` — the column conventions (unix-microsecond timestamps, 0/1
    booleans, packed embeddings) and chrono's conversions.
  - `scenes`, `relationships` — what saving a draft or changing a
    relationship writes.
  - `snapshot`, `subject_kind`, `subject_facts`, `subject_snapshot` — what the
    bible says about a subject as of a placement, part by part and assembled.
  - `serial`, `reading` — the serial-publishing workflow: editorial queue,
    reader memory and its fingerprints, episode previews and releases,
    series status.
  - `export`, `restore` — rows as JSON and rewinding a branch.
  - `merge` — carrying a slice of one branch onto another: which scenes are
    overwritten and which added, and the restamped states and edges.
  - `characters` — the columns a character state row is written with.
  - `digest` — SHA-256 fingerprints.
- `tests/` — executable tests of the library.
- `app/` — the SQLite I/O around the library (queries, row reading, JSON
  parameters, embeddings): projects and branches, characters, scene saves,
  merges and restores, the rows a snapshot reads, readings, the editorial
  queue and episode releases.

Outside crates (chrono, sha2, serde_json, base64, ulid) are reached through
small trusted wrappers whose doc comments say what their contracts claim.
