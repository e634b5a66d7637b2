//! Column conventions of the SQLite schema: timestamps are `INTEGER` unix
//! microseconds, booleans are `INTEGER` 0/1, embeddings are `BLOB`s of
//! little-endian `f32` values.

use vstd::prelude::*;
use chrono::TimeZone;
use crate::schema::{is_timestamp_column, spec_is_timestamp_column};

verus! {

/// A UTC instant as the database stores it: microseconds since the epoch.
#[derive(Clone, Copy, Debug, PartialEq, Eq, Structural)]
pub struct Timestamp {
    pub micros: i64,
}

/// Whether `Utc.timestamp_micros(micros)` names an instant: chrono's dates
/// run from January 1 of year -262143 (`NaiveDate::MIN`) to December 31 of
/// year 262142 (`NaiveDate::MAX`), and these are the first and last
/// microseconds of that span.
#[verifier::opaque]
pub open spec fn utc_representable_micros(micros: int) -> bool {
    -8_334_601_228_800_000_000 <= micros <= 8_210_266_876_799_999_999
}

/// The unix microseconds of an RFC 3339 text, as
/// `DateTime::parse_from_rfc3339(text)` then `timestamp_micros` read it.
pub uninterp spec fn rfc3339_micros(text: Seq<char>) -> Option<int>;

/// Calls `chrono::Utc.timestamp_micros(micros).single()` and reads the
/// instant back with `DateTime::timestamp_micros`. Claimed: the result is
/// `micros` itself when chrono represents the instant (chrono documents
/// that the two conversions round-trip), and `None` exactly when the date
/// falls outside chrono's range, as `utc_representable_micros` states it.
#[verifier::external_body]
fn chrono_round_trip_micros(micros: i64) -> (r: Option<i64>)
    ensures
        r == (if utc_representable_micros(micros as int) {
            Some(micros)
        } else {
            None
        }),
{
    chrono::Utc.timestamp_micros(micros).single().map(|t| t.timestamp_micros())
}

/// Calls `chrono::DateTime::parse_from_rfc3339(text)` and converts the
/// result to UTC unix microseconds. Claimed: the result is the named value
/// of the text alone.
#[verifier::external_body]
fn chrono_parse_rfc3339_micros(text: &str) -> (r: Option<i64>)
    ensures
        match r {
            Some(m) => rfc3339_micros(text@) == Some(m as int),
            None => rfc3339_micros(text@) is None,
        },
{
    chrono::DateTime::parse_from_rfc3339(text).ok().map(
        |t| t.with_timezone(&chrono::Utc).timestamp_micros(),
    )
}

/// Why a stored timestamp could not be read.
#[derive(Debug, PartialEq, Eq, Structural)]
pub enum TimestampError {
    /// "ambiguous or out-of-range timestamp micros: {micros}"
    OutOfRange { micros: i64 },
}

/// The unix-microsecond representation used in the database.
pub open spec fn spec_timestamp_to_micros(ts: Timestamp) -> i64 {
    ts.micros
}

/// What reading a stored microsecond count gives.
pub open spec fn spec_micros_to_timestamp(micros: i64) -> Result<Timestamp, TimestampError> {
    if utc_representable_micros(micros as int) {
        Ok(Timestamp { micros })
    } else {
        Err(TimestampError::OutOfRange { micros })
    }
}

pub fn timestamp_to_micros(ts: Timestamp) -> (r: i64)
    ensures
        r == spec_timestamp_to_micros(ts),
{
    ts.micros
}

/// Read a stored microsecond count back as an instant; chrono decides
/// whether the count is in range.
pub fn micros_to_timestamp(micros: i64) -> (r: Result<Timestamp, TimestampError>)
    ensures
        r == spec_micros_to_timestamp(micros),
{
    match chrono_round_trip_micros(micros) {
        Some(m) => Ok(Timestamp { micros: m }),
        None => Err(TimestampError::OutOfRange { micros }),
    }
}

/// Reading back what was written gives the same instant: converting a
/// timestamp to microseconds and reading them back yields that timestamp,
/// and a count that reads back converts to itself.
pub proof fn law_timestamp_round_trip(ts: Timestamp, micros: i64)
    ensures
        utc_representable_micros(ts.micros as int) ==> spec_micros_to_timestamp(
            spec_timestamp_to_micros(ts),
        ) == Ok::<Timestamp, TimestampError>(ts),
        spec_micros_to_timestamp(micros) is Ok ==> spec_timestamp_to_micros(
            spec_micros_to_timestamp(micros)->Ok_0,
        ) == micros,
{
}

/// `BOOL` columns hold `INTEGER` 0/1; anything non-zero reads as true.
pub fn int_as_bool(v: i64) -> (r: bool)
    ensures
        r == (v != 0),
{
    v != 0
}

/// The stored form of a boolean.
pub fn bool_as_int(b: bool) -> (r: i64)
    ensures
        r == (if b {
            1i64
        } else {
            0i64
        }),
        (r != 0) == b,
{
    if b {
        1
    } else {
        0
    }
}

/// An embedding blob is well formed when its length is a multiple of 4
/// (one little-endian `f32` per 4 bytes, no header).
pub fn embedding_blob_len_ok(len: usize) -> (r: bool)
    ensures
        r == (len % 4 == 0),
{
    len % 4 == 0
}

/// The size of the packed blob for `n` embedding values.
pub fn packed_embedding_len(n: usize) -> (r: Option<usize>)
    ensures
        match r {
            Some(l) => l == n * 4,
            None => n * 4 > usize::MAX,
        },
{
    n.checked_mul(4)
}

/// When restoring a snapshot, an RFC 3339 string written into one of the
/// schema's unix-microsecond columns is folded back into its integer form;
/// any other column, or a string that is not RFC 3339, is left alone
/// (`None`).
pub fn timestamp_param_for_column(column: &str, text: &str) -> (r: Option<i64>)
    ensures
        match r {
            Some(m) => spec_is_timestamp_column(column@) && rfc3339_micros(text@) == Some(
                m as int,
            ),
            None => !spec_is_timestamp_column(column@) || rfc3339_micros(text@) is None,
        },
{
    if is_timestamp_column(column) {
        chrono_parse_rfc3339_micros(text)
    } else {
        None
    }
}

/// The RFC 3339 text of an instant, as `DateTime::<Utc>::to_rfc3339` writes it.
pub uninterp spec fn rfc3339_text_of(micros: int) -> Seq<char>;

/// Calls `chrono::Utc.timestamp_micros(micros).single()` and formats the
/// instant with `to_rfc3339`. Claimed: a text, the named one, exactly when
/// chrono represents the instant.
#[verifier::external_body]
pub(crate) fn timestamp_rfc3339(ts: Timestamp) -> (r: Option<String>)
    ensures
        match r {
            Some(s) => utc_representable_micros(ts.micros as int) && s@ == rfc3339_text_of(
                ts.micros as int,
            ),
            None => !utc_representable_micros(ts.micros as int),
        },
{
    chrono::Utc.timestamp_micros(ts.micros).single().map(|t| t.to_rfc3339())
}

/// The RFC 3339 text chrono's `Serialize` writes for a UTC instant: `Z`
/// for the offset and only as many fraction digits as the instant needs.
pub uninterp spec fn rfc3339_z_text_of(micros: int) -> Seq<char>;

/// Calls `chrono::Utc.timestamp_micros(micros).single()` and formats the
/// instant with `to_rfc3339_opts(SecondsFormat::AutoSi, true)`, the same
/// writer (`write_rfc3339` with `AutoSi` and `Z`) that chrono's `Serialize`
/// impl for `DateTime` uses. Claimed: a text, the named one, exactly when
/// chrono represents the instant.
#[verifier::external_body]
pub(crate) fn timestamp_rfc3339_z(ts: Timestamp) -> (r: Option<String>)
    ensures
        match r {
            Some(s) => utc_representable_micros(ts.micros as int) && s@ == rfc3339_z_text_of(
                ts.micros as int,
            ),
            None => !utc_representable_micros(ts.micros as int),
        },
{
    chrono::Utc.timestamp_micros(ts.micros).single().map(
        |t| t.to_rfc3339_opts(chrono::SecondsFormat::AutoSi, true),
    )
}

} // verus!
