//! Project export and snapshot restore: how `BLOB` columns travel through
//! JSON, and which text values are written back as blobs.

use vstd::prelude::*;
use vstd::string::*;
use base64::Engine;
use crate::text::{to_owned_string, str_eq};

verus! {

/// What the standard base64 engine decodes a text to, if it accepts it.
pub uninterp spec fn base64_decoded(text: Seq<char>) -> Option<Seq<u8>>;

/// The standard, padded base64 encoding of some bytes.
pub uninterp spec fn base64_encoded(bytes: Seq<u8>) -> Seq<char>;

/// Calls `base64::engine::general_purpose::STANDARD.decode(text)`.
/// Claimed: the result is the named decoding of the text alone.
#[verifier::external_body]
fn base64_decode(text: &str) -> (r: Option<Vec<u8>>)
    ensures
        match r {
            Some(b) => base64_decoded(text@) == Some(b@),
            None => base64_decoded(text@) is None,
        },
{
    base64::engine::general_purpose::STANDARD.decode(text).ok()
}

/// Calls `base64::engine::general_purpose::STANDARD.encode(bytes)`, which
/// panics only when the encoded length overflows `usize` (excluded here).
/// Claimed: the result is the named encoding, and the same engine decodes
/// it back to the bytes (its encoder writes canonical, padded output that
/// its decoder reads).
#[verifier::external_body]
fn base64_encode(bytes: &[u8]) -> (r: String)
    requires
        bytes@.len() / 3 * 4 + 4 <= usize::MAX,
    ensures
        r@ == base64_encoded(bytes@),
        base64_decoded(r@) == Some(bytes@),
{
    base64::engine::general_purpose::STANDARD.encode(bytes)
}

/// A text value as it is bound for a column.
pub enum TextParam {
    Text(String),
    Blob(Vec<u8>),
}

pub open spec fn blob_marker() -> Seq<char> {
    "base64:"@
}

/// A string written back during a restore: `"base64:<data>"` with valid
/// data becomes the blob it encodes, anything else stays text.
pub fn text_param(s: &str) -> (r: TextParam)
    ensures
        match r {
            TextParam::Blob(b) => s@.len() >= 7 && s@.take(7) == blob_marker() && base64_decoded(
                s@.skip(7),
            ) == Some(b@),
            TextParam::Text(t) => t@ == s@ && !(s@.len() >= 7 && s@.take(7) == blob_marker()
                && base64_decoded(s@.skip(7)) is Some),
        },
{
    let n = s.unicode_len();
    if n >= 7 {
        let head = s.substring_char(0, 7);
        if str_eq(head, "base64:") {
            let rest = s.substring_char(7, n);
            assert(rest@ =~= s@.skip(7));
            assert(head@ =~= s@.take(7));
            match base64_decode(rest) {
                Some(b) => {
                    return TextParam::Blob(b);
                },
                None => {},
            }
        }
    }
    TextParam::Text(to_owned_string(s))
}

/// How a `BLOB` cell is exported: `"base64:"` and its base64 encoding.
pub fn blob_export_text(bytes: &[u8]) -> (r: String)
    requires
        bytes@.len() / 3 * 4 + 4 <= usize::MAX,
    ensures
        r@ == blob_marker() + base64_encoded(bytes@),
        base64_decoded(base64_encoded(bytes@)) == Some(bytes@),
{
    let enc = base64_encode(bytes);
    let mut s = to_owned_string("base64:");
    s.append(enc.as_str());
    s
}

/// An exported blob restores as the same blob.
pub proof fn law_blob_export_restores(bytes: Seq<u8>, exported: Seq<char>)
    requires
        exported == blob_marker() + base64_encoded(bytes),
        base64_decoded(base64_encoded(bytes)) == Some(bytes),
    ensures
        exported.len() >= 7,
        exported.take(7) == blob_marker(),
        base64_decoded(exported.skip(7)) == Some(bytes),
{
    reveal_strlit("base64:");
    assert(exported.take(7) =~= blob_marker());
    assert(exported.skip(7) =~= base64_encoded(bytes));
}

} // verus!
