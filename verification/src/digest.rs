//! Content fingerprints.

use vstd::prelude::*;
use vstd::string::*;
use sha2::Digest;

verus! {

/// The lowercase hexadecimal SHA-256 of a byte string.
pub uninterp spec fn sha256_hex_of_bytes(bytes: Seq<u8>) -> Seq<char>;

/// The lowercase hexadecimal SHA-256 of the UTF-8 encoding of a text.
pub open spec fn sha256_hex_utf8(text: Seq<char>) -> Seq<char> {
    sha256_hex_of_bytes(vstd::utf8::encode_utf8(text))
}

pub open spec fn is_lower_hex(c: char) -> bool {
    ('0' <= c && c <= '9') || ('a' <= c && c <= 'f')
}

/// Calls `sha2::Sha256::digest(bytes)` and formats the digest with `{:x}`.
/// Claimed: the result is the named digest of the bytes; it has 64
/// characters, each a lowercase hex digit (32 bytes, two digits per byte,
/// as generic-array's `LowerHex` writes them).
#[verifier::external_body]
pub(crate) fn sha256_hex_bytes(bytes: &[u8]) -> (r: String)
    ensures
        r@ == sha256_hex_of_bytes(bytes@),
        r@.len() == 64,
        forall|i: int| 0 <= i < r@.len() ==> is_lower_hex(#[trigger] r@[i]),
{
    format!("{:x}", sha2::Sha256::digest(bytes))
}

/// The digest of a text's UTF-8 bytes.
pub fn sha256_hex(text: &str) -> (r: String)
    ensures
        r@ == sha256_hex_utf8(text@),
        r@.len() == 64,
        forall|i: int| 0 <= i < r@.len() ==> is_lower_hex(#[trigger] r@[i]),
{
    sha256_hex_bytes(text.as_bytes())
}

/// The digest of some bytes.
pub fn sha256_hex_of(bytes: &[u8]) -> (r: String)
    ensures
        r@ == sha256_hex_of_bytes(bytes@),
        r@.len() == 64,
        forall|i: int| 0 <= i < r@.len() ==> is_lower_hex(#[trigger] r@[i]),
{
    sha256_hex_bytes(bytes)
}

} // verus!
