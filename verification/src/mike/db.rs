//! The identity under which a recurring task is remembered.

use crate::text::{lowercase, to_lowercase, trim, trim_str};
use vstd::prelude::*;
use vstd::utf8::encode_utf8;

verus! {

/// What SHA-256 gives for some bytes.
pub uninterp spec fn sha256_of(data: Seq<u8>) -> Seq<u8>;

/// Calls `sha2::Sha256::digest`. The digest is named `sha256_of`; it is
/// 32 bytes long.
#[verifier::external_body]
fn sha256(data: &[u8]) -> (d: Vec<u8>)
    ensures
        d@ == sha256_of(data@),
        d@.len() == 32,
{
    <sha2::Sha256 as sha2::Digest>::digest(data).to_vec()
}

/// The lower-case hex digit for a nibble.
pub open spec fn hex_digit(n: u8) -> char {
    if n < 10 {
        (48 + n) as char
    } else {
        (87 + n) as char
    }
}

/// Lower-case hex: two digits per byte, high nibble first.
pub open spec fn hex_of(data: Seq<u8>) -> Seq<char>
    decreases data.len(),
{
    if data.len() == 0 {
        Seq::empty()
    } else {
        hex_of(data.drop_last()) + seq![
            hex_digit(data.last() / 16),
            hex_digit(data.last() % 16),
        ]
    }
}

/// Calls `hex::encode`: lower-case hex, two digits per byte.
#[verifier::external_body]
fn hex_encode(data: &[u8]) -> (s: String)
    ensures
        s@ == hex_of(data@),
{
    hex::encode(data)
}

/// The key of a task pattern: the hex SHA-256 of the task description,
/// trimmed and lower-cased.
pub open spec fn pattern_key(description: Seq<char>) -> Seq<char> {
    hex_of(sha256_of(encode_utf8(lowercase(trim(description)))))
}

/// The key under which a task description is counted: descriptions that
/// differ only in surrounding whitespace or case share it.
pub fn pattern_hash(description: &str) -> (h: String)
    ensures
        h@ == pattern_key(description@),
        h@.len() == 64,
{
    let trimmed = trim_str(description);
    let lower = to_lowercase(trimmed.as_str());
    let digest = sha256(lower.as_str().as_bytes());
    proof {
        lemma_hex_len(digest@);
    }
    hex_encode(digest.as_slice())
}

/// Descriptions that agree once trimmed and lower-cased share a key.
pub proof fn lemma_pattern_key_ignores_case_and_padding(a: Seq<char>, b: Seq<char>)
    requires
        lowercase(trim(a)) == lowercase(trim(b)),
    ensures
        pattern_key(a) == pattern_key(b),
{
}

/// Hex doubles the length.
pub proof fn lemma_hex_len(data: Seq<u8>)
    ensures
        hex_of(data).len() == 2 * data.len(),
    decreases data.len(),
{
    if data.len() > 0 {
        lemma_hex_len(data.drop_last());
    }
}

} // verus!
