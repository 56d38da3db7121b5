//! SHA-256 digests and the two text forms this crate writes them and its
//! 128-bit identifiers in: lowercase hex, and the hyphenated form of a UUID.
//! The digest is computed by `sha2`, the hex by `hex`, the hyphenated form
//! by `uuid`; their contracts here are taken on trust.

use sha2::{Digest, Sha256};
use vstd::prelude::*;

verus! {

/// The SHA-256 digest of a byte string.
pub uninterp spec fn sha256(data: Seq<u8>) -> Seq<u8>;

/// The name-based (version 5, SHA-1) UUID of a name in the ISO OID
/// namespace, as a 128-bit number.
pub uninterp spec fn oid_uuid(name: Seq<u8>) -> u128;

/// The lowercase hex digit for a number below sixteen.
pub open spec fn hex_digit(n: int) -> char {
    if n == 0 {
        '0'
    } else if n == 1 {
        '1'
    } else if n == 2 {
        '2'
    } else if n == 3 {
        '3'
    } else if n == 4 {
        '4'
    } else if n == 5 {
        '5'
    } else if n == 6 {
        '6'
    } else if n == 7 {
        '7'
    } else if n == 8 {
        '8'
    } else if n == 9 {
        '9'
    } else if n == 10 {
        'a'
    } else if n == 11 {
        'b'
    } else if n == 12 {
        'c'
    } else if n == 13 {
        'd'
    } else if n == 14 {
        'e'
    } else {
        'f'
    }
}

/// Bytes written as lowercase hex, two digits per byte, high digit first.
pub open spec fn hex_lower(bytes: Seq<u8>) -> Seq<char> {
    Seq::new(
        2 * bytes.len(),
        |i: int|
            if i % 2 == 0 {
                hex_digit(bytes[i / 2] as int / 16)
            } else {
                hex_digit(bytes[i / 2] as int % 16)
            },
    )
}

/// The low `n` bytes of a number, most significant first.
pub open spec fn be_bytes(value: nat, n: nat) -> Seq<u8>
    decreases n,
{
    if n == 0 {
        Seq::empty()
    } else {
        be_bytes(value / 256, (n - 1) as nat).push((value % 256) as u8)
    }
}

/// A 128-bit identifier in hyphenated form: its sixteen bytes, most
/// significant first, in lowercase hex, grouped 8-4-4-4-12.
pub open spec fn uuid_text(id: u128) -> Seq<char> {
    let h = hex_lower(be_bytes(id as nat, 16));
    h.subrange(0, 8) + seq!['-'] + h.subrange(8, 12) + seq!['-'] + h.subrange(12, 16) + seq!['-']
        + h.subrange(16, 20) + seq!['-'] + h.subrange(20, 32)
}

/// The SHA-256 digest of `data`.
///
/// Trusted: `Sha256::digest` hashes exactly the bytes it is given, and the
/// same bytes always give the same 32-byte digest.
#[verifier::external_body]
pub(crate) fn sha256_digest(data: &[u8]) -> (digest: [u8; 32])
    ensures
        digest@ == sha256(data@),
{
    Sha256::digest(data).into()
}

/// `bytes` in lowercase hex.
///
/// Trusted: `hex::encode` writes each byte as two lowercase hex digits, the
/// high four bits first.
#[verifier::external_body]
pub(crate) fn hex_encode(bytes: &[u8]) -> (text: String)
    ensures
        text@ == hex_lower(bytes@),
{
    hex::encode(bytes)
}

/// A 128-bit identifier in hyphenated form.
///
/// Trusted: `Uuid::from_u128` takes the value's bytes most significant
/// first, and `to_string` on a `Uuid` writes them in lowercase hex with
/// hyphens after the 4th, 6th, 8th and 10th byte.
#[verifier::external_body]
pub(crate) fn uuid_hyphenated(id: u128) -> (text: String)
    ensures
        text@ == uuid_text(id),
{
    uuid::Uuid::from_u128(id).to_string()
}

/// The name-based UUID of `name` in the ISO OID namespace.
///
/// Trusted: `Uuid::new_v5` derives the identifier from the namespace and
/// the name alone, and `as_u128` reads its bytes most significant first.
#[verifier::external_body]
pub(crate) fn oid_uuid_of(name: &[u8]) -> (id: u128)
    ensures
        id == oid_uuid(name@),
{
    uuid::Uuid::new_v5(&uuid::Uuid::NAMESPACE_OID, name).as_u128()
}

} // verus!
