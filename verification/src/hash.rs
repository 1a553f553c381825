//! Content hashes: SHA-512 over the encoded content, written in hex.

use sha2::Digest;
use vstd::prelude::*;

verus! {

/// Length of a SHA-512 digest in bytes.
pub const DIGEST_LEN: usize = 64;

/// The SHA-512 digest of `data`.
pub uninterp spec fn sha512_digest(data: Seq<u8>) -> Seq<u8>;

/// `sha2::Sha512::digest`: the SHA-512 digest of `data`, which `sha512_digest`
/// names. A digest is 64 bytes long.
#[verifier::external_body]
pub(crate) fn sha512(data: &[u8]) -> (digest: Vec<u8>)
    ensures
        digest@ == sha512_digest(data@),
        digest@.len() == DIGEST_LEN,
{
    sha2::Sha512::digest(data).to_vec()
}

/// The hex digit of a number below sixteen, in lower case.
pub open spec fn hex_digit(n: int) -> char {
    if n == 0 {
        '0'
    } else if n == 1 {
        '1'
    } else if n == 2 {
        '2'
    } else if n == 3 {
        '3'
    } else if n == 4 {
        '4'
    } else if n == 5 {
        '5'
    } else if n == 6 {
        '6'
    } else if n == 7 {
        '7'
    } else if n == 8 {
        '8'
    } else if n == 9 {
        '9'
    } else if n == 10 {
        'a'
    } else if n == 11 {
        'b'
    } else if n == 12 {
        'c'
    } else if n == 13 {
        'd'
    } else if n == 14 {
        'e'
    } else {
        'f'
    }
}

/// `data` in hex: two digits for each byte, the high half first, in lower
/// case.
pub open spec fn hex_lower(data: Seq<u8>) -> Seq<char> {
    Seq::new(
        2 * data.len(),
        |i: int|
            if i % 2 == 0 {
                hex_digit(data[i / 2] as int / 16)
            } else {
                hex_digit(data[i / 2] as int % 16)
            },
    )
}

/// `hex::encode`: each byte of `data` as two hex digits in lower case.
#[verifier::external_body]
pub(crate) fn hex_encode(data: &[u8]) -> (text: String)
    ensures
        text@ == hex_lower(data@),
{
    hex::encode(data)
}

/// The content hash of `encoded`: its SHA-512 digest in hex.
pub open spec fn content_hash(encoded: Seq<u8>) -> Seq<char> {
    hex_lower(sha512_digest(encoded))
}

/// Hashes encoded content. The hash has 128 hex digits.
pub fn hash_content(encoded: &[u8]) -> (hash: String)
    ensures
        hash@ == content_hash(encoded@),
        hash@.len() == 2 * DIGEST_LEN,
{
    let digest = sha512(encoded);
    hex_encode(digest.as_slice())
}

} // verus!
