//! Strings as sequences of characters, and their UTF-8 bytes.

use unicode_normalization::UnicodeNormalization;
use vstd::prelude::*;
use vstd::utf8::{decode_utf8, encode_utf8, encode_utf8_decode_utf8, valid_utf8};

use crate::bytes::bytes_eq;

verus! {

/// Two strings with the same UTF-8 bytes hold the same characters.
pub proof fn lemma_utf8_injective(a: Seq<char>, b: Seq<char>)
    requires
        encode_utf8(a) == encode_utf8(b),
    ensures
        a == b,
{
    encode_utf8_decode_utf8(a);
    encode_utf8_decode_utf8(b);
}

/// Whether two strings hold the same characters.
pub fn str_eq(a: &str, b: &str) -> (same: bool)
    ensures
        same == (a@ == b@),
{
    let same = bytes_eq(a.as_bytes(), b.as_bytes());
    proof {
        if same {
            lemma_utf8_injective(a@, b@);
        }
    }
    same
}

/// The characters of an optional string.
pub open spec fn opt_text(s: Option<String>) -> Option<Seq<char>> {
    match s {
        Some(s) => Some(s@),
        None => None,
    }
}

/// `String::from_utf8`: the string that `bytes` encode, where they are valid
/// UTF-8, and nothing where they are not.
#[verifier::external_body]
pub(crate) fn string_from_utf8(bytes: Vec<u8>) -> (text: Option<String>)
    ensures
        text is Some <==> valid_utf8(bytes@),
        text matches Some(s) ==> s@ == decode_utf8(bytes@),
{
    String::from_utf8(bytes).ok()
}

/// The text in the Unicode normalization form C: decomposed canonically and
/// composed again.
pub uninterp spec fn nfc_form(text: Seq<char>) -> Seq<char>;

/// `unicode_normalization::UnicodeNormalization::nfc` on the text, collected
/// into a string: the text in the normalization form C, which `nfc_form`
/// names.
#[verifier::external_body]
pub(crate) fn nfc_text(text: &str) -> (out: String)
    ensures
        out@ == nfc_form(text@),
{
    text.nfc().collect::<String>()
}

/// A copy of `s`.
pub fn copy_str(s: &str) -> (copy: String)
    ensures
        copy@ == s@,
{
    s.to_owned()
}

/// A copy of the bytes of `b`.
pub fn copy_bytes(b: &[u8]) -> (copy: Vec<u8>)
    ensures
        copy@ == b@,
{
    let mut v = Vec::new();
    v.extend_from_slice(b);
    v
}

/// A copy of an optional string.
pub fn copy_opt_str(s: &Option<String>) -> (copy: Option<String>)
    ensures
        opt_text(copy) == opt_text(*s),
{
    match s {
        Some(s) => Some(copy_str(s.as_str())),
        None => None,
    }
}

/// A copy of an optional blob.
pub fn copy_opt_bytes(b: &Option<Vec<u8>>) -> (copy: Option<Vec<u8>>)
    ensures
        match (copy, *b) {
            (Some(c), Some(b)) => c@ == b@,
            (None, None) => true,
            _ => false,
        },
{
    match b {
        Some(b) => Some(copy_bytes(b.as_slice())),
        None => None,
    }
}

/// The characters of an optional string slice.
pub open spec fn opt_str_text(s: Option<&str>) -> Option<Seq<char>> {
    match s {
        Some(s) => Some(s@),
        None => None,
    }
}

/// An owned copy of an optional string slice.
pub fn own_opt_str(s: Option<&str>) -> (copy: Option<String>)
    ensures
        opt_text(copy) == opt_str_text(s),
{
    match s {
        Some(s) => Some(copy_str(s)),
        None => None,
    }
}

} // verus!
