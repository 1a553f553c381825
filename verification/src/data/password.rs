//! Password verifiers: a key derived from the password with PBKDF2 over
//! HMAC-SHA512 and a salt of the user's own, stored as two base64 texts
//! joined by `$`.

use subtle::ConstantTimeEq;
use vstd::prelude::*;
use vstd::string::StringExecFns;
use vstd::utf8::encode_utf8;

use crate::bytes::slice_range;
use crate::data::table::{first_index, lemma_first_index_is, lemma_first_index_none};
use crate::random::os_random_bytes;

verus! {

pub const PASSWORD_SALT_LEN: usize = 32;

pub const PASSWORD_DERIVED_KEY_LEN: usize = 64;

pub const PBKDF2_ITERATIONS: u32 = 150_000;

/// The byte that joins the derived key and the salt of a stored password.
pub const SEPARATOR: u8 = 0x24;

/// The key that PBKDF2 over HMAC-SHA512 derives from a password and a salt
/// in `rounds` rounds, `len` bytes long, or nothing where the derivation
/// fails.
pub uninterp spec fn pbkdf2_key(password: Seq<u8>, salt: Seq<u8>, rounds: u32, len: nat) -> Option<
    Seq<u8>,
>;

/// `pbkdf2::pbkdf2` with `hmac::Hmac<sha2::Sha512>` on a buffer of `len`
/// bytes: the derived key, which `pbkdf2_key` names.
#[verifier::external_body]
pub(crate) fn derive_key(password: &[u8], salt: &[u8], rounds: u32, len: usize) -> (key: Option<
    Vec<u8>,
>)
    ensures
        match key {
            Some(k) => pbkdf2_key(password@, salt@, rounds, len as nat) == Some(k@) && k@.len()
                == len,
            None => pbkdf2_key(password@, salt@, rounds, len as nat) is None,
        },
{
    let mut key = vec![0u8; len];
    pbkdf2::pbkdf2::<hmac::Hmac<sha2::Sha512>>(password, salt, rounds, &mut key).ok()?;
    Some(key)
}

/// The base64 text of `data`, in the standard alphabet with padding.
pub uninterp spec fn base64_text(data: Seq<u8>) -> Seq<char>;

/// The bytes that a base64 text holds, or nothing where the bytes are no
/// base64 text.
pub uninterp spec fn base64_bytes(text: Seq<u8>) -> Option<Seq<u8>>;

/// `base64::encode`: the base64 text of `data`, which `base64_text` names.
/// The text decodes to `data` again, and holds letters, digits, `+`, `/` and
/// `=` only, so no `$`.
#[verifier::external_body]
pub(crate) fn base64_encode(data: &[u8]) -> (text: String)
    ensures
        text@ == base64_text(data@),
        base64_bytes(encode_utf8(text@)) == Some(data@),
        forall|i: int| 0 <= i < encode_utf8(text@).len() ==> encode_utf8(text@)[i] != SEPARATOR,
{
    base64::encode(data)
}

/// `base64::decode`: the bytes that a base64 text holds, which `base64_bytes`
/// names.
#[verifier::external_body]
pub(crate) fn base64_decode(text: &[u8]) -> (data: Option<Vec<u8>>)
    ensures
        match data {
            Some(d) => base64_bytes(text@) == Some(d@),
            None => base64_bytes(text@) is None,
        },
{
    base64::decode(text).ok()
}

/// `subtle::ConstantTimeEq::ct_eq` on two slices of bytes: whether they are
/// equal, found in a time that does not depend on what they hold.
#[verifier::external_body]
pub(crate) fn constant_time_eq(a: &[u8], b: &[u8]) -> (same: bool)
    ensures
        same == (a@ == b@),
{
    a.ct_eq(b).into()
}

/// Why a stored password could not be read.
#[derive(Debug, Clone, Copy, PartialEq, Eq, Structural)]
pub enum PasswordParseError {
    NoDerivedKey,
    NoSalt,
    InvalidBase64,
}

/// Why a password could not be checked.
#[derive(Debug, Clone, Copy, PartialEq, Eq, Structural)]
pub enum UserAuthError {
    PasswordParse(PasswordParseError),
}

/// A password verifier.
#[derive(Debug)]
pub struct Password {
    pub derived_key: Vec<u8>,
    pub salt: Vec<u8>,
}

/// Where the part of `b` that starts at `from` ends: before the next
/// separator, or at the end of `b`.
pub open spec fn part_end(b: Seq<u8>, from: int) -> int {
    match first_index(b.skip(from), |x: u8| x == SEPARATOR) {
        Some(i) => from + i,
        None => b.len() as int,
    }
}

/// What a stored password holds: the derived key and the salt, which are the
/// first two of the parts that `$` separates, decoded from base64.
pub open spec fn stored_password(b: Seq<u8>) -> Result<(Seq<u8>, Seq<u8>), PasswordParseError> {
    let first_end = part_end(b, 0);
    if first_end >= b.len() {
        Err(PasswordParseError::NoSalt)
    } else {
        let second_end = part_end(b, first_end + 1);
        match (
            base64_bytes(b.subrange(0, first_end)),
            base64_bytes(b.subrange(first_end + 1, second_end)),
        ) {
            (Some(key), Some(salt)) => Ok((key, salt)),
            (None, _) => Err(PasswordParseError::InvalidBase64),
            (_, None) => Err(PasswordParseError::InvalidBase64),
        }
    }
}

/// Finds the end of the part of `b` that starts at `from`.
fn find_part_end(b: &[u8], from: usize) -> (end: usize)
    requires
        from <= b@.len(),
    ensures
        end == part_end(b@, from as int),
        from <= end <= b@.len(),
        end < b@.len() ==> b@[end as int] == SEPARATOR,
{
    let ghost rest = b@.skip(from as int);
    let mut i: usize = from;
    while i < b.len()
        invariant
            from <= i <= b@.len(),
            rest == b@.skip(from as int),
            forall|j: int| 0 <= j < i - from ==> #[trigger] rest[j] != SEPARATOR,
        decreases b@.len() - i,
    {
        if b[i] == SEPARATOR {
            proof {
                lemma_first_index_is(rest, |x: u8| x == SEPARATOR, i - from);
            }
            return i;
        }
        i += 1;
    }
    proof {
        lemma_first_index_none(rest, |x: u8| x == SEPARATOR);
    }
    i
}

impl Password {
    /// Tries to read this password from a string.
    pub fn from_string(s: &str) -> (res: Result<Password, PasswordParseError>)
        ensures
            match (res, stored_password(encode_utf8(s@))) {
                (Ok(p), Ok((key, salt))) => p.derived_key@ == key && p.salt@ == salt,
                (Err(e), Err(f)) => e == f,
                _ => false,
            },
    {
        let b = s.as_bytes();
        let first_end = find_part_end(b, 0);
        if first_end >= b.len() {
            return Err(PasswordParseError::NoSalt);
        }
        let second_end = find_part_end(b, first_end + 1);
        let derived_key = match base64_decode(slice_range(b, 0, first_end)) {
            Some(k) => k,
            None => {
                return Err(PasswordParseError::InvalidBase64);
            },
        };
        let salt = match base64_decode(slice_range(b, first_end + 1, second_end)) {
            Some(s) => s,
            None => {
                return Err(PasswordParseError::InvalidBase64);
            },
        };
        Ok(Password { derived_key, salt })
    }

    /// Creates a password with the salt `salt`. Returns nothing where the key
    /// cannot be derived.
    pub fn with_salt(password: &str, salt: Vec<u8>) -> (res: Option<Password>)
        ensures
            match (
                res,
                pbkdf2_key(
                    encode_utf8(password@),
                    salt@,
                    PBKDF2_ITERATIONS,
                    PASSWORD_DERIVED_KEY_LEN as nat,
                ),
            ) {
                (Some(p), Some(key)) => p.derived_key@ == key && p.salt@ == salt@,
                (None, None) => true,
                _ => false,
            },
    {
        match derive_key(
            password.as_bytes(),
            salt.as_slice(),
            PBKDF2_ITERATIONS,
            PASSWORD_DERIVED_KEY_LEN,
        ) {
            Some(derived_key) => Some(Password { derived_key, salt }),
            None => None,
        }
    }

    /// Creates a password with a random salt.
    ///
    /// Returns an error e.g. if random number generation fails. The verifier
    /// that comes out is the one of the password with its salt.
    pub fn create(password: &str) -> (res: Result<Password, ()>)
        ensures
            res matches Ok(p) ==> p.salt@.len() == PASSWORD_SALT_LEN && pbkdf2_key(
                encode_utf8(password@),
                p.salt@,
                PBKDF2_ITERATIONS,
                PASSWORD_DERIVED_KEY_LEN as nat,
            ) == Some(p.derived_key@),
    {
        let salt = match os_random_bytes(PASSWORD_SALT_LEN) {
            Some(s) => s,
            None => {
                return Err(());
            },
        };
        match Password::with_salt(password, salt) {
            Some(p) => Ok(p),
            None => Err(()),
        }
    }

    /// Whether `password` is the password of this verifier: the key derived
    /// from it with the verifier's salt is the verifier's key.
    pub open spec fn accepts(&self, password: Seq<char>) -> bool {
        pbkdf2_key(
            encode_utf8(password),
            self.salt@,
            PBKDF2_ITERATIONS,
            PASSWORD_DERIVED_KEY_LEN as nat,
        ) == Some(self.derived_key@)
    }

    /// Verifies the given password string.
    pub fn verify(&self, password: &str) -> (ok: bool)
        ensures
            ok == self.accepts(password@),
    {
        match derive_key(
            password.as_bytes(),
            self.salt.as_slice(),
            PBKDF2_ITERATIONS,
            PASSWORD_DERIVED_KEY_LEN,
        ) {
            Some(derived_key) => constant_time_eq(
                derived_key.as_slice(),
                self.derived_key.as_slice(),
            ),
            None => false,
        }
    }

    /// The text of a stored password with the key `key` and the salt `salt`.
    pub open spec fn stored_text(key: Seq<u8>, salt: Seq<u8>) -> Seq<char> {
        base64_text(key) + "$"@ + base64_text(salt)
    }

    /// Turns this password into a string. The string reads back, with
    /// `from_string`, as this password.
    pub fn to_string(&self) -> (text: String)
        ensures
            text@ == Password::stored_text(self.derived_key@, self.salt@),
    {
        let mut text = base64_encode(self.derived_key.as_slice());
        let salt_str = base64_encode(self.salt.as_slice());
        text.append("$");
        text.append(salt_str.as_str());
        text
    }
}

} // verus!
