//! Random numbers. Nothing is known of a draw but its size.

use rand::Rng;
use vstd::prelude::*;

verus! {

/// `rand::rngs::OsRng` with `Rng::try_fill` on a buffer of `len` bytes:
/// random bytes from the operating system, or nothing where it has none to
/// give.
#[verifier::external_body]
pub(crate) fn os_random_bytes(len: usize) -> (bytes: Option<Vec<u8>>)
    ensures
        bytes matches Some(b) ==> b@.len() == len,
{
    let mut bytes = vec![0u8; len];
    rand::rngs::OsRng.try_fill(&mut bytes[..]).ok()?;
    Some(bytes)
}

/// `rand::thread_rng` with `Rng::try_fill` on a buffer of `len` bytes: random
/// bytes from the generator of the thread, or nothing where filling the
/// buffer fails. The outside function panics where the generator of the
/// thread cannot be seeded, which no precondition can leave out.
#[verifier::external_body]
pub(crate) fn thread_random_bytes(len: usize) -> (bytes: Option<Vec<u8>>)
    ensures
        bytes matches Some(b) ==> b@.len() == len,
{
    let mut bytes = vec![0u8; len];
    rand::thread_rng().try_fill(&mut bytes[..]).ok()?;
    Some(bytes)
}

/// `rand::random::<usize>`: a random number. The outside function panics
/// where the generator of the thread cannot be seeded.
#[verifier::external_body]
pub(crate) fn random_usize() -> usize {
    rand::random::<usize>()
}

/// `rand::random::<u64>`: a random number of 64 bits. The outside function
/// panics where the generator of the thread cannot be seeded.
#[verifier::external_body]
pub(crate) fn random_u64() -> u64 {
    rand::random::<u64>()
}

} // verus!
