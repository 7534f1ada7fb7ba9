//! Randomness from the operating system.

use vstd::prelude::*;
use rand::RngCore;

verus! {

/// `OsRng::try_fill_bytes` of the `rand` crate, on a fresh buffer of `len`
/// bytes: the buffer comes back filled, or the source reports that it could
/// not fill it. Nothing is claimed of the bytes themselves.
#[verifier::external_body]
pub(crate) fn random_bytes(len: usize) -> (out: Option<Vec<u8>>)
    requires
        len <= 64,
    ensures
        out matches Some(bytes) ==> bytes@.len() == len,
{
    let mut buffer = vec![0u8; len];
    match rand::rngs::OsRng.try_fill_bytes(&mut buffer) {
        Ok(()) => Some(buffer),
        Err(_) => None,
    }
}

} // verus!
