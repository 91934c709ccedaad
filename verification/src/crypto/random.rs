use vstd::prelude::*;

verus! {

/// The random number generator of the `rand` crate that is suitable for
/// cryptography: carried, never looked into.
#[verifier::external_type_specification]
#[verifier::external_body]
pub struct ExStdRng(rand::rngs::StdRng);

/// Calls `rand::Rng::fill` on a fresh buffer of `len` bytes.  Trusted: the
/// buffer keeps its length; nothing is said of the bytes, which differ from
/// call to call.
#[verifier::external_body]
pub(crate) fn random_bytes(rng: &mut rand::rngs::StdRng, len: usize) -> (out: Vec<u8>)
    ensures
        out@.len() == len,
{
    let mut out = vec![0u8; len];
    rand::Rng::fill(rng, out.as_mut_slice());
    out
}

} // verus!
