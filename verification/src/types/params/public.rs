use vstd::prelude::*;

use crate::crypto::ecc_curve::ECCCurve;
use crate::crypto::hash::HashAlgorithm;
use crate::crypto::sym::SymmetricKeyAlgorithm;

verus! {

/// The public numbers of a key, by algorithm.  Every number is a
/// big-endian byte string.
#[derive(Debug, Clone, PartialEq, Eq)]
pub enum PublicParams {
    RSA { n: Vec<u8>, e: Vec<u8> },
    DSA { p: Vec<u8>, q: Vec<u8>, g: Vec<u8>, y: Vec<u8> },
    ECDSA { curve: ECCCurve, p: Vec<u8> },
    ECDH { curve: ECCCurve, p: Vec<u8>, hash: HashAlgorithm, alg_sym: SymmetricKeyAlgorithm },
    Elgamal { p: Vec<u8>, g: Vec<u8>, y: Vec<u8> },
    EdDSA { curve: ECCCurve, q: Vec<u8> },
}

} // verus!
