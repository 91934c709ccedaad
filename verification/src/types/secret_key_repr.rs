use vstd::prelude::*;

use crate::crypto::hash::HashAlgorithm;
use crate::crypto::sym::SymmetricKeyAlgorithm;

verus! {

/// A secret key in the form that the cryptographic operations take.
pub enum SecretKeyRepr {
    /// A key that the RSA crate has validated.
    RSA(rsa::RsaPrivateKey),
    ECDH(ECDHSecretKey),
    EdDSA(EdDSASecretKey),
}

/// A secret scalar for Diffie-Hellman on a curve.
#[derive(Clone, PartialEq, Eq)]
pub struct ECDHSecretKey {
    /// The curve's object identifier.
    pub oid: Vec<u8>,
    /// The hash of the key derivation that goes with the key.
    pub hash: HashAlgorithm,
    /// The cipher that wraps session keys for the key.
    pub alg_sym: SymmetricKeyAlgorithm,
    pub secret: [u8; 32],
}

/// A secret scalar for signatures on an Edwards curve.
#[derive(Clone, PartialEq, Eq)]
pub struct EdDSASecretKey {
    /// The curve's object identifier.
    pub oid: Vec<u8>,
    pub secret: [u8; 32],
}

} // verus!
