use vstd::prelude::*;

use crate::crypto::ecc_curve::ECCCurve;
use crate::crypto::hash::HashAlgorithm;
use crate::crypto::public_key::PublicKeyAlgorithm;
use crate::crypto::sym::SymmetricKeyAlgorithm;
use crate::types::packet::KeyVersion;

verus! {

/// A field of a packet body whose content can be malformed.
#[derive(Debug, Clone, Copy, PartialEq, Eq, Structural)]
pub enum Field {
    /// The byte that names a signature type.
    SignatureType,
    /// The byte that names a hash algorithm.
    HashAlgorithm,
    /// The byte that names a public-key algorithm.
    PublicKeyAlgorithm,
    /// The eight bytes of a key identifier.
    KeyId,
}

/// What this implementation declines to handle, in an
/// [`PgpError::Unsupported`] or an [`PgpError::Unimplemented`].
#[derive(Debug, Clone, Copy, PartialEq, Eq, Structural)]
pub enum Feature {
    /// Secret parameters for keys of this algorithm.
    SecretParams(PublicKeyAlgorithm),
    /// A usable secret key for this algorithm.
    SecretKey(PublicKeyAlgorithm),
    /// Secret keys on this curve.
    Curve(ECCCurve),
    /// Protecting the secret parameters of a key of this format version.
    KeyVersion(KeyVersion),
    /// This selector of how protected parameters are authenticated.
    StringToKeyId(u8),
    /// Encrypting with this cipher.
    Cipher(SymmetricKeyAlgorithm),
    /// Hashing with this algorithm.
    Hash(HashAlgorithm),
}

/// Why an operation of this crate failed.
#[derive(Debug, PartialEq, Eq)]
pub enum PgpError {
    /// The input ends before the field that is being read does; the field
    /// takes this many bytes, counted from its first one.  More input may
    /// mend it.
    Incomplete(usize),
    /// A field holds a value that the format does not know.
    Malformed(Field),
    /// A secret scalar does not have the length that its curve asks for.
    InvalidSecret,
    /// Well-formed, but deliberately left out of this implementation.
    Unsupported(Feature),
    /// Well-formed, but not written yet.
    Unimplemented(Feature),
    /// The RSA crate found the key's numbers inconsistent; this is its own
    /// report, unchanged.
    RSAError(rsa::errors::Error),
    /// A cipher was handed a key or an initialization vector of the wrong
    /// length.
    InvalidKeyIvLength,
}

impl PgpError {
    /// Whether the error only says that the input ended too early.
    pub fn is_incomplete(&self) -> (b: bool)
        ensures
            b == (self is Incomplete),
    {
        match self {
            PgpError::Incomplete(_) => true,
            _ => false,
        }
    }
}

} // verus!
