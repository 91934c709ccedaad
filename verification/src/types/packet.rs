use vstd::prelude::*;

verus! {

/// The two framings of a packet header.
#[derive(Debug, Clone, Copy, PartialEq, Eq, Structural)]
pub enum Version {
    /// The old header format.
    Old,
    /// The new header format.
    New,
}

impl Default for Version {
    fn default() -> (v: Version)
        ensures
            v == Version::New,
    {
        Version::New
    }
}

/// The versions of the key packet format.
#[derive(Debug, Clone, Copy, PartialEq, Eq, Structural)]
pub enum KeyVersion {
    V2,
    V3,
    V4,
    V5,
}

/// What kind of packet a header announces.
#[derive(Debug, Clone, Copy, PartialEq, Eq, Structural)]
pub enum Tag {
    PublicKeyEncryptedSessionKey,
    Signature,
    SymKeyEncryptedSessionKey,
    OnePassSignature,
    SecretKey,
    PublicKey,
    SecretSubkey,
    CompressedData,
    SymEncryptedData,
    Marker,
    LiteralData,
    Trust,
    UserId,
    PublicSubkey,
    UserAttribute,
    SymEncryptedProtectedData,
    ModDetectionCode,
}

} // verus!
