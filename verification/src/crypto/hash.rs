use vstd::prelude::*;

use crate::errors::{Feature, PgpError};
use sha2::Digest;

verus! {

/// The hash algorithms of the format, each with its one-byte code.
#[derive(Debug, Clone, Copy, PartialEq, Eq, Structural)]
pub enum HashAlgorithm {
    /// The code zero: no hash function.
    NoHash,
    MD5,
    SHA1,
    RIPEMD160,
    SHA2_256,
    SHA2_384,
    SHA2_512,
    SHA2_224,
    SHA3_256,
    SHA3_512,
    /// Kept for compatibility only; never to be produced.
    Private10,
}

/// What `md5::Md5::digest` returns for these bytes.
pub uninterp spec fn md5_digest(data: Seq<u8>) -> Seq<u8>;

/// What `sha1::Sha1::digest` returns for these bytes.
pub uninterp spec fn sha1_digest(data: Seq<u8>) -> Seq<u8>;

/// What `ripemd::Ripemd160::digest` returns for these bytes.
pub uninterp spec fn ripemd160_digest(data: Seq<u8>) -> Seq<u8>;

/// What `sha2::Sha256::digest` returns for these bytes.
pub uninterp spec fn sha2_256_digest(data: Seq<u8>) -> Seq<u8>;

/// What `sha2::Sha384::digest` returns for these bytes.
pub uninterp spec fn sha2_384_digest(data: Seq<u8>) -> Seq<u8>;

/// What `sha2::Sha512::digest` returns for these bytes.
pub uninterp spec fn sha2_512_digest(data: Seq<u8>) -> Seq<u8>;

/// What `sha2::Sha224::digest` returns for these bytes.
pub uninterp spec fn sha2_224_digest(data: Seq<u8>) -> Seq<u8>;

/// What `sha3::Sha3_256::digest` returns for these bytes.
pub uninterp spec fn sha3_256_digest(data: Seq<u8>) -> Seq<u8>;

/// What `sha3::Sha3_512::digest` returns for these bytes.
pub uninterp spec fn sha3_512_digest(data: Seq<u8>) -> Seq<u8>;

/// Calls `md5::Md5::digest`.  Trusted: the digest depends on the bytes
/// alone and is 16 bytes long.
#[verifier::external_body]
fn md5(data: &[u8]) -> (out: Vec<u8>)
    ensures
        out@ == md5_digest(data@),
        out@.len() == 16,
{
    md5::Md5::digest(data).to_vec()
}

/// Calls `sha1::Sha1::digest`.  Trusted: the digest depends on the bytes
/// alone and is 20 bytes long.
#[verifier::external_body]
pub(crate) fn sha1(data: &[u8]) -> (out: Vec<u8>)
    ensures
        out@ == sha1_digest(data@),
        out@.len() == 20,
{
    sha1::Sha1::digest(data).to_vec()
}

/// Calls `ripemd::Ripemd160::digest`.  Trusted: the digest depends on the
/// bytes alone and is 20 bytes long.
#[verifier::external_body]
fn ripemd160(data: &[u8]) -> (out: Vec<u8>)
    ensures
        out@ == ripemd160_digest(data@),
        out@.len() == 20,
{
    ripemd::Ripemd160::digest(data).to_vec()
}

/// Calls `sha2::Sha256::digest`.  Trusted: the digest depends on the bytes
/// alone and is 32 bytes long.
#[verifier::external_body]
fn sha2_256(data: &[u8]) -> (out: Vec<u8>)
    ensures
        out@ == sha2_256_digest(data@),
        out@.len() == 32,
{
    sha2::Sha256::digest(data).to_vec()
}

/// Calls `sha2::Sha384::digest`.  Trusted: the digest depends on the bytes
/// alone and is 48 bytes long.
#[verifier::external_body]
fn sha2_384(data: &[u8]) -> (out: Vec<u8>)
    ensures
        out@ == sha2_384_digest(data@),
        out@.len() == 48,
{
    sha2::Sha384::digest(data).to_vec()
}

/// Calls `sha2::Sha512::digest`.  Trusted: the digest depends on the bytes
/// alone and is 64 bytes long.
#[verifier::external_body]
fn sha2_512(data: &[u8]) -> (out: Vec<u8>)
    ensures
        out@ == sha2_512_digest(data@),
        out@.len() == 64,
{
    sha2::Sha512::digest(data).to_vec()
}

/// Calls `sha2::Sha224::digest`.  Trusted: the digest depends on the bytes
/// alone and is 28 bytes long.
#[verifier::external_body]
fn sha2_224(data: &[u8]) -> (out: Vec<u8>)
    ensures
        out@ == sha2_224_digest(data@),
        out@.len() == 28,
{
    sha2::Sha224::digest(data).to_vec()
}

/// Calls `sha3::Sha3_256::digest`.  Trusted: the digest depends on the
/// bytes alone and is 32 bytes long.
#[verifier::external_body]
fn sha3_256(data: &[u8]) -> (out: Vec<u8>)
    ensures
        out@ == sha3_256_digest(data@),
        out@.len() == 32,
{
    sha3::Sha3_256::digest(data).to_vec()
}

/// Calls `sha3::Sha3_512::digest`.  Trusted: the digest depends on the
/// bytes alone and is 64 bytes long.
#[verifier::external_body]
fn sha3_512(data: &[u8]) -> (out: Vec<u8>)
    ensures
        out@ == sha3_512_digest(data@),
        out@.len() == 64,
{
    sha3::Sha3_512::digest(data).to_vec()
}

impl HashAlgorithm {
    /// The byte that stands for the algorithm on the wire.
    pub open spec fn code(self) -> u8 {
        match self {
            HashAlgorithm::NoHash => 0,
            HashAlgorithm::MD5 => 1,
            HashAlgorithm::SHA1 => 2,
            HashAlgorithm::RIPEMD160 => 3,
            HashAlgorithm::SHA2_256 => 8,
            HashAlgorithm::SHA2_384 => 9,
            HashAlgorithm::SHA2_512 => 10,
            HashAlgorithm::SHA2_224 => 11,
            HashAlgorithm::SHA3_256 => 12,
            HashAlgorithm::SHA3_512 => 14,
            HashAlgorithm::Private10 => 110,
        }
    }

    /// The algorithm that a byte stands for, if any: the inverse of `code`.
    pub open spec fn from_code(b: u8) -> Option<HashAlgorithm> {
        if exists|h: HashAlgorithm| h.code() == b {
            Some(choose|h: HashAlgorithm| h.code() == b)
        } else {
            None
        }
    }

    /// `code` gives no byte to two algorithms, so `from_code` undoes it.
    pub proof fn lemma_code_roundtrip(h: HashAlgorithm)
        ensures
            Self::from_code(h.code()) == Some(h),
    {
        let c = choose|x: HashAlgorithm| x.code() == h.code();
        assert(c.code() == h.code());
    }

    /// Whatever `from_code` finds for a byte has that byte as its code.
    pub proof fn lemma_from_code_sound(b: u8)
        ensures
            Self::from_code(b) matches Some(h) ==> h.code() == b,
    {
    }

    pub fn to_u8(self) -> (b: u8)
        ensures
            b == self.code(),
    {
        match self {
            HashAlgorithm::NoHash => 0,
            HashAlgorithm::MD5 => 1,
            HashAlgorithm::SHA1 => 2,
            HashAlgorithm::RIPEMD160 => 3,
            HashAlgorithm::SHA2_256 => 8,
            HashAlgorithm::SHA2_384 => 9,
            HashAlgorithm::SHA2_512 => 10,
            HashAlgorithm::SHA2_224 => 11,
            HashAlgorithm::SHA3_256 => 12,
            HashAlgorithm::SHA3_512 => 14,
            HashAlgorithm::Private10 => 110,
        }
    }

    pub fn from_u8(b: u8) -> (res: Option<HashAlgorithm>)
        ensures
            res == Self::from_code(b),
    {
        let res = match b {
            0 => Some(HashAlgorithm::NoHash),
            1 => Some(HashAlgorithm::MD5),
            2 => Some(HashAlgorithm::SHA1),
            3 => Some(HashAlgorithm::RIPEMD160),
            8 => Some(HashAlgorithm::SHA2_256),
            9 => Some(HashAlgorithm::SHA2_384),
            10 => Some(HashAlgorithm::SHA2_512),
            11 => Some(HashAlgorithm::SHA2_224),
            12 => Some(HashAlgorithm::SHA3_256),
            14 => Some(HashAlgorithm::SHA3_512),
            110 => Some(HashAlgorithm::Private10),
            _ => None,
        };
        proof {
            match res {
                Some(h) => {
                    Self::lemma_code_roundtrip(h);
                },
                None => {
                    assert(forall|h: HashAlgorithm| h.code() != b);
                },
            }
        }
        res
    }

    /// How many bytes a digest of this algorithm has; zero for the two
    /// entries that name no hash function.
    pub open spec fn digest_len(self) -> nat {
        match self {
            HashAlgorithm::NoHash => 0,
            HashAlgorithm::MD5 => 16,
            HashAlgorithm::SHA1 => 20,
            HashAlgorithm::RIPEMD160 => 20,
            HashAlgorithm::SHA2_256 => 32,
            HashAlgorithm::SHA2_384 => 48,
            HashAlgorithm::SHA2_512 => 64,
            HashAlgorithm::SHA2_224 => 28,
            HashAlgorithm::SHA3_256 => 32,
            HashAlgorithm::SHA3_512 => 64,
            HashAlgorithm::Private10 => 0,
        }
    }

    /// The digest of `data` under this algorithm, where it names a hash
    /// function.
    pub open spec fn digest_of(self, data: Seq<u8>) -> Option<Seq<u8>> {
        match self {
            HashAlgorithm::NoHash => None,
            HashAlgorithm::MD5 => Some(md5_digest(data)),
            HashAlgorithm::SHA1 => Some(sha1_digest(data)),
            HashAlgorithm::RIPEMD160 => Some(ripemd160_digest(data)),
            HashAlgorithm::SHA2_256 => Some(sha2_256_digest(data)),
            HashAlgorithm::SHA2_384 => Some(sha2_384_digest(data)),
            HashAlgorithm::SHA2_512 => Some(sha2_512_digest(data)),
            HashAlgorithm::SHA2_224 => Some(sha2_224_digest(data)),
            HashAlgorithm::SHA3_256 => Some(sha3_256_digest(data)),
            HashAlgorithm::SHA3_512 => Some(sha3_512_digest(data)),
            HashAlgorithm::Private10 => None,
        }
    }

    pub fn digest_size(self) -> (n: usize)
        ensures
            n == self.digest_len(),
    {
        match self {
            HashAlgorithm::NoHash => 0,
            HashAlgorithm::MD5 => 16,
            HashAlgorithm::SHA1 => 20,
            HashAlgorithm::RIPEMD160 => 20,
            HashAlgorithm::SHA2_256 => 32,
            HashAlgorithm::SHA2_384 => 48,
            HashAlgorithm::SHA2_512 => 64,
            HashAlgorithm::SHA2_224 => 28,
            HashAlgorithm::SHA3_256 => 32,
            HashAlgorithm::SHA3_512 => 64,
            HashAlgorithm::Private10 => 0,
        }
    }

    /// Hashes `data`.  Fails, with `Unimplemented`, exactly for the two
    /// entries that name no hash function.
    pub fn digest(self, data: &[u8]) -> (res: Result<Vec<u8>, PgpError>)
        ensures
            match self.digest_of(data@) {
                Some(d) => res matches Ok(out) && out@ == d && d.len() == self.digest_len()
                    && d.len() > 0,
                None => res matches Err(e) && e == PgpError::Unimplemented(Feature::Hash(self)),
            },
    {
        match self {
            HashAlgorithm::MD5 => Ok(md5(data)),
            HashAlgorithm::SHA1 => Ok(sha1(data)),
            HashAlgorithm::RIPEMD160 => Ok(ripemd160(data)),
            HashAlgorithm::SHA2_256 => Ok(sha2_256(data)),
            HashAlgorithm::SHA2_384 => Ok(sha2_384(data)),
            HashAlgorithm::SHA2_512 => Ok(sha2_512(data)),
            HashAlgorithm::SHA2_224 => Ok(sha2_224(data)),
            HashAlgorithm::SHA3_256 => Ok(sha3_256(data)),
            HashAlgorithm::SHA3_512 => Ok(sha3_512(data)),
            HashAlgorithm::NoHash | HashAlgorithm::Private10 => Err(
                PgpError::Unimplemented(Feature::Hash(self)),
            ),
        }
    }
}

} // verus!
