use vstd::prelude::*;
use vstd::string::StringSliceAdditionalSpecFns;

use crate::crypto::hash::HashAlgorithm;
use crate::errors::{Feature, PgpError};

verus! {

/// How a cipher's key comes from a passphrase.
#[derive(Debug, Clone, Copy, PartialEq, Eq)]
pub enum StringToKey {
    /// The passphrase is hashed as it is.
    Simple { hash: HashAlgorithm },
    /// The salt is hashed, then the passphrase.
    Salted { hash: HashAlgorithm, salt: [u8; 8] },
    /// Salt and passphrase are hashed over and over, until as many bytes
    /// have gone in as the coded count says.
    IteratedAndSalted { hash: HashAlgorithm, salt: [u8; 8], count: u8 },
}

/// How many bytes a coded count asks to hash.
pub open spec fn decoded_count(coded: u8) -> nat {
    ((16 + coded % 16) * vstd::arithmetic::power2::pow2((coded / 16 + 6) as nat)) as nat
}

/// The first `n` bytes of `unit` written over and over.
pub open spec fn repeated(unit: Seq<u8>, n: nat) -> Seq<u8> {
    Seq::new(n, |i: int| unit[i % unit.len() as int])
}

/// So many zero bytes.
pub open spec fn zeros(n: nat) -> Seq<u8> {
    Seq::new(n, |i: int| 0u8)
}

/// The digests of the first `rounds` rounds, one after the other: round
/// `r` hashes `r` zero bytes and then `material`.
pub open spec fn key_stream(hash: HashAlgorithm, material: Seq<u8>, rounds: nat) -> Seq<u8>
    decreases rounds,
{
    if rounds == 0 {
        Seq::empty()
    } else {
        let r = (rounds - 1) as nat;
        key_stream(hash, material, r) + hash.digest_of(zeros(r) + material).unwrap()
    }
}

/// How many digests of `digest_len` bytes cover `key_size` bytes.
pub open spec fn rounds_for(key_size: nat, digest_len: nat) -> nat {
    ((key_size + digest_len - 1) / digest_len as int) as nat
}

fn decode_count(coded: u8) -> (n: usize)
    ensures
        n == decoded_count(coded),
        n <= 65011712,
{
    let base: u32 = 16 + (coded % 16) as u32;
    let shift: u32 = (coded / 16) as u32 + 6;
    proof {
        vstd::arithmetic::power2::lemma2_to64();
        assert(vstd::arithmetic::power2::pow2(shift as nat) <= 2097152) by {
            assert(shift == 6 || shift == 7 || shift == 8 || shift == 9 || shift == 10 || shift
                == 11 || shift == 12 || shift == 13 || shift == 14 || shift == 15 || shift == 16
                || shift == 17 || shift == 18 || shift == 19 || shift == 20 || shift == 21);
        }
        assert(base * vstd::arithmetic::power2::pow2(shift as nat) <= 65011712) by (nonlinear_arith)
            requires
                base <= 31,
                vstd::arithmetic::power2::pow2(shift as nat) <= 2097152,
        ;
        vstd::bits::lemma_u32_shl_is_mul(base, shift);
    }
    (base << shift) as usize
}

/// What the round of that number hashes: as many zero bytes as rounds
/// went before, and then the material.
pub fn round_input(round: usize, material: &[u8]) -> (out: Vec<u8>)
    ensures
        out@ == zeros(round as nat) + material@,
{
    let mut input: Vec<u8> = Vec::new();
    let mut z: usize = 0;
    while z < round
        invariant
            z <= round,
            input@ == zeros(z as nat),
        decreases round - z,
    {
        input.push(0u8);
        z += 1;
        assert(input@ =~= zeros(z as nat));
    }
    input.extend_from_slice(material);
    assert(input@ =~= zeros(round as nat) + material@);
    input
}

impl StringToKey {
    pub open spec fn hash_algorithm(self) -> HashAlgorithm {
        match self {
            StringToKey::Simple { hash } => hash,
            StringToKey::Salted { hash, .. } => hash,
            StringToKey::IteratedAndSalted { hash, .. } => hash,
        }
    }

    /// What each round hashes after its zero bytes.
    pub open spec fn material(self, passphrase: Seq<u8>) -> Seq<u8> {
        match self {
            StringToKey::Simple { .. } => passphrase,
            StringToKey::Salted { salt, .. } => salt@ + passphrase,
            StringToKey::IteratedAndSalted { salt, count, .. } => {
                let unit = salt@ + passphrase;
                if decoded_count(count) < unit.len() {
                    unit
                } else {
                    repeated(unit, decoded_count(count))
                }
            },
        }
    }

    /// The key of `key_size` bytes that the passphrase gives.  A key of no
    /// bytes needs no hash; any other key needs an algorithm that names a
    /// hash function.
    pub open spec fn derived_key(self, passphrase: Seq<u8>, key_size: nat) -> Result<
        Seq<u8>,
        PgpError,
    > {
        let hash = self.hash_algorithm();
        if key_size == 0 {
            Ok(Seq::empty())
        } else if hash.digest_len() == 0 {
            Err(PgpError::Unimplemented(Feature::Hash(hash)))
        } else {
            Ok(
                key_stream(
                    hash,
                    self.material(passphrase),
                    rounds_for(key_size, hash.digest_len()),
                ).take(key_size as int),
            )
        }
    }

    /// Derives a key of `key_size` bytes from the passphrase.  Digests of
    /// the hash algorithm are strung together until they cover the key;
    /// each of them hashes one more zero byte than the one before, and then
    /// what `material` says.
    pub fn derive_key(&self, passphrase: &str, key_size: usize) -> (res: Result<Vec<u8>, PgpError>)
        ensures
            match self.derived_key(passphrase.spec_bytes(), key_size as nat) {
                Ok(key) => res matches Ok(out) && out@ == key && key.len() == key_size,
                Err(e) => res matches Err(x) && x == e,
            },
    {
        let hash = self.hash();
        if key_size == 0 {
            let key: Vec<u8> = Vec::new();
            assert(key@ =~= Seq::<u8>::empty());
            return Ok(key);
        }
        let digest_size = hash.digest_size();
        if digest_size == 0 {
            return Err(PgpError::Unimplemented(Feature::Hash(hash)));
        }
        let material = self.hashed_material(passphrase.as_bytes());
        let rounds: usize = (key_size - 1) / digest_size + 1;
        assert(rounds == rounds_for(key_size as nat, digest_size as nat)) by (nonlinear_arith)
            requires
                rounds == (key_size - 1) / (digest_size as int) + 1,
                key_size > 0,
                digest_size > 0,
        ;
        assert(rounds * digest_size >= key_size) by (nonlinear_arith)
            requires
                rounds == (key_size - 1) / (digest_size as int) + 1,
                key_size > 0,
                digest_size > 0,
        ;
        let mut key: Vec<u8> = Vec::new();
        let mut round: usize = 0;
        while round < rounds
            invariant
                round <= rounds,
                digest_size == hash.digest_len(),
                digest_size > 0,
                key@ == key_stream(hash, material@, round as nat),
                key@.len() == round * digest_size,
            decreases rounds - round,
        {
            let input = round_input(round, material.as_slice());
            match hash.digest(input.as_slice()) {
                Ok(digest) => {
                    key.extend_from_slice(digest.as_slice());
                    assert(key@ =~= key_stream(hash, material@, round as nat) + digest@);
                    assert(key@.len() == (round + 1) * digest_size) by (nonlinear_arith)
                        requires
                            key@.len() == round * digest_size + digest_size,
                    ;
                },
                Err(e) => {
                    return Err(e);
                },
            }
            round += 1;
        }
        key.truncate(key_size);
        Ok(key)
    }

    /// What each round hashes after its zero bytes: the passphrase, with
    /// the salt before it where there is one, and both over and over where
    /// a count asks for more bytes than the two have.
    pub fn hashed_material(&self, passphrase: &[u8]) -> (out: Vec<u8>)
        ensures
            out@ == self.material(passphrase@),
    {
        match self {
            StringToKey::Simple { .. } => vstd::slice::slice_to_vec(passphrase),
            StringToKey::Salted { salt, .. } => {
                let mut out = vstd::slice::slice_to_vec(salt.as_slice());
                out.extend_from_slice(passphrase);
                assert(out@ =~= salt@ + passphrase@);
                out
            },
            StringToKey::IteratedAndSalted { salt, count, .. } => {
                let mut unit = vstd::slice::slice_to_vec(salt.as_slice());
                unit.extend_from_slice(passphrase);
                assert(unit@ =~= salt@ + passphrase@);
                let total = decode_count(*count);
                if total < unit.len() {
                    return unit;
                }
                let mut out: Vec<u8> = Vec::new();
                let mut i: usize = 0;
                while i < total
                    invariant
                        i <= total,
                        unit@.len() >= 8,
                        out@ == repeated(unit@, i as nat),
                    decreases total - i,
                {
                    out.push(unit[i % unit.len()]);
                    i += 1;
                    assert(out@ =~= repeated(unit@, i as nat));
                }
                out
            },
        }
    }

    /// How many bytes an iterated derivation hashes in each round, where
    /// the passphrase and the salt together are not longer.
    pub fn count(&self) -> (n: Option<usize>)
        ensures
            n == match *self {
                StringToKey::IteratedAndSalted { count, .. } => Some(decoded_count(count) as usize),
                _ => None,
            },
    {
        match self {
            StringToKey::IteratedAndSalted { count, .. } => Some(decode_count(*count)),
            _ => None,
        }
    }

    pub fn hash(&self) -> (h: HashAlgorithm)
        ensures
            h == self.hash_algorithm(),
    {
        match self {
            StringToKey::Simple { hash } => *hash,
            StringToKey::Salted { hash, .. } => *hash,
            StringToKey::IteratedAndSalted { hash, .. } => *hash,
        }
    }
}

} // verus!
