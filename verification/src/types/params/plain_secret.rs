use vstd::prelude::*;
use vstd::string::StringSliceAdditionalSpecFns;

use crate::crypto::checksum::{additive_checksum, be16, calculate_sha1, SimpleChecksum};
use crate::crypto::ecc_curve::ECCCurve;
use crate::crypto::hash::sha1_digest;
use crate::crypto::public_key::PublicKeyAlgorithm;
use crate::crypto::random::random_bytes;
use crate::crypto::rsa_key::{
    be_value, private_key_from_components, rsa_consistent, rsa_key_from_components,
};
use crate::errors::{Feature, PgpError};
use crate::crypto::sym::SymmetricKeyAlgorithm;
use crate::ser::{ByteSink, Serialize};
use crate::types::packet::KeyVersion;
use crate::types::params::encrypted_secret::{EncryptedSecretParams, EncryptedSecretParamsView};
use crate::types::params::public::PublicParams;
use crate::types::s2k::StringToKey;
use crate::types::secret_key_repr::{ECDHSecretKey, EdDSASecretKey, SecretKeyRepr};
use crate::util::{
    is_minimal, lemma_parse_mpi_is_not_field, lemma_parse_mpi_of_encoding, lemma_parse_mpi_prefix,
    lemma_parse_mpi_truncated, mpi, mpi_encoding, parse_mpi, write_mpi,
};

verus! {

/// The secret numbers of a key, by algorithm, as byte sequences: what a
/// [`PlainSecretParams`] and a [`PlainSecretParamsRef`] stand for.
pub enum ParamsView {
    RSA { d: Seq<u8>, p: Seq<u8>, q: Seq<u8>, u: Seq<u8> },
    DSA(Seq<u8>),
    ECDSA(Seq<u8>),
    ECDH(Seq<u8>),
    Elgamal(Seq<u8>),
    EdDSA(Seq<u8>),
}

/// The secret numbers of a key, each a big-endian byte string of its own.
#[derive(Clone, PartialEq, Eq)]
pub enum PlainSecretParams {
    RSA { d: Vec<u8>, p: Vec<u8>, q: Vec<u8>, u: Vec<u8> },
    DSA(Vec<u8>),
    ECDSA(Vec<u8>),
    ECDH(Vec<u8>),
    Elgamal(Vec<u8>),
    EdDSA(Vec<u8>),
}

/// The secret numbers of a key, each a piece of the buffer that they were
/// read from.
#[derive(Clone, PartialEq, Eq)]
pub enum PlainSecretParamsRef<'a> {
    RSA { d: &'a [u8], p: &'a [u8], q: &'a [u8], u: &'a [u8] },
    DSA(&'a [u8]),
    ECDSA(&'a [u8]),
    ECDH(&'a [u8]),
    Elgamal(&'a [u8]),
    EdDSA(&'a [u8]),
}

impl View for PlainSecretParams {
    type V = ParamsView;

    open spec fn view(&self) -> ParamsView {
        match self {
            PlainSecretParams::RSA { d, p, q, u } => ParamsView::RSA {
                d: d@,
                p: p@,
                q: q@,
                u: u@,
            },
            PlainSecretParams::DSA(x) => ParamsView::DSA(x@),
            PlainSecretParams::ECDSA(x) => ParamsView::ECDSA(x@),
            PlainSecretParams::ECDH(x) => ParamsView::ECDH(x@),
            PlainSecretParams::Elgamal(x) => ParamsView::Elgamal(x@),
            PlainSecretParams::EdDSA(x) => ParamsView::EdDSA(x@),
        }
    }
}

impl<'a> View for PlainSecretParamsRef<'a> {
    type V = ParamsView;

    open spec fn view(&self) -> ParamsView {
        match self {
            PlainSecretParamsRef::RSA { d, p, q, u } => ParamsView::RSA {
                d: d@,
                p: p@,
                q: q@,
                u: u@,
            },
            PlainSecretParamsRef::DSA(x) => ParamsView::DSA(x@),
            PlainSecretParamsRef::ECDSA(x) => ParamsView::ECDSA(x@),
            PlainSecretParamsRef::ECDH(x) => ParamsView::ECDH(x@),
            PlainSecretParamsRef::Elgamal(x) => ParamsView::Elgamal(x@),
            PlainSecretParamsRef::EdDSA(x) => ParamsView::EdDSA(x@),
        }
    }
}

impl ParamsView {
    /// The parameters as fields one after the other, with nothing around
    /// them: what is checksummed and what is encrypted.  RSA has the
    /// fields `d`, `p`, `q`, `u` in this order; every other algorithm has
    /// one.
    pub open spec fn raw_bytes(self) -> Seq<u8> {
        match self {
            ParamsView::RSA { d, p, q, u } => mpi_encoding(d) + mpi_encoding(p) + mpi_encoding(q)
                + mpi_encoding(u),
            ParamsView::DSA(x) => mpi_encoding(x),
            ParamsView::ECDSA(x) => mpi_encoding(x),
            ParamsView::ECDH(x) => mpi_encoding(x),
            ParamsView::Elgamal(x) => mpi_encoding(x),
            ParamsView::EdDSA(x) => mpi_encoding(x),
        }
    }

    /// The parameters as they stand in an unencrypted secret-key packet:
    /// the byte zero, the fields, and the additive checksum of the fields.
    pub open spec fn framed_bytes(self) -> Seq<u8> {
        seq![0u8] + self.raw_bytes() + be16(additive_checksum(self.raw_bytes()))
    }

    /// Whether every field reads back as it is written.
    pub open spec fn is_minimal(self) -> bool {
        match self {
            ParamsView::RSA { d, p, q, u } => is_minimal(d) && is_minimal(p) && is_minimal(q)
                && is_minimal(u),
            ParamsView::DSA(x) => is_minimal(x),
            ParamsView::ECDSA(x) => is_minimal(x),
            ParamsView::ECDH(x) => is_minimal(x),
            ParamsView::Elgamal(x) => is_minimal(x),
            ParamsView::EdDSA(x) => is_minimal(x),
        }
    }

    /// Whether these are the parameters of a key of the algorithm `alg`.
    pub open spec fn belongs_to(self, alg: PublicKeyAlgorithm) -> bool {
        match self {
            ParamsView::RSA { .. } => alg == PublicKeyAlgorithm::RSA || alg
                == PublicKeyAlgorithm::RSAEncrypt || alg == PublicKeyAlgorithm::RSASign,
            ParamsView::DSA(_) => alg == PublicKeyAlgorithm::DSA,
            ParamsView::ECDSA(_) => alg == PublicKeyAlgorithm::ECDSA,
            ParamsView::ECDH(_) => alg == PublicKeyAlgorithm::ECDH,
            ParamsView::Elgamal(_) => alg == PublicKeyAlgorithm::Elgamal,
            ParamsView::EdDSA(_) => alg == PublicKeyAlgorithm::EdDSA,
        }
    }

    /// Whether the public parameters are those of the same kind of key.
    /// Only the three kinds that can become a usable key are held to it.
    pub open spec fn pairs_with(self, public_params: &PublicParams) -> bool {
        match self {
            ParamsView::RSA { .. } => public_params is RSA,
            ParamsView::ECDH(_) => public_params is ECDH,
            ParamsView::EdDSA(_) => public_params is EdDSA,
            _ => true,
        }
    }

    /// What is encrypted to protect the parameters: the raw bytes, and
    /// their SHA-1 digest after them.
    pub open spec fn protected_payload(self) -> Seq<u8> {
        self.raw_bytes() + sha1_digest(self.raw_bytes())
    }

    /// The ciphertext that protects the parameters under a cipher key of
    /// the cipher's key length, or why there is none.  Only keys of format
    /// version 4 are protected, and only with the selector 254, which
    /// stands for the SHA-1 digest.
    pub open spec fn sealed(
        self,
        key: Seq<u8>,
        iv: Seq<u8>,
        alg: SymmetricKeyAlgorithm,
        version: KeyVersion,
        id: u8,
    ) -> Result<Seq<u8>, PgpError> {
        match version {
            KeyVersion::V2 => Err(PgpError::Unsupported(Feature::KeyVersion(version))),
            KeyVersion::V3 => Err(PgpError::Unimplemented(Feature::KeyVersion(version))),
            KeyVersion::V4 => if id != 254 {
                Err(PgpError::Unimplemented(Feature::StringToKeyId(id)))
            } else {
                alg.encrypted_with_fitting_key(key, iv, self.protected_payload())
            },
            KeyVersion::V5 => Err(PgpError::Unimplemented(Feature::KeyVersion(version))),
        }
    }

    /// The ciphertext that protects the parameters under a passphrase, or
    /// why there is none.  The cipher's key is derived first, so a failure
    /// of the derivation comes before every other.
    pub open spec fn encrypted(
        self,
        iv: Seq<u8>,
        passphrase: Seq<u8>,
        alg: SymmetricKeyAlgorithm,
        s2k: StringToKey,
        version: KeyVersion,
        id: u8,
    ) -> Result<Seq<u8>, PgpError> {
        match s2k.derived_key(passphrase, alg.key_len()) {
            Err(e) => Err(e),
            Ok(key) => self.sealed(key, iv, alg, version, id),
        }
    }

    /// The additive checksum of the raw bytes, as two bytes.
    pub open spec fn simple_checksum(self) -> Seq<u8> {
        be16(additive_checksum(self.raw_bytes()))
    }

    /// The SHA-1 digest of the raw bytes.
    pub open spec fn sha1_checksum(self) -> Seq<u8> {
        sha1_digest(self.raw_bytes())
    }
}

/// Reading the four fields of an RSA key from the front of `input`.
pub open spec fn parse_rsa_secret_params(input: Seq<u8>) -> Result<(Seq<u8>, ParamsView), PgpError> {
    match parse_mpi(input) {
        Err(e) => Err(e),
        Ok((after_d, d)) => match parse_mpi(after_d) {
            Err(e) => Err(e),
            Ok((after_p, p)) => match parse_mpi(after_p) {
                Err(e) => Err(e),
                Ok((after_q, q)) => match parse_mpi(after_q) {
                    Err(e) => Err(e),
                    Ok((rest, u)) => Ok((rest, ParamsView::RSA { d, p, q, u })),
                },
            },
        },
    }
}

/// Reading the secret parameters of a key of the algorithm `alg` from the
/// front of `input`: what is left of the input, and the parameters.  The
/// three RSA algorithms read four fields, five others read one, and the
/// rest have no secret parameters here.
pub open spec fn parse_secret_params(input: Seq<u8>, alg: PublicKeyAlgorithm) -> Result<
    (Seq<u8>, ParamsView),
    PgpError,
> {
    match alg {
        PublicKeyAlgorithm::RSA
        | PublicKeyAlgorithm::RSAEncrypt
        | PublicKeyAlgorithm::RSASign => parse_rsa_secret_params(input),
        PublicKeyAlgorithm::DSA => match parse_mpi(input) {
            Err(e) => Err(e),
            Ok((rest, x)) => Ok((rest, ParamsView::DSA(x))),
        },
        PublicKeyAlgorithm::Elgamal => match parse_mpi(input) {
            Err(e) => Err(e),
            Ok((rest, x)) => Ok((rest, ParamsView::Elgamal(x))),
        },
        PublicKeyAlgorithm::ECDH => match parse_mpi(input) {
            Err(e) => Err(e),
            Ok((rest, x)) => Ok((rest, ParamsView::ECDH(x))),
        },
        PublicKeyAlgorithm::ECDSA => match parse_mpi(input) {
            Err(e) => Err(e),
            Ok((rest, x)) => Ok((rest, ParamsView::ECDSA(x))),
        },
        PublicKeyAlgorithm::EdDSA => match parse_mpi(input) {
            Err(e) => Err(e),
            Ok((rest, x)) => Ok((rest, ParamsView::EdDSA(x))),
        },
        _ => Err(PgpError::Unsupported(Feature::SecretParams(alg))),
    }
}

/// What becomes of the RSA crate's answer: its key is the usable key, its
/// error is passed on unchanged.
pub fn rsa_repr(built: Result<rsa::RsaPrivateKey, rsa::errors::Error>) -> (res: Result<
    SecretKeyRepr,
    PgpError,
>)
    ensures
        match built {
            Ok(key) => res == Ok::<SecretKeyRepr, PgpError>(SecretKeyRepr::RSA(key)),
            Err(e) => res == Err::<SecretKeyRepr, PgpError>(PgpError::RSAError(e)),
        },
{
    match built {
        Ok(key) => Ok(SecretKeyRepr::RSA(key)),
        Err(e) => Err(PgpError::RSAError(e)),
    }
}

/// The 32 bytes of a curve scalar, if `d` has exactly that many.
fn scalar(d: &[u8]) -> (res: Result<[u8; 32], PgpError>)
    ensures
        d@.len() == 32 ==> (res matches Ok(secret) && secret@ == d@),
        d@.len() != 32 ==> res == Err::<[u8; 32], PgpError>(PgpError::InvalidSecret),
{
    if d.len() != 32 {
        return Err(PgpError::InvalidSecret);
    }
    let mut secret = [0u8; 32];
    let mut i: usize = 0;
    while i < 32
        invariant
            i <= 32,
            d@.len() == 32,
            forall|j: int| 0 <= j < i ==> secret@[j] == d@[j],
        decreases 32 - i,
    {
        secret[i] = d[i];
        i += 1;
    }
    assert(secret@ =~= d@);
    Ok(secret)
}

fn rsa_secret_params<'a>(input: &'a [u8]) -> (res: Result<
    (&'a [u8], PlainSecretParamsRef<'a>),
    PgpError,
>)
    ensures
        match parse_rsa_secret_params(input@) {
            Ok((rest, params)) => res matches Ok((r, p)) && r@ == rest && p@ == params,
            Err(e) => res matches Err(x) && x == e,
        },
{
    let (input, d) = match mpi(input) {
        Ok(read) => read,
        Err(e) => return Err(e),
    };
    let (input, p) = match mpi(input) {
        Ok(read) => read,
        Err(e) => return Err(e),
    };
    let (input, q) = match mpi(input) {
        Ok(read) => read,
        Err(e) => return Err(e),
    };
    let (input, u) = match mpi(input) {
        Ok(read) => read,
        Err(e) => return Err(e),
    };
    Ok((input, PlainSecretParamsRef::RSA { d, p, q, u }))
}

fn parse<'a>(input: &'a [u8], alg: PublicKeyAlgorithm) -> (res: Result<
    (&'a [u8], PlainSecretParamsRef<'a>),
    PgpError,
>)
    ensures
        match parse_secret_params(input@, alg) {
            Ok((rest, params)) => res matches Ok((r, p)) && r@ == rest && p@ == params,
            Err(e) => res matches Err(x) && x == e,
        },
{
    match alg {
        PublicKeyAlgorithm::RSA
        | PublicKeyAlgorithm::RSAEncrypt
        | PublicKeyAlgorithm::RSASign => rsa_secret_params(input),
        PublicKeyAlgorithm::DSA => match mpi(input) {
            Ok((rest, x)) => Ok((rest, PlainSecretParamsRef::DSA(x))),
            Err(e) => Err(e),
        },
        PublicKeyAlgorithm::Elgamal => match mpi(input) {
            Ok((rest, x)) => Ok((rest, PlainSecretParamsRef::Elgamal(x))),
            Err(e) => Err(e),
        },
        PublicKeyAlgorithm::ECDH => match mpi(input) {
            Ok((rest, x)) => Ok((rest, PlainSecretParamsRef::ECDH(x))),
            Err(e) => Err(e),
        },
        PublicKeyAlgorithm::ECDSA => match mpi(input) {
            Ok((rest, x)) => Ok((rest, PlainSecretParamsRef::ECDSA(x))),
            Err(e) => Err(e),
        },
        PublicKeyAlgorithm::EdDSA => match mpi(input) {
            Ok((rest, x)) => Ok((rest, PlainSecretParamsRef::EdDSA(x))),
            Err(e) => Err(e),
        },
        _ => Err(PgpError::Unsupported(Feature::SecretParams(alg))),
    }
}

impl<'a> PlainSecretParamsRef<'a> {
    /// Reads the secret parameters of a key of the algorithm `alg` from the
    /// front of `data`, without copying them.  Bytes after the last field
    /// are not looked at.
    pub fn from_slice(data: &'a [u8], alg: PublicKeyAlgorithm) -> (res: Result<
        PlainSecretParamsRef<'a>,
        PgpError,
    >)
        ensures
            match parse_secret_params(data@, alg) {
                Ok((_, params)) => res matches Ok(p) && p@ == params,
                Err(e) => res matches Err(x) && x == e,
            },
    {
        match parse(data, alg) {
            Ok((_, repr)) => Ok(repr),
            Err(e) => Err(e),
        }
    }

    /// The same parameters in buffers of their own.
    pub fn to_owned(&self) -> (out: PlainSecretParams)
        ensures
            out@ == self@,
    {
        match self {
            PlainSecretParamsRef::RSA { d, p, q, u } => PlainSecretParams::RSA {
                d: vstd::slice::slice_to_vec(d),
                p: vstd::slice::slice_to_vec(p),
                q: vstd::slice::slice_to_vec(q),
                u: vstd::slice::slice_to_vec(u),
            },
            PlainSecretParamsRef::DSA(v) => PlainSecretParams::DSA(vstd::slice::slice_to_vec(v)),
            PlainSecretParamsRef::ECDSA(v) => PlainSecretParams::ECDSA(
                vstd::slice::slice_to_vec(v),
            ),
            PlainSecretParamsRef::ECDH(v) => PlainSecretParams::ECDH(vstd::slice::slice_to_vec(v)),
            PlainSecretParamsRef::Elgamal(v) => PlainSecretParams::Elgamal(
                vstd::slice::slice_to_vec(v),
            ),
            PlainSecretParamsRef::EdDSA(v) => PlainSecretParams::EdDSA(
                vstd::slice::slice_to_vec(v),
            ),
        }
    }

    /// The byte that stands before unencrypted parameters.
    pub fn string_to_key_id(&self) -> (id: u8)
        ensures
            id == 0,
    {
        0
    }

    /// Writes the fields, and nothing else, to `writer`.
    pub fn to_writer_raw<W: ByteSink>(&self, writer: &mut W)
        ensures
            final(writer).written() == old(writer).written() + self@.raw_bytes(),
    {
        match self {
            PlainSecretParamsRef::RSA { d, p, q, u } => {
                write_mpi(d, writer);
                write_mpi(p, writer);
                write_mpi(q, writer);
                write_mpi(u, writer);
                assert(old(writer).written() + mpi_encoding(d@) + mpi_encoding(p@) + mpi_encoding(
                    q@,
                ) + mpi_encoding(u@) =~= old(writer).written() + (mpi_encoding(d@) + mpi_encoding(
                    p@,
                ) + mpi_encoding(q@) + mpi_encoding(u@)));
            },
            PlainSecretParamsRef::DSA(x) => {
                write_mpi(x, writer);
            },
            PlainSecretParamsRef::ECDSA(x) => {
                write_mpi(x, writer);
            },
            PlainSecretParamsRef::ECDH(x) => {
                write_mpi(x, writer);
            },
            PlainSecretParamsRef::Elgamal(x) => {
                write_mpi(x, writer);
            },
            PlainSecretParamsRef::EdDSA(x) => {
                write_mpi(x, writer);
            },
        }
    }

    /// The additive checksum of the raw bytes: two bytes, the more
    /// significant one first.
    pub fn checksum_simple(&self) -> (out: Vec<u8>)
        ensures
            out@ == self@.simple_checksum(),
    {
        let mut hasher = SimpleChecksum::default();
        self.to_writer_raw(&mut hasher);
        assert(hasher.written() =~= self@.raw_bytes());
        let sum = hasher.finalize();
        let out = vec![sum[0], sum[1]];
        assert(out@ =~= sum@);
        out
    }

    /// The SHA-1 digest of the raw bytes.
    pub fn checksum_sha1(&self) -> (out: Vec<u8>)
        ensures
            out@ == self@.sha1_checksum(),
    {
        let mut buf: Vec<u8> = Vec::new();
        self.to_writer_raw(&mut buf);
        assert(buf@ =~= self@.raw_bytes());
        calculate_sha1(buf.as_slice())
    }

    /// Whether `public_params` are of the same kind of key as these secret
    /// parameters, as far as `as_repr` asks for it.
    pub fn is_paired_with(&self, public_params: &PublicParams) -> (b: bool)
        ensures
            b == self@.pairs_with(public_params),
    {
        match self {
            PlainSecretParamsRef::RSA { .. } => match public_params {
                PublicParams::RSA { .. } => true,
                _ => false,
            },
            PlainSecretParamsRef::ECDH(_) => match public_params {
                PublicParams::ECDH { .. } => true,
                _ => false,
            },
            PlainSecretParamsRef::EdDSA(_) => match public_params {
                PublicParams::EdDSA { .. } => true,
                _ => false,
            },
            _ => true,
        }
    }

    /// The key in the form that the cryptographic operations take, made
    /// from these secret parameters and the public parameters of the same
    /// key.
    ///
    /// An RSA key is whatever the RSA crate builds from `n`, `e`, `d` and
    /// the primes `p` and `q`; it builds a key only from numbers that it
    /// has found consistent.  A scalar for Curve25519 or Ed25519 must have
    /// exactly 32 bytes.  Other curves are not supported, and keys of the
    /// other algorithms are not implemented.
    pub fn as_repr(&self, public_params: &PublicParams) -> (res: Result<SecretKeyRepr, PgpError>)
        requires
            self@.pairs_with(public_params),
        ensures
            match (self@, *public_params) {
                (ParamsView::RSA { d, p, q, .. }, PublicParams::RSA { n, e }) => {
                    &&& match rsa_key_from_components(n@, e@, d, p, q) {
                        Ok(key) => res == Ok::<SecretKeyRepr, PgpError>(SecretKeyRepr::RSA(key)),
                        Err(err) => res == Err::<SecretKeyRepr, PgpError>(
                            PgpError::RSAError(err),
                        ),
                    }
                    &&& res is Ok ==> rsa_consistent(
                        be_value(n@),
                        be_value(e@),
                        be_value(d),
                        be_value(p),
                        be_value(q),
                    )
                },
                (ParamsView::ECDH(d), PublicParams::ECDH { curve, hash, alg_sym, .. }) => {
                    if curve != ECCCurve::Curve25519 {
                        res == Err::<SecretKeyRepr, PgpError>(
                            PgpError::Unsupported(Feature::Curve(curve)),
                        )
                    } else if d.len() != 32 {
                        res == Err::<SecretKeyRepr, PgpError>(PgpError::InvalidSecret)
                    } else {
                        &&& res matches Ok(SecretKeyRepr::ECDH(key))
                        &&& key.oid@ == ECCCurve::Curve25519.oid_bytes()
                        &&& key.hash == hash
                        &&& key.alg_sym == alg_sym
                        &&& key.secret@ == d
                    }
                },
                (ParamsView::EdDSA(d), PublicParams::EdDSA { curve, .. }) => {
                    if curve != ECCCurve::Ed25519 {
                        res == Err::<SecretKeyRepr, PgpError>(
                            PgpError::Unsupported(Feature::Curve(curve)),
                        )
                    } else if d.len() != 32 {
                        res == Err::<SecretKeyRepr, PgpError>(PgpError::InvalidSecret)
                    } else {
                        &&& res matches Ok(SecretKeyRepr::EdDSA(key))
                        &&& key.oid@ == ECCCurve::Ed25519.oid_bytes()
                        &&& key.secret@ == d
                    }
                },
                (ParamsView::DSA(_), _) => res == Err::<SecretKeyRepr, PgpError>(
                    PgpError::Unimplemented(Feature::SecretKey(PublicKeyAlgorithm::DSA)),
                ),
                (ParamsView::Elgamal(_), _) => res == Err::<SecretKeyRepr, PgpError>(
                    PgpError::Unimplemented(Feature::SecretKey(PublicKeyAlgorithm::Elgamal)),
                ),
                (ParamsView::ECDSA(_), _) => res == Err::<SecretKeyRepr, PgpError>(
                    PgpError::Unimplemented(Feature::SecretKey(PublicKeyAlgorithm::ECDSA)),
                ),
                _ => false,
            },
    {
        match self {
            PlainSecretParamsRef::RSA { d, p, q, .. } => match public_params {
                PublicParams::RSA { n, e } => rsa_repr(
                    private_key_from_components(n.as_slice(), e.as_slice(), d, p, q),
                ),
                _ => vstd::pervasive::unreached(),
            },
            PlainSecretParamsRef::ECDH(d) => match public_params {
                PublicParams::ECDH { curve, hash, alg_sym, .. } => match curve {
                    ECCCurve::Curve25519 => match scalar(d) {
                        Ok(secret) => Ok(
                            SecretKeyRepr::ECDH(
                                ECDHSecretKey {
                                    oid: curve.oid(),
                                    hash: *hash,
                                    alg_sym: *alg_sym,
                                    secret,
                                },
                            ),
                        ),
                        Err(e) => Err(e),
                    },
                    _ => Err(PgpError::Unsupported(Feature::Curve(*curve))),
                },
                _ => vstd::pervasive::unreached(),
            },
            PlainSecretParamsRef::EdDSA(d) => match public_params {
                PublicParams::EdDSA { curve, .. } => match curve {
                    ECCCurve::Ed25519 => match scalar(d) {
                        Ok(secret) => Ok(
                            SecretKeyRepr::EdDSA(EdDSASecretKey { oid: curve.oid(), secret }),
                        ),
                        Err(e) => Err(e),
                    },
                    _ => Err(PgpError::Unsupported(Feature::Curve(*curve))),
                },
                _ => vstd::pervasive::unreached(),
            },
            PlainSecretParamsRef::DSA(_) => Err(
                PgpError::Unimplemented(Feature::SecretKey(PublicKeyAlgorithm::DSA)),
            ),
            PlainSecretParamsRef::Elgamal(_) => Err(
                PgpError::Unimplemented(Feature::SecretKey(PublicKeyAlgorithm::Elgamal)),
            ),
            PlainSecretParamsRef::ECDSA(_) => Err(
                PgpError::Unimplemented(Feature::SecretKey(PublicKeyAlgorithm::ECDSA)),
            ),
        }
    }

    /// A name for the parameters that shows the algorithm and none of the
    /// secret bytes.
    pub fn describe(&self) -> (s: String)
        ensures
            s@ == match self@ {
                ParamsView::RSA { .. } => "PlainSecretParams(RSA)"@,
                ParamsView::DSA(_) => "PlainSecretParams(DSA)"@,
                ParamsView::Elgamal(_) => "PlainSecretParams(Elgamal)"@,
                ParamsView::ECDSA(_) => "PlainSecretParams(ECDSA)"@,
                ParamsView::ECDH(_) => "PlainSecretParams(ECDH)"@,
                ParamsView::EdDSA(_) => "PlainSecretParams(EdDSA)"@,
            },
    {
        match self {
            PlainSecretParamsRef::RSA { .. } => "PlainSecretParams(RSA)".to_owned(),
            PlainSecretParamsRef::DSA(_) => "PlainSecretParams(DSA)".to_owned(),
            PlainSecretParamsRef::Elgamal(_) => "PlainSecretParams(Elgamal)".to_owned(),
            PlainSecretParamsRef::ECDSA(_) => "PlainSecretParams(ECDSA)".to_owned(),
            PlainSecretParamsRef::ECDH(_) => "PlainSecretParams(ECDH)".to_owned(),
            PlainSecretParamsRef::EdDSA(_) => "PlainSecretParams(EdDSA)".to_owned(),
        }
    }
}

impl<'a> Serialize for PlainSecretParamsRef<'a> {
    open spec fn wire_bytes(&self) -> Seq<u8> {
        self@.framed_bytes()
    }

    /// Writes the parameters as they stand in an unencrypted packet.  The
    /// checksum is taken from the same bytes that `to_writer_raw` hands to
    /// the writer.
    fn to_writer<W: ByteSink>(&self, writer: &mut W) {
        let id = [self.string_to_key_id()];
        writer.write_all(id.as_slice());
        let mut hasher = SimpleChecksum::default();
        self.to_writer_raw(&mut hasher);
        self.to_writer_raw(writer);
        assert(hasher.written() =~= self@.raw_bytes());
        hasher.to_writer(writer);
        assert(id@ =~= seq![0u8]);
    }
}

impl PlainSecretParams {
    /// Reads the secret parameters of a key of the algorithm `alg` from the
    /// front of `data`, into buffers of their own.
    pub fn from_slice(data: &[u8], alg: PublicKeyAlgorithm) -> (res: Result<
        PlainSecretParams,
        PgpError,
    >)
        ensures
            match parse_secret_params(data@, alg) {
                Ok((_, params)) => res matches Ok(p) && p@ == params,
                Err(e) => res matches Err(x) && x == e,
            },
    {
        match PlainSecretParamsRef::from_slice(data, alg) {
            Ok(ref_params) => Ok(ref_params.to_owned()),
            Err(e) => Err(e),
        }
    }

    /// The byte that stands before unencrypted parameters.
    pub fn string_to_key_id(&self) -> (id: u8)
        ensures
            id == 0,
    {
        self.as_ref().string_to_key_id()
    }

    /// The additive checksum of the raw bytes: two bytes, the more
    /// significant one first.
    pub fn checksum_simple(&self) -> (out: Vec<u8>)
        ensures
            out@ == self@.simple_checksum(),
    {
        self.as_ref().checksum_simple()
    }

    /// The SHA-1 digest of the raw bytes.
    pub fn checksum_sha1(&self) -> (out: Vec<u8>)
        ensures
            out@ == self@.sha1_checksum(),
    {
        self.as_ref().checksum_sha1()
    }

    /// Protects the parameters with a passphrase, under an initialization
    /// vector that `rng` supplies.  The key for the cipher is derived
    /// before the vector is drawn.
    ///
    /// What comes back is what `encrypt_with_iv` gives for the vector
    /// drawn; on a failure no vector of the right length would have done.
    pub fn encrypt(
        self,
        rng: &mut rand::rngs::StdRng,
        passphrase: &str,
        alg: SymmetricKeyAlgorithm,
        s2k: StringToKey,
        version: KeyVersion,
        id: u8,
    ) -> (res: Result<EncryptedSecretParams, PgpError>)
        ensures
            match res {
                Ok(enc) => {
                    &&& enc@.iv.len() == alg.block_len()
                    &&& self@.encrypted(
                        enc@.iv,
                        passphrase.spec_bytes(),
                        alg,
                        s2k,
                        version,
                        id,
                    ) == Ok::<Seq<u8>, PgpError>(enc@.data)
                    &&& enc@.encryption_algorithm == alg
                    &&& enc@.string_to_key == s2k
                    &&& enc@.string_to_key_id == id
                },
                Err(e) => forall|iv: Seq<u8>|
                    iv.len() == alg.block_len() ==> #[trigger] self@.encrypted(
                        iv,
                        passphrase.spec_bytes(),
                        alg,
                        s2k,
                        version,
                        id,
                    ) == Err::<Seq<u8>, PgpError>(e),
            },
    {
        let key = match s2k.derive_key(passphrase, alg.key_size()) {
            Ok(key) => key,
            Err(e) => {
                return Err(e);
            },
        };
        let iv = random_bytes(rng, alg.block_size());
        self.seal(key, iv, alg, s2k, version, id)
    }

    /// Protects the parameters with a passphrase, under the initialization
    /// vector `iv`, which must be fresh and random and as long as the
    /// cipher's block.
    ///
    /// The ciphertext holds the raw bytes and their SHA-1 digest.  Nothing
    /// is encrypted unless all of it can be: every failure comes before
    /// the cipher runs.
    pub fn encrypt_with_iv(
        self,
        iv: Vec<u8>,
        passphrase: &str,
        alg: SymmetricKeyAlgorithm,
        s2k: StringToKey,
        version: KeyVersion,
        id: u8,
    ) -> (res: Result<EncryptedSecretParams, PgpError>)
        ensures
            match self@.encrypted(iv@, passphrase.spec_bytes(), alg, s2k, version, id) {
                Ok(data) => res matches Ok(enc) && enc@ == (EncryptedSecretParamsView {
                    data,
                    iv: iv@,
                    encryption_algorithm: alg,
                    string_to_key: s2k,
                    string_to_key_id: id,
                }),
                Err(e) => res matches Err(x) && x == e,
            },
    {
        let key = match s2k.derive_key(passphrase, alg.key_size()) {
            Ok(key) => key,
            Err(e) => {
                return Err(e);
            },
        };
        self.seal(key, iv, alg, s2k, version, id)
    }

    /// Encrypts the protected payload under a cipher key that is already
    /// derived.
    fn seal(
        self,
        key: Vec<u8>,
        iv: Vec<u8>,
        alg: SymmetricKeyAlgorithm,
        s2k: StringToKey,
        version: KeyVersion,
        id: u8,
    ) -> (res: Result<EncryptedSecretParams, PgpError>)
        requires
            key@.len() == alg.key_len(),
        ensures
            match self@.sealed(key@, iv@, alg, version, id) {
                Ok(data) => res matches Ok(enc) && enc@ == (EncryptedSecretParamsView {
                    data,
                    iv: iv@,
                    encryption_algorithm: alg,
                    string_to_key: s2k,
                    string_to_key_id: id,
                }),
                Err(e) => res matches Err(x) && x == e,
            },
    {
        let enc_data = match version {
            KeyVersion::V2 => {
                return Err(PgpError::Unsupported(Feature::KeyVersion(version)));
            },
            KeyVersion::V3 => {
                return Err(PgpError::Unimplemented(Feature::KeyVersion(version)));
            },
            KeyVersion::V4 => {
                let mut data: Vec<u8> = Vec::new();
                self.as_ref().to_writer_raw(&mut data);
                match id {
                    254 => {
                        let digest = self.checksum_sha1();
                        data.extend_from_slice(digest.as_slice());
                    },
                    _ => {
                        return Err(PgpError::Unimplemented(Feature::StringToKeyId(id)));
                    },
                }
                assert(data@ =~= self@.protected_payload());
                match alg.encrypt_with_iv_regular(key.as_slice(), iv.as_slice(), &mut data) {
                    Ok(()) => {},
                    Err(e) => {
                        return Err(e);
                    },
                }
                data
            },
            KeyVersion::V5 => {
                return Err(PgpError::Unimplemented(Feature::KeyVersion(version)));
            },
        };
        Ok(EncryptedSecretParams::new(enc_data, iv, alg, s2k, id))
    }

    /// The same parameters, borrowed.
    pub fn as_ref(&self) -> (out: PlainSecretParamsRef<'_>)
        ensures
            out@ == self@,
    {
        match self {
            PlainSecretParams::RSA { d, p, q, u } => PlainSecretParamsRef::RSA {
                d: d.as_slice(),
                p: p.as_slice(),
                q: q.as_slice(),
                u: u.as_slice(),
            },
            PlainSecretParams::DSA(v) => PlainSecretParamsRef::DSA(v.as_slice()),
            PlainSecretParams::ECDSA(v) => PlainSecretParamsRef::ECDSA(v.as_slice()),
            PlainSecretParams::ECDH(v) => PlainSecretParamsRef::ECDH(v.as_slice()),
            PlainSecretParams::Elgamal(v) => PlainSecretParamsRef::Elgamal(v.as_slice()),
            PlainSecretParams::EdDSA(v) => PlainSecretParamsRef::EdDSA(v.as_slice()),
        }
    }

    /// A name for the parameters that shows the algorithm and none of the
    /// secret bytes.
    pub fn describe(&self) -> (s: String)
        ensures
            s@ == match self@ {
                ParamsView::RSA { .. } => "PlainSecretParams(RSA)"@,
                ParamsView::DSA(_) => "PlainSecretParams(DSA)"@,
                ParamsView::Elgamal(_) => "PlainSecretParams(Elgamal)"@,
                ParamsView::ECDSA(_) => "PlainSecretParams(ECDSA)"@,
                ParamsView::ECDH(_) => "PlainSecretParams(ECDH)"@,
                ParamsView::EdDSA(_) => "PlainSecretParams(EdDSA)"@,
            },
    {
        self.as_ref().describe()
    }
}

impl Serialize for PlainSecretParams {
    open spec fn wire_bytes(&self) -> Seq<u8> {
        self@.framed_bytes()
    }

    fn to_writer<W: ByteSink>(&self, writer: &mut W) {
        self.as_ref().to_writer(writer)
    }
}

/// How many bytes of `input` a successful read of secret parameters takes.
pub open spec fn consumed(input: Seq<u8>, alg: PublicKeyAlgorithm) -> int
    recommends
        parse_secret_params(input, alg) is Ok,
{
    input.len() - parse_secret_params(input, alg)->Ok_0.0.len()
}

/// Five byte strings in a row are the first and then the four others in
/// a row.
proof fn lemma_concat_nested(a: Seq<u8>, b: Seq<u8>, c: Seq<u8>, d: Seq<u8>, e: Seq<u8>)
    ensures
        a + b + c + d + e == a + (b + (c + (d + e))),
{
    assert(a + b + c + d + e =~= a + (b + (c + (d + e))));
}

/// The four fields of an RSA key, each minimal, written one after the
/// other and read back, come out as they went in.
#[verifier::spinoff_prover]
proof fn lemma_rsa_roundtrip(d: Seq<u8>, p: Seq<u8>, q: Seq<u8>, u: Seq<u8>, tail: Seq<u8>)
    requires
        is_minimal(d),
        is_minimal(p),
        is_minimal(q),
        is_minimal(u),
    ensures
        parse_rsa_secret_params(
            mpi_encoding(d) + (mpi_encoding(p) + (mpi_encoding(q) + (mpi_encoding(u) + tail))),
        ) == Ok::<(Seq<u8>, ParamsView), PgpError>((tail, ParamsView::RSA { d, p, q, u })),
{
    let after_q = mpi_encoding(u) + tail;
    let after_p = mpi_encoding(q) + after_q;
    let after_d = mpi_encoding(p) + after_p;
    lemma_parse_mpi_of_encoding(d, after_d);
    lemma_parse_mpi_of_encoding(p, after_p);
    lemma_parse_mpi_of_encoding(q, after_q);
    lemma_parse_mpi_of_encoding(u, tail);
}

/// Round trip: parameters whose fields are minimal, written raw and read
/// back for their own algorithm, come out as they went in, field for
/// field; what followed them is what is left.
#[verifier::spinoff_prover]
pub proof fn lemma_parse_of_raw_bytes(params: ParamsView, alg: PublicKeyAlgorithm, tail: Seq<u8>)
    requires
        params.is_minimal(),
        params.belongs_to(alg),
    ensures
        parse_secret_params(params.raw_bytes() + tail, alg) == Ok::<
            (Seq<u8>, ParamsView),
            PgpError,
        >((tail, params)),
{
    match params {
        ParamsView::RSA { d, p, q, u } => {
            lemma_concat_nested(
                mpi_encoding(d),
                mpi_encoding(p),
                mpi_encoding(q),
                mpi_encoding(u),
                tail,
            );
            lemma_rsa_roundtrip(d, p, q, u, tail);
        },
        ParamsView::DSA(x) => {
            lemma_parse_mpi_of_encoding(x, tail);
        },
        ParamsView::ECDSA(x) => {
            lemma_parse_mpi_of_encoding(x, tail);
        },
        ParamsView::ECDH(x) => {
            lemma_parse_mpi_of_encoding(x, tail);
        },
        ParamsView::Elgamal(x) => {
            lemma_parse_mpi_of_encoding(x, tail);
        },
        ParamsView::EdDSA(x) => {
            lemma_parse_mpi_of_encoding(x, tail);
        },
    }
}

/// The four fields of an RSA key, written and read back, come out as they
/// went in only if each of them is minimal.
#[verifier::spinoff_prover]
proof fn lemma_rsa_needs_minimal(d: Seq<u8>, p: Seq<u8>, q: Seq<u8>, u: Seq<u8>, tail: Seq<u8>)
    requires
        !(is_minimal(d) && is_minimal(p) && is_minimal(q) && is_minimal(u)),
    ensures
        parse_rsa_secret_params(
            mpi_encoding(d) + (mpi_encoding(p) + (mpi_encoding(q) + (mpi_encoding(u) + tail))),
        ) != Ok::<(Seq<u8>, ParamsView), PgpError>((tail, ParamsView::RSA { d, p, q, u })),
{
    let after_q = mpi_encoding(u) + tail;
    let after_p = mpi_encoding(q) + after_q;
    let after_d = mpi_encoding(p) + after_p;
    let input = mpi_encoding(d) + after_d;
    let first = parse_mpi(input);
    if !is_minimal(d) {
        lemma_parse_mpi_is_not_field(d, after_d);
        assert(first matches Ok((_, read)) ==> read != d);
    } else {
        lemma_parse_mpi_of_encoding(d, after_d);
        assert(first == Ok::<(Seq<u8>, Seq<u8>), PgpError>((after_d, d)));
        let second = parse_mpi(after_d);
        if !is_minimal(p) {
            lemma_parse_mpi_is_not_field(p, after_p);
            assert(second matches Ok((_, read)) ==> read != p);
        } else {
            lemma_parse_mpi_of_encoding(p, after_p);
            assert(second == Ok::<(Seq<u8>, Seq<u8>), PgpError>((after_p, p)));
            let third = parse_mpi(after_p);
            if !is_minimal(q) {
                lemma_parse_mpi_is_not_field(q, after_q);
                assert(third matches Ok((_, read)) ==> read != q);
            } else {
                lemma_parse_mpi_of_encoding(q, after_q);
                assert(third == Ok::<(Seq<u8>, Seq<u8>), PgpError>((after_q, q)));
                lemma_parse_mpi_is_not_field(u, tail);
                assert(parse_mpi(after_q) matches Ok((_, read)) ==> read != u);
            }
        }
    }
}

/// The round trip fails as soon as one field is not minimal: such
/// parameters never read back as themselves.
#[verifier::spinoff_prover]
pub proof fn lemma_parse_of_raw_bytes_needs_minimal(
    params: ParamsView,
    alg: PublicKeyAlgorithm,
    tail: Seq<u8>,
)
    requires
        !params.is_minimal(),
        params.belongs_to(alg),
    ensures
        parse_secret_params(params.raw_bytes() + tail, alg) != Ok::<
            (Seq<u8>, ParamsView),
            PgpError,
        >((tail, params)),
{
    match params {
        ParamsView::RSA { d, p, q, u } => {
            lemma_concat_nested(
                mpi_encoding(d),
                mpi_encoding(p),
                mpi_encoding(q),
                mpi_encoding(u),
                tail,
            );
            lemma_rsa_needs_minimal(d, p, q, u, tail);
        },
        ParamsView::DSA(x) => {
            lemma_parse_mpi_is_not_field(x, tail);
        },
        ParamsView::ECDSA(x) => {
            lemma_parse_mpi_is_not_field(x, tail);
        },
        ParamsView::ECDH(x) => {
            lemma_parse_mpi_is_not_field(x, tail);
        },
        ParamsView::Elgamal(x) => {
            lemma_parse_mpi_is_not_field(x, tail);
        },
        ParamsView::EdDSA(x) => {
            lemma_parse_mpi_is_not_field(x, tail);
        },
    }
}

/// Framed round trip: the framed form is the byte zero, the raw bytes and
/// two more bytes, and those two are the additive checksum of exactly the
/// bytes between the first and them.
pub proof fn lemma_framed_checksum(params: ParamsView)
    ensures
        ({
            let framed = params.framed_bytes();
            let end = framed.len() as int;
            &&& end == params.raw_bytes().len() + 3
            &&& framed[0] == 0
            &&& framed.subrange(1, end - 2) == params.raw_bytes()
            &&& framed.subrange(end - 2, end) == be16(
                additive_checksum(framed.subrange(1, end - 2)),
            )
        }),
{
    let framed = params.framed_bytes();
    let end = framed.len() as int;
    assert(framed.subrange(1, end - 2) =~= params.raw_bytes());
    assert(framed.subrange(end - 2, end) =~= be16(additive_checksum(params.raw_bytes())));
}

/// Both checksums depend on the raw bytes alone: parameters with the same
/// raw bytes have the same checksums.
pub proof fn lemma_checksums_of_raw_bytes(a: ParamsView, b: ParamsView)
    requires
        a.raw_bytes() == b.raw_bytes(),
    ensures
        a.simple_checksum() == b.simple_checksum(),
        a.sha1_checksum() == b.sha1_checksum(),
{
}

/// What is read for an algorithm are the parameters of a key of that
/// algorithm.
pub proof fn lemma_parsed_belongs_to(input: Seq<u8>, alg: PublicKeyAlgorithm)
    requires
        parse_secret_params(input, alg) is Ok,
    ensures
        parse_secret_params(input, alg)->Ok_0.1.belongs_to(alg),
{
}

/// For an algorithm that has secret parameters here, reading them fails
/// only because the input ends too early.
pub proof fn lemma_parse_fails_only_incomplete(input: Seq<u8>, alg: PublicKeyAlgorithm)
    requires
        parse_secret_params(input, alg) is Err,
        exists|params: ParamsView| params.belongs_to(alg),
    ensures
        parse_secret_params(input, alg)->Err_0 is Incomplete,
{
    let params = choose|params: ParamsView| params.belongs_to(alg);
    assert(params.belongs_to(alg));
}

/// Truncation: where parameters were read from an input, every beginning
/// of that input which ends inside them is reported as incomplete, however
/// many bytes are missing.
#[verifier::spinoff_prover]
pub proof fn lemma_truncated_is_incomplete(input: Seq<u8>, alg: PublicKeyAlgorithm, keep: int)
    requires
        parse_secret_params(input, alg) is Ok,
        0 <= keep < consumed(input, alg),
    ensures
        parse_secret_params(input.take(keep), alg) is Err,
        parse_secret_params(input.take(keep), alg)->Err_0 is Incomplete,
{
    let short = input.take(keep);
    match alg {
        PublicKeyAlgorithm::RSA | PublicKeyAlgorithm::RSAEncrypt | PublicKeyAlgorithm::RSASign => {
            let (after_d, d) = parse_mpi(input)->Ok_0;
            let (after_p, p) = parse_mpi(after_d)->Ok_0;
            let (after_q, q) = parse_mpi(after_p)->Ok_0;
            let (rest, u) = parse_mpi(after_q)->Ok_0;
            let at_p = input.len() - after_d.len();
            let at_q = input.len() - after_p.len();
            let at_u = input.len() - after_q.len();
            if keep < at_p {
                lemma_parse_mpi_truncated(input, keep);
            } else {
                lemma_parse_mpi_prefix(input, keep);
                assert(short.skip(at_p) =~= after_d.take(keep - at_p));
                if keep < at_q {
                    lemma_parse_mpi_truncated(after_d, keep - at_p);
                } else {
                    lemma_parse_mpi_prefix(after_d, keep - at_p);
                    assert(after_d.take(keep - at_p).skip(at_q - at_p) =~= after_p.take(
                        keep - at_q,
                    ));
                    if keep < at_u {
                        lemma_parse_mpi_truncated(after_p, keep - at_q);
                    } else {
                        lemma_parse_mpi_prefix(after_p, keep - at_q);
                        assert(after_p.take(keep - at_q).skip(at_u - at_q) =~= after_q.take(
                            keep - at_u,
                        ));
                        lemma_parse_mpi_truncated(after_q, keep - at_u);
                    }
                }
            }
        },
        _ => {
            lemma_parse_mpi_truncated(input, keep);
        },
    }
}

} // verus!
