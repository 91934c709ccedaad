use vstd::prelude::*;

verus! {

/// The RSA crate's private key: carried, never looked into.
#[verifier::external_type_specification]
#[verifier::external_body]
pub struct ExRsaPrivateKey(rsa::RsaPrivateKey);

/// The RSA crate's error: carried, never looked into.
#[verifier::external_type_specification]
#[verifier::external_body]
pub struct ExRsaError(rsa::errors::Error);

/// The number that a byte string stands for, most significant byte first.
pub open spec fn be_value(bytes: Seq<u8>) -> nat
    decreases bytes.len(),
{
    if bytes.len() == 0 {
        0
    } else {
        256 * be_value(bytes.drop_last()) + bytes.last() as nat
    }
}

/// What `rsa::RsaPrivateKey::from_components` returns for the modulus `n`,
/// the exponents `e` and `d` and the primes `p` and `q`, each given as
/// big-endian bytes.
pub uninterp spec fn rsa_key_from_components(
    n: Seq<u8>,
    e: Seq<u8>,
    d: Seq<u8>,
    p: Seq<u8>,
    q: Seq<u8>,
) -> Result<rsa::RsaPrivateKey, rsa::errors::Error>;

/// The part of the RSA crate's validation that this crate relies on: both
/// primes exceed one, their product is the modulus, and `d` inverts `e`
/// modulo each prime less one.
pub open spec fn rsa_consistent(n: nat, e: nat, d: nat, p: nat, q: nat) -> bool {
    &&& p > 1
    &&& q > 1
    &&& p * q == n
    &&& (d * e) % ((p - 1) as nat) == 1
    &&& (d * e) % ((q - 1) as nat) == 1
}

/// Calls `rsa::RsaPrivateKey::from_components` on the numbers that
/// `num_bigint_dig::BigUint::from_bytes_be` reads from the five byte
/// strings, with `p` and `q` as the list of primes.
///
/// Trusted: the result is a function of the five byte strings, and the
/// constructor validates what it builds, so a key comes back only for
/// numbers that are consistent.
#[verifier::external_body]
pub(crate) fn private_key_from_components(
    n: &[u8],
    e: &[u8],
    d: &[u8],
    p: &[u8],
    q: &[u8],
) -> (res: Result<rsa::RsaPrivateKey, rsa::errors::Error>)
    ensures
        res == rsa_key_from_components(n@, e@, d@, p@, q@),
        res is Ok ==> rsa_consistent(
            be_value(n@),
            be_value(e@),
            be_value(d@),
            be_value(p@),
            be_value(q@),
        ),
{
    rsa::RsaPrivateKey::from_components(
        num_bigint_dig::BigUint::from_bytes_be(n),
        num_bigint_dig::BigUint::from_bytes_be(e),
        num_bigint_dig::BigUint::from_bytes_be(d),
        vec![
            num_bigint_dig::BigUint::from_bytes_be(p),
            num_bigint_dig::BigUint::from_bytes_be(q),
        ],
    )
}

} // verus!
