use vstd::prelude::*;

use crate::errors::{Feature, PgpError};
use cfb_mode::cipher::{AsyncStreamCipher, KeyIvInit};

verus! {

/// The symmetric ciphers of the format.
#[derive(Debug, Clone, Copy, PartialEq, Eq, Structural)]
pub enum SymmetricKeyAlgorithm {
    /// No encryption at all.
    Plaintext,
    IDEA,
    /// Triple DES with three keys, encrypt-decrypt-encrypt.
    TripleDES,
    /// CAST5 with a 128-bit key.
    CAST5,
    /// Blowfish with a 128-bit key.
    Blowfish,
    AES128,
    AES192,
    AES256,
    /// Twofish with a 256-bit key.
    Twofish,
    Camellia128,
    Camellia192,
    Camellia256,
    Private10,
}

/// What `cfb_mode::Encryptor::<des::TdesEde3>` makes of `data` under this
/// key and initialization vector.
pub uninterp spec fn tdes_cfb(key: Seq<u8>, iv: Seq<u8>, data: Seq<u8>) -> Seq<u8>;

/// What `cfb_mode::Encryptor::<cast5::Cast5>` makes of `data` under this
/// key and initialization vector.
pub uninterp spec fn cast5_cfb(key: Seq<u8>, iv: Seq<u8>, data: Seq<u8>) -> Seq<u8>;

/// What `cfb_mode::Encryptor::<blowfish::Blowfish>` makes of `data` under
/// this key and initialization vector.
pub uninterp spec fn blowfish_cfb(key: Seq<u8>, iv: Seq<u8>, data: Seq<u8>) -> Seq<u8>;

/// What `cfb_mode::Encryptor::<aes::Aes128>` makes of `data` under this key
/// and initialization vector.
pub uninterp spec fn aes128_cfb(key: Seq<u8>, iv: Seq<u8>, data: Seq<u8>) -> Seq<u8>;

/// What `cfb_mode::Encryptor::<aes::Aes192>` makes of `data` under this key
/// and initialization vector.
pub uninterp spec fn aes192_cfb(key: Seq<u8>, iv: Seq<u8>, data: Seq<u8>) -> Seq<u8>;

/// What `cfb_mode::Encryptor::<aes::Aes256>` makes of `data` under this key
/// and initialization vector.
pub uninterp spec fn aes256_cfb(key: Seq<u8>, iv: Seq<u8>, data: Seq<u8>) -> Seq<u8>;

/// What `cfb_mode::Encryptor::<twofish::Twofish>` makes of `data` under this
/// key and initialization vector.
pub uninterp spec fn twofish_cfb(key: Seq<u8>, iv: Seq<u8>, data: Seq<u8>) -> Seq<u8>;

/// Builds `cfb_mode::Encryptor::<des::TdesEde3>` with `new_from_slices` and
/// calls its `encrypt` on `data`.  Trusted: for a key of 24 bytes and a
/// vector of 8 the encryptor exists, and what it leaves in `data` depends
/// on the three byte strings alone.
#[verifier::external_body]
fn tdes_cfb_encrypt(key: &[u8], iv: &[u8], data: &mut Vec<u8>)
    requires
        key@.len() == 24,
        iv@.len() == 8,
    ensures
        final(data)@ == tdes_cfb(key@, iv@, old(data)@),
{
    if let Ok(mode) = cfb_mode::Encryptor::<des::TdesEde3>::new_from_slices(key, iv) {
        mode.encrypt(data.as_mut_slice());
    }
}

/// Builds `cfb_mode::Encryptor::<cast5::Cast5>` with `new_from_slices` and
/// calls its `encrypt` on `data`.  Trusted: for a key of 16 bytes and a
/// vector of 8 the encryptor exists, and what it leaves in `data` depends
/// on the three byte strings alone.
#[verifier::external_body]
fn cast5_cfb_encrypt(key: &[u8], iv: &[u8], data: &mut Vec<u8>)
    requires
        key@.len() == 16,
        iv@.len() == 8,
    ensures
        final(data)@ == cast5_cfb(key@, iv@, old(data)@),
{
    if let Ok(mode) = cfb_mode::Encryptor::<cast5::Cast5>::new_from_slices(key, iv) {
        mode.encrypt(data.as_mut_slice());
    }
}

/// Builds `cfb_mode::Encryptor::<blowfish::Blowfish>` with
/// `new_from_slices` and calls its `encrypt` on `data`.  Trusted: for a key
/// of 16 bytes and a vector of 8 the encryptor exists, and what it leaves in
/// `data` depends on the three byte strings alone.
#[verifier::external_body]
fn blowfish_cfb_encrypt(key: &[u8], iv: &[u8], data: &mut Vec<u8>)
    requires
        key@.len() == 16,
        iv@.len() == 8,
    ensures
        final(data)@ == blowfish_cfb(key@, iv@, old(data)@),
{
    if let Ok(mode) = cfb_mode::Encryptor::<blowfish::Blowfish>::new_from_slices(key, iv) {
        mode.encrypt(data.as_mut_slice());
    }
}

/// Builds `cfb_mode::Encryptor::<aes::Aes128>` with `new_from_slices` and
/// calls its `encrypt` on `data`.  Trusted: for a key of 16 bytes and a
/// vector of 16 the encryptor exists, and what it leaves in `data` depends
/// on the three byte strings alone.
#[verifier::external_body]
fn aes128_cfb_encrypt(key: &[u8], iv: &[u8], data: &mut Vec<u8>)
    requires
        key@.len() == 16,
        iv@.len() == 16,
    ensures
        final(data)@ == aes128_cfb(key@, iv@, old(data)@),
{
    if let Ok(mode) = cfb_mode::Encryptor::<aes::Aes128>::new_from_slices(key, iv) {
        mode.encrypt(data.as_mut_slice());
    }
}

/// Builds `cfb_mode::Encryptor::<aes::Aes192>` with `new_from_slices` and
/// calls its `encrypt` on `data`.  Trusted: for a key of 24 bytes and a
/// vector of 16 the encryptor exists, and what it leaves in `data` depends
/// on the three byte strings alone.
#[verifier::external_body]
fn aes192_cfb_encrypt(key: &[u8], iv: &[u8], data: &mut Vec<u8>)
    requires
        key@.len() == 24,
        iv@.len() == 16,
    ensures
        final(data)@ == aes192_cfb(key@, iv@, old(data)@),
{
    if let Ok(mode) = cfb_mode::Encryptor::<aes::Aes192>::new_from_slices(key, iv) {
        mode.encrypt(data.as_mut_slice());
    }
}

/// Builds `cfb_mode::Encryptor::<aes::Aes256>` with `new_from_slices` and
/// calls its `encrypt` on `data`.  Trusted: for a key of 32 bytes and a
/// vector of 16 the encryptor exists, and what it leaves in `data` depends
/// on the three byte strings alone.
#[verifier::external_body]
fn aes256_cfb_encrypt(key: &[u8], iv: &[u8], data: &mut Vec<u8>)
    requires
        key@.len() == 32,
        iv@.len() == 16,
    ensures
        final(data)@ == aes256_cfb(key@, iv@, old(data)@),
{
    if let Ok(mode) = cfb_mode::Encryptor::<aes::Aes256>::new_from_slices(key, iv) {
        mode.encrypt(data.as_mut_slice());
    }
}

/// Builds `cfb_mode::Encryptor::<twofish::Twofish>` with `new_from_slices`
/// and calls its `encrypt` on `data`.  Trusted: for a key of 32 bytes and a
/// vector of 16 the encryptor exists, and what it leaves in `data` depends
/// on the three byte strings alone.
#[verifier::external_body]
fn twofish_cfb_encrypt(key: &[u8], iv: &[u8], data: &mut Vec<u8>)
    requires
        key@.len() == 32,
        iv@.len() == 16,
    ensures
        final(data)@ == twofish_cfb(key@, iv@, old(data)@),
{
    if let Ok(mode) = cfb_mode::Encryptor::<twofish::Twofish>::new_from_slices(key, iv) {
        mode.encrypt(data.as_mut_slice());
    }
}

impl SymmetricKeyAlgorithm {
    /// The length of the cipher's key in bytes.
    pub open spec fn key_len(self) -> nat {
        match self {
            SymmetricKeyAlgorithm::Plaintext => 0,
            SymmetricKeyAlgorithm::IDEA => 16,
            SymmetricKeyAlgorithm::TripleDES => 24,
            SymmetricKeyAlgorithm::CAST5 => 16,
            SymmetricKeyAlgorithm::Blowfish => 16,
            SymmetricKeyAlgorithm::AES128 => 16,
            SymmetricKeyAlgorithm::AES192 => 24,
            SymmetricKeyAlgorithm::AES256 => 32,
            SymmetricKeyAlgorithm::Twofish => 32,
            SymmetricKeyAlgorithm::Camellia128 => 16,
            SymmetricKeyAlgorithm::Camellia192 => 24,
            SymmetricKeyAlgorithm::Camellia256 => 32,
            SymmetricKeyAlgorithm::Private10 => 0,
        }
    }

    /// The length of the cipher's block in bytes, which is also the length
    /// of its initialization vector.
    pub open spec fn block_len(self) -> nat {
        match self {
            SymmetricKeyAlgorithm::Plaintext => 0,
            SymmetricKeyAlgorithm::IDEA => 8,
            SymmetricKeyAlgorithm::TripleDES => 8,
            SymmetricKeyAlgorithm::CAST5 => 8,
            SymmetricKeyAlgorithm::Blowfish => 8,
            SymmetricKeyAlgorithm::AES128 => 16,
            SymmetricKeyAlgorithm::AES192 => 16,
            SymmetricKeyAlgorithm::AES256 => 16,
            SymmetricKeyAlgorithm::Twofish => 16,
            SymmetricKeyAlgorithm::Camellia128 => 16,
            SymmetricKeyAlgorithm::Camellia192 => 16,
            SymmetricKeyAlgorithm::Camellia256 => 16,
            SymmetricKeyAlgorithm::Private10 => 0,
        }
    }

    /// Whether this crate can encrypt with the cipher.
    pub open spec fn has_cipher(self) -> bool {
        match self {
            SymmetricKeyAlgorithm::TripleDES
            | SymmetricKeyAlgorithm::CAST5
            | SymmetricKeyAlgorithm::Blowfish
            | SymmetricKeyAlgorithm::AES128
            | SymmetricKeyAlgorithm::AES192
            | SymmetricKeyAlgorithm::AES256
            | SymmetricKeyAlgorithm::Twofish => true,
            _ => false,
        }
    }

    /// The cipher's output in cipher feedback mode, for a cipher that
    /// `has_cipher` admits.
    pub open spec fn cfb(self, key: Seq<u8>, iv: Seq<u8>, data: Seq<u8>) -> Seq<u8>
        recommends
            self.has_cipher(),
    {
        match self {
            SymmetricKeyAlgorithm::TripleDES => tdes_cfb(key, iv, data),
            SymmetricKeyAlgorithm::CAST5 => cast5_cfb(key, iv, data),
            SymmetricKeyAlgorithm::Blowfish => blowfish_cfb(key, iv, data),
            SymmetricKeyAlgorithm::AES128 => aes128_cfb(key, iv, data),
            SymmetricKeyAlgorithm::AES192 => aes192_cfb(key, iv, data),
            SymmetricKeyAlgorithm::AES256 => aes256_cfb(key, iv, data),
            SymmetricKeyAlgorithm::Twofish => twofish_cfb(key, iv, data),
            _ => data,
        }
    }

    /// What encrypting `data` gives under a key that has the cipher's key
    /// length: the ciphertext, or why there is none.  `Plaintext` leaves
    /// the data as it is; a cipher that this crate lacks is refused before
    /// the vector's length is looked at.
    pub open spec fn encrypted_with_fitting_key(
        self,
        key: Seq<u8>,
        iv: Seq<u8>,
        data: Seq<u8>,
    ) -> Result<Seq<u8>, PgpError> {
        if self == SymmetricKeyAlgorithm::Plaintext {
            Ok(data)
        } else if !self.has_cipher() {
            Err(PgpError::Unimplemented(Feature::Cipher(self)))
        } else if iv.len() != self.block_len() {
            Err(PgpError::InvalidKeyIvLength)
        } else {
            Ok(self.cfb(key, iv, data))
        }
    }

    /// What encrypting `data` in place gives under any key: as under a
    /// fitting key, but that a cipher of this crate refuses a key of
    /// another length than its own.
    pub open spec fn encrypted(self, key: Seq<u8>, iv: Seq<u8>, data: Seq<u8>) -> Result<
        Seq<u8>,
        PgpError,
    > {
        if self.has_cipher() && key.len() != self.key_len() {
            Err(PgpError::InvalidKeyIvLength)
        } else {
            self.encrypted_with_fitting_key(key, iv, data)
        }
    }

    pub fn key_size(self) -> (n: usize)
        ensures
            n == self.key_len(),
    {
        match self {
            SymmetricKeyAlgorithm::Plaintext => 0,
            SymmetricKeyAlgorithm::IDEA => 16,
            SymmetricKeyAlgorithm::TripleDES => 24,
            SymmetricKeyAlgorithm::CAST5 => 16,
            SymmetricKeyAlgorithm::Blowfish => 16,
            SymmetricKeyAlgorithm::AES128 => 16,
            SymmetricKeyAlgorithm::AES192 => 24,
            SymmetricKeyAlgorithm::AES256 => 32,
            SymmetricKeyAlgorithm::Twofish => 32,
            SymmetricKeyAlgorithm::Camellia128 => 16,
            SymmetricKeyAlgorithm::Camellia192 => 24,
            SymmetricKeyAlgorithm::Camellia256 => 32,
            SymmetricKeyAlgorithm::Private10 => 0,
        }
    }

    pub fn block_size(self) -> (n: usize)
        ensures
            n == self.block_len(),
    {
        match self {
            SymmetricKeyAlgorithm::Plaintext => 0,
            SymmetricKeyAlgorithm::IDEA => 8,
            SymmetricKeyAlgorithm::TripleDES => 8,
            SymmetricKeyAlgorithm::CAST5 => 8,
            SymmetricKeyAlgorithm::Blowfish => 8,
            SymmetricKeyAlgorithm::AES128 => 16,
            SymmetricKeyAlgorithm::AES192 => 16,
            SymmetricKeyAlgorithm::AES256 => 16,
            SymmetricKeyAlgorithm::Twofish => 16,
            SymmetricKeyAlgorithm::Camellia128 => 16,
            SymmetricKeyAlgorithm::Camellia192 => 16,
            SymmetricKeyAlgorithm::Camellia256 => 16,
            SymmetricKeyAlgorithm::Private10 => 0,
        }
    }

    /// Encrypts `plaintext` in place, in cipher feedback mode with the
    /// initialization vector `iv`.  On an error the data is left as it was.
    pub fn encrypt_with_iv_regular(self, key: &[u8], iv: &[u8], plaintext: &mut Vec<u8>) -> (res:
        Result<(), PgpError>)
        ensures
            match self.encrypted(key@, iv@, old(plaintext)@) {
                Ok(out) => res is Ok && final(plaintext)@ == out,
                Err(e) => res == Err::<(), PgpError>(e) && final(plaintext)@ == old(plaintext)@,
            },
    {
        match self {
            SymmetricKeyAlgorithm::Plaintext => Ok(()),
            SymmetricKeyAlgorithm::IDEA
            | SymmetricKeyAlgorithm::Camellia128
            | SymmetricKeyAlgorithm::Camellia192
            | SymmetricKeyAlgorithm::Camellia256
            | SymmetricKeyAlgorithm::Private10 => Err(
                PgpError::Unimplemented(Feature::Cipher(self)),
            ),
            _ => {
                if key.len() != self.key_size() || iv.len() != self.block_size() {
                    return Err(PgpError::InvalidKeyIvLength);
                }
                match self {
                    SymmetricKeyAlgorithm::TripleDES => tdes_cfb_encrypt(key, iv, plaintext),
                    SymmetricKeyAlgorithm::CAST5 => cast5_cfb_encrypt(key, iv, plaintext),
                    SymmetricKeyAlgorithm::Blowfish => blowfish_cfb_encrypt(key, iv, plaintext),
                    SymmetricKeyAlgorithm::AES128 => aes128_cfb_encrypt(key, iv, plaintext),
                    SymmetricKeyAlgorithm::AES192 => aes192_cfb_encrypt(key, iv, plaintext),
                    SymmetricKeyAlgorithm::AES256 => aes256_cfb_encrypt(key, iv, plaintext),
                    _ => twofish_cfb_encrypt(key, iv, plaintext),
                }
                Ok(())
            },
        }
    }
}

} // verus!
