use vstd::prelude::*;

use crate::crypto::sym::SymmetricKeyAlgorithm;
use crate::types::s2k::StringToKey;

verus! {

/// Secret parameters under a passphrase: the ciphertext, and what it takes
/// besides the passphrase to open it.
#[derive(Debug, Clone, PartialEq, Eq)]
pub struct EncryptedSecretParams {
    data: Vec<u8>,
    iv: Vec<u8>,
    encryption_algorithm: SymmetricKeyAlgorithm,
    string_to_key: StringToKey,
    string_to_key_id: u8,
}

/// What an [`EncryptedSecretParams`] holds, as plain values.
pub struct EncryptedSecretParamsView {
    pub data: Seq<u8>,
    pub iv: Seq<u8>,
    pub encryption_algorithm: SymmetricKeyAlgorithm,
    pub string_to_key: StringToKey,
    pub string_to_key_id: u8,
}

impl View for EncryptedSecretParams {
    type V = EncryptedSecretParamsView;

    closed spec fn view(&self) -> EncryptedSecretParamsView {
        EncryptedSecretParamsView {
            data: self.data@,
            iv: self.iv@,
            encryption_algorithm: self.encryption_algorithm,
            string_to_key: self.string_to_key,
            string_to_key_id: self.string_to_key_id,
        }
    }
}

impl EncryptedSecretParams {
    pub fn new(
        data: Vec<u8>,
        iv: Vec<u8>,
        alg: SymmetricKeyAlgorithm,
        s2k: StringToKey,
        id: u8,
    ) -> (out: EncryptedSecretParams)
        ensures
            out@ == (EncryptedSecretParamsView {
                data: data@,
                iv: iv@,
                encryption_algorithm: alg,
                string_to_key: s2k,
                string_to_key_id: id,
            }),
    {
        EncryptedSecretParams {
            data,
            iv,
            encryption_algorithm: alg,
            string_to_key: s2k,
            string_to_key_id: id,
        }
    }

    /// The ciphertext.
    pub fn data(&self) -> (out: &[u8])
        ensures
            out@ == self@.data,
    {
        self.data.as_slice()
    }

    /// The initialization vector.
    pub fn iv(&self) -> (out: &[u8])
        ensures
            out@ == self@.iv,
    {
        self.iv.as_slice()
    }

    pub fn encryption_algorithm(&self) -> (alg: SymmetricKeyAlgorithm)
        ensures
            alg == self@.encryption_algorithm,
    {
        self.encryption_algorithm
    }

    /// How the cipher's key comes from the passphrase.
    pub fn string_to_key(&self) -> (s2k: &StringToKey)
        ensures
            *s2k == self@.string_to_key,
    {
        &self.string_to_key
    }

    /// The selector of how the parameters are authenticated.
    pub fn string_to_key_id(&self) -> (id: u8)
        ensures
            id == self@.string_to_key_id,
    {
        self.string_to_key_id
    }
}

} // verus!
