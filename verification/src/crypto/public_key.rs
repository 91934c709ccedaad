use vstd::prelude::*;

verus! {

/// The public-key algorithms of the format, each with its one-byte code.
#[derive(Debug, Clone, Copy, PartialEq, Eq, Structural)]
pub enum PublicKeyAlgorithm {
    /// RSA, to encrypt and to sign.
    RSA,
    /// RSA, to encrypt only (deprecated).
    RSAEncrypt,
    /// RSA, to sign only (deprecated).
    RSASign,
    /// Elgamal, to sign only.
    ElgamalSign,
    /// The Digital Signature Algorithm.
    DSA,
    /// Elliptic-curve Diffie-Hellman.
    ECDH,
    /// Elliptic-curve DSA.
    ECDSA,
    /// Elgamal, to encrypt and to sign (deprecated).
    Elgamal,
    /// Reserved for Diffie-Hellman.
    DiffieHellman,
    /// Edwards-curve DSA.
    EdDSA,
    Private100,
    Private101,
    Private102,
    Private103,
    Private104,
    Private105,
    Private106,
    Private107,
    Private108,
    Private109,
    Private110,
}

impl PublicKeyAlgorithm {
    /// The byte that stands for the algorithm on the wire.
    pub open spec fn code(self) -> u8 {
        match self {
            PublicKeyAlgorithm::RSA => 1,
            PublicKeyAlgorithm::RSAEncrypt => 2,
            PublicKeyAlgorithm::RSASign => 3,
            PublicKeyAlgorithm::ElgamalSign => 16,
            PublicKeyAlgorithm::DSA => 17,
            PublicKeyAlgorithm::ECDH => 18,
            PublicKeyAlgorithm::ECDSA => 19,
            PublicKeyAlgorithm::Elgamal => 20,
            PublicKeyAlgorithm::DiffieHellman => 21,
            PublicKeyAlgorithm::EdDSA => 22,
            PublicKeyAlgorithm::Private100 => 100,
            PublicKeyAlgorithm::Private101 => 101,
            PublicKeyAlgorithm::Private102 => 102,
            PublicKeyAlgorithm::Private103 => 103,
            PublicKeyAlgorithm::Private104 => 104,
            PublicKeyAlgorithm::Private105 => 105,
            PublicKeyAlgorithm::Private106 => 106,
            PublicKeyAlgorithm::Private107 => 107,
            PublicKeyAlgorithm::Private108 => 108,
            PublicKeyAlgorithm::Private109 => 109,
            PublicKeyAlgorithm::Private110 => 110,
        }
    }

    /// The algorithm that a byte stands for, if any: the inverse of `code`.
    pub open spec fn from_code(b: u8) -> Option<PublicKeyAlgorithm> {
        if exists|a: PublicKeyAlgorithm| a.code() == b {
            Some(choose|a: PublicKeyAlgorithm| a.code() == b)
        } else {
            None
        }
    }

    /// `code` gives no byte to two algorithms, so `from_code` undoes it.
    pub proof fn lemma_code_roundtrip(a: PublicKeyAlgorithm)
        ensures
            Self::from_code(a.code()) == Some(a),
    {
        let c = choose|x: PublicKeyAlgorithm| x.code() == a.code();
        assert(c.code() == a.code());
    }

    /// Whatever `from_code` finds for a byte has that byte as its code.
    pub proof fn lemma_from_code_sound(b: u8)
        ensures
            Self::from_code(b) matches Some(a) ==> a.code() == b,
    {
    }

    pub fn to_u8(self) -> (b: u8)
        ensures
            b == self.code(),
    {
        match self {
            PublicKeyAlgorithm::RSA => 1,
            PublicKeyAlgorithm::RSAEncrypt => 2,
            PublicKeyAlgorithm::RSASign => 3,
            PublicKeyAlgorithm::ElgamalSign => 16,
            PublicKeyAlgorithm::DSA => 17,
            PublicKeyAlgorithm::ECDH => 18,
            PublicKeyAlgorithm::ECDSA => 19,
            PublicKeyAlgorithm::Elgamal => 20,
            PublicKeyAlgorithm::DiffieHellman => 21,
            PublicKeyAlgorithm::EdDSA => 22,
            PublicKeyAlgorithm::Private100 => 100,
            PublicKeyAlgorithm::Private101 => 101,
            PublicKeyAlgorithm::Private102 => 102,
            PublicKeyAlgorithm::Private103 => 103,
            PublicKeyAlgorithm::Private104 => 104,
            PublicKeyAlgorithm::Private105 => 105,
            PublicKeyAlgorithm::Private106 => 106,
            PublicKeyAlgorithm::Private107 => 107,
            PublicKeyAlgorithm::Private108 => 108,
            PublicKeyAlgorithm::Private109 => 109,
            PublicKeyAlgorithm::Private110 => 110,
        }
    }

    pub fn from_u8(b: u8) -> (res: Option<PublicKeyAlgorithm>)
        ensures
            res == Self::from_code(b),
    {
        let res = match b {
            1 => Some(PublicKeyAlgorithm::RSA),
            2 => Some(PublicKeyAlgorithm::RSAEncrypt),
            3 => Some(PublicKeyAlgorithm::RSASign),
            16 => Some(PublicKeyAlgorithm::ElgamalSign),
            17 => Some(PublicKeyAlgorithm::DSA),
            18 => Some(PublicKeyAlgorithm::ECDH),
            19 => Some(PublicKeyAlgorithm::ECDSA),
            20 => Some(PublicKeyAlgorithm::Elgamal),
            21 => Some(PublicKeyAlgorithm::DiffieHellman),
            22 => Some(PublicKeyAlgorithm::EdDSA),
            100 => Some(PublicKeyAlgorithm::Private100),
            101 => Some(PublicKeyAlgorithm::Private101),
            102 => Some(PublicKeyAlgorithm::Private102),
            103 => Some(PublicKeyAlgorithm::Private103),
            104 => Some(PublicKeyAlgorithm::Private104),
            105 => Some(PublicKeyAlgorithm::Private105),
            106 => Some(PublicKeyAlgorithm::Private106),
            107 => Some(PublicKeyAlgorithm::Private107),
            108 => Some(PublicKeyAlgorithm::Private108),
            109 => Some(PublicKeyAlgorithm::Private109),
            110 => Some(PublicKeyAlgorithm::Private110),
            _ => None,
        };
        proof {
            match res {
                Some(a) => {
                    Self::lemma_code_roundtrip(a);
                },
                None => {
                    assert(forall|a: PublicKeyAlgorithm| a.code() != b);
                },
            }
        }
        res
    }
}

} // verus!
