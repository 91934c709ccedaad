use vstd::prelude::*;

verus! {

/// What a signature is made over, each kind with its one-byte code.
#[derive(Debug, Clone, Copy, PartialEq, Eq, Structural)]
pub enum SignatureType {
    /// A binary document.
    Binary,
    /// A canonical text document.
    Text,
    /// Only the signature's own subpackets.
    Standalone,
    /// A user id and key, with no claim about how well the owner was checked.
    CertGeneric,
    /// A user id and key, the owner not checked.
    CertPersona,
    /// A user id and key, the owner checked casually.
    CertCasual,
    /// A user id and key, the owner checked substantially.
    CertPositive,
    /// A subkey, bound by its primary key.
    SubkeyBinding,
    /// A primary key, bound by its signing subkey.
    KeyBinding,
    /// A key, directly.
    Key,
    /// The revocation of a key.
    KeyRevocation,
    /// The revocation of a subkey.
    SubkeyRevocation,
    /// The revocation of a certification.
    CertRevocation,
    /// A timestamp.
    Timestamp,
    /// A confirmation of another signature.
    ThirdParty,
}

impl SignatureType {
    /// The byte that stands for the signature type on the wire.
    pub open spec fn code(self) -> u8 {
        match self {
            SignatureType::Binary => 0x00,
            SignatureType::Text => 0x01,
            SignatureType::Standalone => 0x02,
            SignatureType::CertGeneric => 0x10,
            SignatureType::CertPersona => 0x11,
            SignatureType::CertCasual => 0x12,
            SignatureType::CertPositive => 0x13,
            SignatureType::SubkeyBinding => 0x18,
            SignatureType::KeyBinding => 0x19,
            SignatureType::Key => 0x1F,
            SignatureType::KeyRevocation => 0x20,
            SignatureType::SubkeyRevocation => 0x28,
            SignatureType::CertRevocation => 0x30,
            SignatureType::Timestamp => 0x40,
            SignatureType::ThirdParty => 0x50,
        }
    }

    /// The signature type that a byte stands for, if any: the inverse of `code`.
    pub open spec fn from_code(b: u8) -> Option<SignatureType> {
        if exists|t: SignatureType| t.code() == b {
            Some(choose|t: SignatureType| t.code() == b)
        } else {
            None
        }
    }

    /// `code` gives no byte to two signature types, so `from_code` undoes it.
    pub proof fn lemma_code_roundtrip(t: SignatureType)
        ensures
            Self::from_code(t.code()) == Some(t),
    {
        let c = choose|x: SignatureType| x.code() == t.code();
        assert(c.code() == t.code());
    }

    /// Whatever `from_code` finds for a byte has that byte as its code.
    pub proof fn lemma_from_code_sound(b: u8)
        ensures
            Self::from_code(b) matches Some(t) ==> t.code() == b,
    {
    }

    pub fn to_u8(self) -> (b: u8)
        ensures
            b == self.code(),
    {
        match self {
            SignatureType::Binary => 0x00,
            SignatureType::Text => 0x01,
            SignatureType::Standalone => 0x02,
            SignatureType::CertGeneric => 0x10,
            SignatureType::CertPersona => 0x11,
            SignatureType::CertCasual => 0x12,
            SignatureType::CertPositive => 0x13,
            SignatureType::SubkeyBinding => 0x18,
            SignatureType::KeyBinding => 0x19,
            SignatureType::Key => 0x1F,
            SignatureType::KeyRevocation => 0x20,
            SignatureType::SubkeyRevocation => 0x28,
            SignatureType::CertRevocation => 0x30,
            SignatureType::Timestamp => 0x40,
            SignatureType::ThirdParty => 0x50,
        }
    }

    pub fn from_u8(b: u8) -> (res: Option<SignatureType>)
        ensures
            res == Self::from_code(b),
    {
        let res = match b {
            0x00 => Some(SignatureType::Binary),
            0x01 => Some(SignatureType::Text),
            0x02 => Some(SignatureType::Standalone),
            0x10 => Some(SignatureType::CertGeneric),
            0x11 => Some(SignatureType::CertPersona),
            0x12 => Some(SignatureType::CertCasual),
            0x13 => Some(SignatureType::CertPositive),
            0x18 => Some(SignatureType::SubkeyBinding),
            0x19 => Some(SignatureType::KeyBinding),
            0x1F => Some(SignatureType::Key),
            0x20 => Some(SignatureType::KeyRevocation),
            0x28 => Some(SignatureType::SubkeyRevocation),
            0x30 => Some(SignatureType::CertRevocation),
            0x40 => Some(SignatureType::Timestamp),
            0x50 => Some(SignatureType::ThirdParty),
            _ => None,
        };
        proof {
            match res {
                Some(t) => {
                    Self::lemma_code_roundtrip(t);
                },
                None => {
                    assert(forall|t: SignatureType| t.code() != b);
                },
            }
        }
        res
    }
}

} // verus!
