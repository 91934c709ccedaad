use vstd::prelude::*;

verus! {

/// The named elliptic curves.
#[derive(Debug, Clone, Copy, PartialEq, Eq, Structural)]
pub enum ECCCurve {
    Curve25519,
    Ed25519,
    P256,
    P384,
    P521,
    BrainpoolP256r1,
    BrainpoolP384r1,
    BrainpoolP512r1,
    Secp256k1,
}

impl ECCCurve {
    /// The curve's object identifier in its DER content encoding.
    pub open spec fn oid_bytes(self) -> Seq<u8> {
        match self {
            ECCCurve::Curve25519 => seq![
                0x2Bu8, 0x06, 0x01, 0x04, 0x01, 0x97, 0x55, 0x01, 0x05, 0x01,
            ],
            ECCCurve::Ed25519 => seq![0x2Bu8, 0x06, 0x01, 0x04, 0x01, 0xDA, 0x47, 0x0F, 0x01],
            ECCCurve::P256 => seq![0x2Au8, 0x86, 0x48, 0xCE, 0x3D, 0x03, 0x01, 0x07],
            ECCCurve::P384 => seq![0x2Bu8, 0x81, 0x04, 0x00, 0x22],
            ECCCurve::P521 => seq![0x2Bu8, 0x81, 0x04, 0x00, 0x23],
            ECCCurve::BrainpoolP256r1 => seq![
                0x2Bu8, 0x24, 0x03, 0x03, 0x02, 0x08, 0x01, 0x01, 0x07,
            ],
            ECCCurve::BrainpoolP384r1 => seq![
                0x2Bu8, 0x24, 0x03, 0x03, 0x02, 0x08, 0x01, 0x01, 0x0B,
            ],
            ECCCurve::BrainpoolP512r1 => seq![
                0x2Bu8, 0x24, 0x03, 0x03, 0x02, 0x08, 0x01, 0x01, 0x0D,
            ],
            ECCCurve::Secp256k1 => seq![0x2Bu8, 0x81, 0x04, 0x00, 0x0A],
        }
    }

    pub fn oid(&self) -> (out: Vec<u8>)
        ensures
            out@ == self.oid_bytes(),
    {
        let out = match self {
            ECCCurve::Curve25519 => vec![
                0x2Bu8, 0x06, 0x01, 0x04, 0x01, 0x97, 0x55, 0x01, 0x05, 0x01,
            ],
            ECCCurve::Ed25519 => vec![0x2Bu8, 0x06, 0x01, 0x04, 0x01, 0xDA, 0x47, 0x0F, 0x01],
            ECCCurve::P256 => vec![0x2Au8, 0x86, 0x48, 0xCE, 0x3D, 0x03, 0x01, 0x07],
            ECCCurve::P384 => vec![0x2Bu8, 0x81, 0x04, 0x00, 0x22],
            ECCCurve::P521 => vec![0x2Bu8, 0x81, 0x04, 0x00, 0x23],
            ECCCurve::BrainpoolP256r1 => vec![
                0x2Bu8, 0x24, 0x03, 0x03, 0x02, 0x08, 0x01, 0x01, 0x07,
            ],
            ECCCurve::BrainpoolP384r1 => vec![
                0x2Bu8, 0x24, 0x03, 0x03, 0x02, 0x08, 0x01, 0x01, 0x0B,
            ],
            ECCCurve::BrainpoolP512r1 => vec![
                0x2Bu8, 0x24, 0x03, 0x03, 0x02, 0x08, 0x01, 0x01, 0x0D,
            ],
            ECCCurve::Secp256k1 => vec![0x2Bu8, 0x81, 0x04, 0x00, 0x0A],
        };
        assert(out@ =~= self.oid_bytes());
        out
    }
}

} // verus!
