use vstd::prelude::*;

use crate::crypto::hash::HashAlgorithm;
use crate::crypto::public_key::PublicKeyAlgorithm;
use crate::errors::{Field, PgpError};
use crate::packet::packet_trait::PacketTrait;
use crate::packet::signature::SignatureType;
use crate::ser::{ByteSink, Serialize};
use crate::types::key_id::KeyId;
use crate::types::packet::{Tag, Version};

verus! {

/// A one-pass signature packet: the announcement of a signature that
/// follows the data, so that a reader can hash the data as it passes.
#[derive(Debug, Clone, PartialEq, Eq)]
pub struct OnePassSignature {
    packet_version: Version,
    version: u8,
    typ: SignatureType,
    hash_algorithm: HashAlgorithm,
    pub_algorithm: PublicKeyAlgorithm,
    key_id: KeyId,
    last: u8,
}

/// What a [`OnePassSignature`] holds, as plain values.
pub struct OnePassSignatureView {
    pub packet_version: Version,
    pub version: u8,
    pub typ: SignatureType,
    pub hash_algorithm: HashAlgorithm,
    pub pub_algorithm: PublicKeyAlgorithm,
    /// The eight bytes of the signer's key identifier.
    pub key_id: Seq<u8>,
    /// Not zero where this is the last such packet before the data.
    pub last: u8,
}

impl View for OnePassSignature {
    type V = OnePassSignatureView;

    closed spec fn view(&self) -> OnePassSignatureView {
        OnePassSignatureView {
            packet_version: self.packet_version,
            version: self.version,
            typ: self.typ,
            hash_algorithm: self.hash_algorithm,
            pub_algorithm: self.pub_algorithm,
            key_id: self.key_id@,
            last: self.last,
        }
    }
}

impl OnePassSignatureView {
    /// The body of the packet: thirteen bytes, in the order version,
    /// signature type, hash algorithm, public-key algorithm, key
    /// identifier, last.
    pub open spec fn body(self) -> Seq<u8> {
        seq![self.version, self.typ.code(), self.hash_algorithm.code(), self.pub_algorithm.code()]
            + self.key_id + seq![self.last]
    }
}

/// Reading a one-pass signature from the front of `input`: what is left of
/// the input, and the packet.  The fields are taken in their order, so the
/// first one that is missing or unknown decides the error.
pub open spec fn parse_one_pass_signature(input: Seq<u8>, packet_version: Version) -> Result<
    (Seq<u8>, OnePassSignatureView),
    PgpError,
> {
    if input.len() < 2 {
        Err(PgpError::Incomplete(1))
    } else if SignatureType::from_code(input[1]) is None {
        Err(PgpError::Malformed(Field::SignatureType))
    } else if input.len() < 3 {
        Err(PgpError::Incomplete(1))
    } else if HashAlgorithm::from_code(input[2]) is None {
        Err(PgpError::Malformed(Field::HashAlgorithm))
    } else if input.len() < 4 {
        Err(PgpError::Incomplete(1))
    } else if PublicKeyAlgorithm::from_code(input[3]) is None {
        Err(PgpError::Malformed(Field::PublicKeyAlgorithm))
    } else if input.len() < 12 {
        Err(PgpError::Incomplete(8))
    } else if input.len() < 13 {
        Err(PgpError::Incomplete(1))
    } else {
        Ok(
            (
                input.skip(13),
                OnePassSignatureView {
                    packet_version,
                    version: input[0],
                    typ: SignatureType::from_code(input[1])->Some_0,
                    hash_algorithm: HashAlgorithm::from_code(input[2])->Some_0,
                    pub_algorithm: PublicKeyAlgorithm::from_code(input[3])->Some_0,
                    key_id: input.subrange(4, 12),
                    last: input[12],
                },
            ),
        )
    }
}

impl OnePassSignature {
    /// Reads a one-pass signature packet from the front of `input`, which
    /// came in a header of the format `packet_version`.  Bytes after the
    /// thirteenth are not looked at.
    pub fn from_slice(packet_version: Version, input: &[u8]) -> (res: Result<
        OnePassSignature,
        PgpError,
    >)
        ensures
            match parse_one_pass_signature(input@, packet_version) {
                Ok((_, packet)) => res matches Ok(p) && p@ == packet,
                Err(e) => res matches Err(x) && x == e,
            },
    {
        match parse(input, packet_version) {
            Ok((_, pk)) => Ok(pk),
            Err(e) => Err(e),
        }
    }

    /// The packet that announces a signature of these kinds by the key
    /// `key_id`: format version 3, and marked as the last before the data.
    pub fn from_details(
        typ: SignatureType,
        hash_algorithm: HashAlgorithm,
        pub_algorithm: PublicKeyAlgorithm,
        key_id: KeyId,
    ) -> (out: OnePassSignature)
        ensures
            out@ == (OnePassSignatureView {
                packet_version: Version::New,
                version: 3,
                typ,
                hash_algorithm,
                pub_algorithm,
                key_id: key_id@,
                last: 1,
            }),
    {
        OnePassSignature {
            packet_version: Version::default(),
            version: 0x03,
            typ,
            hash_algorithm,
            pub_algorithm,
            key_id,
            last: 1,
        }
    }

    pub fn packet_version(&self) -> (v: Version)
        ensures
            v == self@.packet_version,
    {
        self.packet_version
    }
}

fn parse<'a>(i: &'a [u8], packet_version: Version) -> (res: Result<
    (&'a [u8], OnePassSignature),
    PgpError,
>)
    ensures
        match parse_one_pass_signature(i@, packet_version) {
            Ok((rest, packet)) => res matches Ok((r, p)) && r@ == rest && p@ == packet,
            Err(e) => res matches Err(x) && x == e,
        },
{
    if i.len() < 2 {
        return Err(PgpError::Incomplete(1));
    }
    let version = i[0];
    let typ = match SignatureType::from_u8(i[1]) {
        Some(typ) => typ,
        None => {
            return Err(PgpError::Malformed(Field::SignatureType));
        },
    };
    if i.len() < 3 {
        return Err(PgpError::Incomplete(1));
    }
    let hash = match HashAlgorithm::from_u8(i[2]) {
        Some(hash) => hash,
        None => {
            return Err(PgpError::Malformed(Field::HashAlgorithm));
        },
    };
    if i.len() < 4 {
        return Err(PgpError::Incomplete(1));
    }
    let pub_alg = match PublicKeyAlgorithm::from_u8(i[3]) {
        Some(pub_alg) => pub_alg,
        None => {
            return Err(PgpError::Malformed(Field::PublicKeyAlgorithm));
        },
    };
    if i.len() < 12 {
        return Err(PgpError::Incomplete(8));
    }
    let key_id = match KeyId::from_slice(vstd::slice::slice_subrange(i, 4, 12)) {
        Ok(key_id) => key_id,
        Err(e) => {
            return Err(e);
        },
    };
    if i.len() < 13 {
        return Err(PgpError::Incomplete(1));
    }
    let last = i[12];
    let rest = vstd::slice::slice_subrange(i, 13, i.len());
    assert(rest@ =~= i@.skip(13));
    Ok(
        (
            rest,
            OnePassSignature {
                packet_version,
                version,
                typ,
                hash_algorithm: hash,
                pub_algorithm: pub_alg,
                key_id,
                last,
            },
        ),
    )
}

impl Serialize for OnePassSignature {
    open spec fn wire_bytes(&self) -> Seq<u8> {
        self@.body()
    }

    fn to_writer<W: ByteSink>(&self, writer: &mut W) {
        let head = [
            self.version,
            self.typ.to_u8(),
            self.hash_algorithm.to_u8(),
            self.pub_algorithm.to_u8(),
        ];
        writer.write_all(head.as_slice());
        writer.write_all(self.key_id.as_ref());
        let last = [self.last];
        writer.write_all(last.as_slice());
        assert(old(writer).written() + head@ + self.key_id@ + last@ =~= old(writer).written()
            + self@.body());
    }
}

impl PacketTrait for OnePassSignature {
    open spec fn header_version(&self) -> Version {
        self@.packet_version
    }

    open spec fn header_tag(&self) -> Tag {
        Tag::OnePassSignature
    }

    fn packet_version(&self) -> Version {
        self.packet_version
    }

    fn tag(&self) -> Tag {
        Tag::OnePassSignature
    }
}

/// Round trip: the body of a packet, read back, is the packet, and what
/// followed the body is what is left.
pub proof fn lemma_parse_of_body(packet: OnePassSignatureView, tail: Seq<u8>)
    requires
        packet.key_id.len() == 8,
    ensures
        parse_one_pass_signature(packet.body() + tail, packet.packet_version) == Ok::<
            (Seq<u8>, OnePassSignatureView),
            PgpError,
        >((tail, packet)),
{
    let input = packet.body() + tail;
    SignatureType::lemma_code_roundtrip(packet.typ);
    HashAlgorithm::lemma_code_roundtrip(packet.hash_algorithm);
    PublicKeyAlgorithm::lemma_code_roundtrip(packet.pub_algorithm);
    assert(input[1] == packet.typ.code());
    assert(input[2] == packet.hash_algorithm.code());
    assert(input[3] == packet.pub_algorithm.code());
    assert(input.skip(13) =~= tail);
    assert(input.subrange(4, 12) =~= packet.key_id);
}

/// Whatever was read writes back as the thirteen bytes that it was read
/// from.
pub proof fn lemma_body_of_parsed(input: Seq<u8>, packet_version: Version)
    requires
        parse_one_pass_signature(input, packet_version) is Ok,
    ensures
        parse_one_pass_signature(input, packet_version)->Ok_0.1.body() == input.take(13),
        parse_one_pass_signature(input, packet_version)->Ok_0.1.key_id.len() == 8,
        parse_one_pass_signature(input, packet_version)->Ok_0.0 == input.skip(13),
{
    let packet = parse_one_pass_signature(input, packet_version)->Ok_0.1;
    SignatureType::lemma_from_code_sound(input[1]);
    HashAlgorithm::lemma_from_code_sound(input[2]);
    PublicKeyAlgorithm::lemma_from_code_sound(input[3]);
    assert(packet.body() =~= input.take(13));
}

/// The first of the three code bytes that the format does not know, if
/// there is one.
pub open spec fn first_unknown_code(input: Seq<u8>) -> Option<Field>
    recommends
        input.len() >= 4,
{
    if SignatureType::from_code(input[1]) is None {
        Some(Field::SignatureType)
    } else if HashAlgorithm::from_code(input[2]) is None {
        Some(Field::HashAlgorithm)
    } else if PublicKeyAlgorithm::from_code(input[3]) is None {
        Some(Field::PublicKeyAlgorithm)
    } else {
        None
    }
}

/// A code byte that the format does not know makes the content malformed,
/// whatever the other bytes are and however many follow; the first such
/// byte is the one reported.  Where all three are known, the input is read
/// as soon as it has thirteen bytes, and is incomplete before.
pub proof fn lemma_unknown_code_is_malformed(input: Seq<u8>, packet_version: Version)
    requires
        input.len() >= 4,
    ensures
        match first_unknown_code(input) {
            Some(field) => parse_one_pass_signature(input, packet_version) == Err::<
                (Seq<u8>, OnePassSignatureView),
                PgpError,
            >(PgpError::Malformed(field)),
            None => if input.len() >= 13 {
                parse_one_pass_signature(input, packet_version) is Ok
            } else {
                parse_one_pass_signature(input, packet_version) matches Err(
                    PgpError::Incomplete(_),
                )
            },
        },
{
}

} // verus!
