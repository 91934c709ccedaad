use pgp::crypto::hash::HashAlgorithm;
use pgp::crypto::public_key::PublicKeyAlgorithm;
use pgp::errors::{Field, PgpError};
use pgp::packet::one_pass_signature::OnePassSignature;
use pgp::packet::packet_trait::PacketTrait;
use pgp::packet::signature::SignatureType;
use pgp::ser::{to_bytes, Serialize};
use pgp::types::key_id::KeyId;
use pgp::types::packet::{Tag, Version};

const KEY_ID: [u8; 8] = [0x4c, 0x07, 0x3a, 0xe0, 0xc8, 0x44, 0x5c, 0x0c];

fn example_body() -> Vec<u8> {
    let mut body = vec![0x03, 0x00, 0x02, 0x01];
    body.extend_from_slice(&KEY_ID);
    body.push(0x01);
    body
}

fn failure(res: Result<OnePassSignature, PgpError>) -> PgpError {
    match res {
        Ok(packet) => panic!("read {:?} where an error was due", packet),
        Err(e) => e,
    }
}

#[test]
fn one_pass_signature_example_parses_to_its_fields() {
    let body = example_body();
    assert_eq!(body.len(), 13);
    let packet = OnePassSignature::from_slice(Version::New, &body).unwrap();
    let expected = OnePassSignature::from_details(
        SignatureType::Binary,
        HashAlgorithm::SHA1,
        PublicKeyAlgorithm::RSA,
        KeyId::from_slice(&KEY_ID).unwrap(),
    );
    assert_eq!(packet, expected);
}

#[test]
fn one_pass_signature_example_writes_back_the_same_bytes() {
    let body = example_body();
    let packet = OnePassSignature::from_slice(Version::New, &body).unwrap();
    assert_eq!(to_bytes(&packet), body);
}

#[test]
fn one_pass_signature_keeps_version_and_last_as_read() {
    let mut body = example_body();
    body[0] = 0x07;
    body[12] = 0x00;
    let packet = OnePassSignature::from_slice(Version::Old, &body).unwrap();
    assert_eq!(packet.packet_version(), Version::Old);
    assert_eq!(to_bytes(&packet), body);
    let details = OnePassSignature::from_details(
        SignatureType::Binary,
        HashAlgorithm::SHA1,
        PublicKeyAlgorithm::RSA,
        KeyId::from_slice(&KEY_ID).unwrap(),
    );
    assert_ne!(packet, details);
}

#[test]
fn one_pass_signature_from_details_is_version_three_and_last() {
    let packet = OnePassSignature::from_details(
        SignatureType::Text,
        HashAlgorithm::SHA2_256,
        PublicKeyAlgorithm::EdDSA,
        KeyId::from_slice(&KEY_ID).unwrap(),
    );
    assert_eq!(packet.packet_version(), Version::New);
    let mut expected = vec![0x03, 0x01, 0x08, 0x16];
    expected.extend_from_slice(&KEY_ID);
    expected.push(0x01);
    assert_eq!(to_bytes(&packet), expected);
}

#[test]
fn one_pass_signature_appends_to_what_the_writer_holds() {
    let packet = OnePassSignature::from_slice(Version::New, &example_body()).unwrap();
    let mut out: Vec<u8> = vec![0xaa, 0xbb];
    packet.to_writer(&mut out);
    assert_eq!(&out[..2], &[0xaa, 0xbb]);
    assert_eq!(&out[2..], &example_body()[..]);
}

#[test]
fn one_pass_signature_ignores_what_follows_the_body() {
    let mut input = example_body();
    input.extend_from_slice(&[0xde, 0xad, 0xbe, 0xef]);
    let packet = OnePassSignature::from_slice(Version::New, &input).unwrap();
    assert_eq!(to_bytes(&packet), example_body());
}

#[test]
fn one_pass_signature_short_input_is_incomplete() {
    let body = example_body();
    for keep in 0..13 {
        let needed = if (4..12).contains(&keep) { 8 } else { 1 };
        assert_eq!(
            failure(OnePassSignature::from_slice(Version::New, &body[..keep])),
            PgpError::Incomplete(needed),
            "with {} bytes",
            keep
        );
    }
}

#[test]
fn one_pass_signature_unknown_signature_type_is_malformed() {
    let mut body = example_body();
    body[1] = 0x03;
    assert_eq!(
        failure(OnePassSignature::from_slice(Version::New, &body)),
        PgpError::Malformed(Field::SignatureType)
    );
    body[1] = 0xff;
    assert_eq!(
        failure(OnePassSignature::from_slice(Version::New, &body)),
        PgpError::Malformed(Field::SignatureType)
    );
}

#[test]
fn one_pass_signature_unknown_hash_algorithm_is_malformed() {
    let mut body = example_body();
    body[2] = 0x04;
    assert_eq!(
        failure(OnePassSignature::from_slice(Version::New, &body)),
        PgpError::Malformed(Field::HashAlgorithm)
    );
    body[2] = 13;
    assert_eq!(
        failure(OnePassSignature::from_slice(Version::New, &body)),
        PgpError::Malformed(Field::HashAlgorithm)
    );
}

#[test]
fn one_pass_signature_unknown_public_key_algorithm_is_malformed() {
    let mut body = example_body();
    body[3] = 0x00;
    assert_eq!(
        failure(OnePassSignature::from_slice(Version::New, &body)),
        PgpError::Malformed(Field::PublicKeyAlgorithm)
    );
    body[3] = 23;
    assert_eq!(
        failure(OnePassSignature::from_slice(Version::New, &body)),
        PgpError::Malformed(Field::PublicKeyAlgorithm)
    );
}

#[test]
fn one_pass_signature_first_bad_field_decides_the_error() {
    // An unknown signature type is seen before the input is found short.
    assert_eq!(
        failure(OnePassSignature::from_slice(Version::New, &[0x03, 0xff])),
        PgpError::Malformed(Field::SignatureType)
    );
    // Two unknown codes: the earlier one is reported.
    let mut body = example_body();
    body[2] = 0xee;
    body[3] = 0xee;
    assert_eq!(
        failure(OnePassSignature::from_slice(Version::New, &body)),
        PgpError::Malformed(Field::HashAlgorithm)
    );
}

#[test]
fn one_pass_signature_every_byte_value_parses_or_is_malformed() {
    for position in 1..4usize {
        let field = match position {
            1 => Field::SignatureType,
            2 => Field::HashAlgorithm,
            _ => Field::PublicKeyAlgorithm,
        };
        for value in 0..=255u8 {
            let mut body = example_body();
            body[position] = value;
            let known = match position {
                1 => SignatureType::from_u8(value).is_some(),
                2 => HashAlgorithm::from_u8(value).is_some(),
                _ => PublicKeyAlgorithm::from_u8(value).is_some(),
            };
            match OnePassSignature::from_slice(Version::New, &body) {
                Ok(packet) => {
                    assert!(known, "byte {} at {} was read", value, position);
                    assert_eq!(to_bytes(&packet), body);
                }
                Err(e) => {
                    assert!(!known, "byte {} at {} was refused", value, position);
                    assert_eq!(e, PgpError::Malformed(field));
                }
            }
        }
    }
}

#[test]
fn signature_type_codes_are_the_known_ones() {
    let known: [(u8, SignatureType); 15] = [
        (0x00, SignatureType::Binary),
        (0x01, SignatureType::Text),
        (0x02, SignatureType::Standalone),
        (0x10, SignatureType::CertGeneric),
        (0x11, SignatureType::CertPersona),
        (0x12, SignatureType::CertCasual),
        (0x13, SignatureType::CertPositive),
        (0x18, SignatureType::SubkeyBinding),
        (0x19, SignatureType::KeyBinding),
        (0x1f, SignatureType::Key),
        (0x20, SignatureType::KeyRevocation),
        (0x28, SignatureType::SubkeyRevocation),
        (0x30, SignatureType::CertRevocation),
        (0x40, SignatureType::Timestamp),
        (0x50, SignatureType::ThirdParty),
    ];
    let mut count = 0;
    for value in 0..=255u8 {
        match SignatureType::from_u8(value) {
            Some(typ) => {
                count += 1;
                assert_eq!(typ.to_u8(), value);
                assert!(known.contains(&(value, typ)));
            }
            None => assert!(known.iter().all(|(code, _)| *code != value)),
        }
    }
    assert_eq!(count, 15);
}

#[test]
fn hash_algorithm_codes_are_the_known_ones() {
    let known: [(u8, HashAlgorithm); 11] = [
        (0, HashAlgorithm::NoHash),
        (1, HashAlgorithm::MD5),
        (2, HashAlgorithm::SHA1),
        (3, HashAlgorithm::RIPEMD160),
        (8, HashAlgorithm::SHA2_256),
        (9, HashAlgorithm::SHA2_384),
        (10, HashAlgorithm::SHA2_512),
        (11, HashAlgorithm::SHA2_224),
        (12, HashAlgorithm::SHA3_256),
        (14, HashAlgorithm::SHA3_512),
        (110, HashAlgorithm::Private10),
    ];
    let mut count = 0;
    for value in 0..=255u8 {
        match HashAlgorithm::from_u8(value) {
            Some(hash) => {
                count += 1;
                assert_eq!(hash.to_u8(), value);
                assert!(known.contains(&(value, hash)));
            }
            None => assert!(known.iter().all(|(code, _)| *code != value)),
        }
    }
    assert_eq!(count, 11);
}

#[test]
fn public_key_algorithm_codes_are_the_known_ones() {
    let known: [(u8, PublicKeyAlgorithm); 10] = [
        (1, PublicKeyAlgorithm::RSA),
        (2, PublicKeyAlgorithm::RSAEncrypt),
        (3, PublicKeyAlgorithm::RSASign),
        (16, PublicKeyAlgorithm::ElgamalSign),
        (17, PublicKeyAlgorithm::DSA),
        (18, PublicKeyAlgorithm::ECDH),
        (19, PublicKeyAlgorithm::ECDSA),
        (20, PublicKeyAlgorithm::Elgamal),
        (21, PublicKeyAlgorithm::DiffieHellman),
        (22, PublicKeyAlgorithm::EdDSA),
    ];
    let mut count = 0;
    for value in 0..=255u8 {
        match PublicKeyAlgorithm::from_u8(value) {
            Some(alg) => {
                count += 1;
                assert_eq!(alg.to_u8(), value);
                if value < 100 {
                    assert!(known.contains(&(value, alg)));
                } else {
                    assert!((100..=110).contains(&value));
                }
            }
            None => {
                assert!(known.iter().all(|(code, _)| *code != value));
                assert!(!(100..=110).contains(&value));
            }
        }
    }
    assert_eq!(count, 21);
    assert_eq!(PublicKeyAlgorithm::from_u8(100), Some(PublicKeyAlgorithm::Private100));
    assert_eq!(PublicKeyAlgorithm::from_u8(110), Some(PublicKeyAlgorithm::Private110));
}

#[test]
fn one_pass_signature_has_its_tag() {
    let packet = OnePassSignature::from_slice(Version::Old, &example_body()).unwrap();
    assert_eq!(PacketTrait::tag(&packet), Tag::OnePassSignature);
    assert_eq!(PacketTrait::packet_version(&packet), Version::Old);
}

#[test]
fn key_id_takes_exactly_eight_bytes() {
    let id = KeyId::from_slice(&KEY_ID).unwrap();
    assert_eq!(id.as_ref(), &KEY_ID[..]);
    assert_eq!(KeyId::from_slice(&KEY_ID[..7]), Err(PgpError::Malformed(Field::KeyId)));
    assert_eq!(KeyId::from_slice(&[0u8; 9]), Err(PgpError::Malformed(Field::KeyId)));
    assert_eq!(KeyId::from_slice(&[]), Err(PgpError::Malformed(Field::KeyId)));
}

#[test]
fn packet_version_defaults_to_the_new_format() {
    assert_eq!(Version::default(), Version::New);
}
