use pgp::crypto::public_key::PublicKeyAlgorithm;
use pgp::errors::{Feature, PgpError};
use pgp::ser::{to_bytes, Serialize};
use pgp::types::params::plain_secret::{PlainSecretParams, PlainSecretParamsRef};

const SINGLE_FIELD: [PublicKeyAlgorithm; 5] = [
    PublicKeyAlgorithm::DSA,
    PublicKeyAlgorithm::ECDSA,
    PublicKeyAlgorithm::ECDH,
    PublicKeyAlgorithm::Elgamal,
    PublicKeyAlgorithm::EdDSA,
];

const RSA_KINDS: [PublicKeyAlgorithm; 3] =
    [PublicKeyAlgorithm::RSA, PublicKeyAlgorithm::RSAEncrypt, PublicKeyAlgorithm::RSASign];

fn single(alg: PublicKeyAlgorithm, x: &[u8]) -> PlainSecretParams {
    match alg {
        PublicKeyAlgorithm::DSA => PlainSecretParams::DSA(x.to_vec()),
        PublicKeyAlgorithm::ECDSA => PlainSecretParams::ECDSA(x.to_vec()),
        PublicKeyAlgorithm::ECDH => PlainSecretParams::ECDH(x.to_vec()),
        PublicKeyAlgorithm::Elgamal => PlainSecretParams::Elgamal(x.to_vec()),
        PublicKeyAlgorithm::EdDSA => PlainSecretParams::EdDSA(x.to_vec()),
        _ => panic!("not an algorithm with one field"),
    }
}

fn raw_of(params: &PlainSecretParams) -> Vec<u8> {
    let mut raw: Vec<u8> = Vec::new();
    params.as_ref().to_writer_raw(&mut raw);
    raw
}

fn failure_of(res: Result<PlainSecretParams, PgpError>) -> PgpError {
    match res {
        Ok(_) => panic!("parameters were read where an error was due"),
        Err(e) => e,
    }
}

fn rsa_example() -> PlainSecretParams {
    PlainSecretParams::RSA {
        d: vec![0x01, 0x23, 0x45],
        p: vec![0xc1, 0x02],
        q: vec![0x0f],
        u: vec![0x80, 0x00, 0x00, 0x01],
    }
}

const RSA_EXAMPLE_RAW: [u8; 18] = [
    0x00, 0x11, 0x01, 0x23, 0x45, // d: 17 bits
    0x00, 0x10, 0xc1, 0x02, // p: 16 bits
    0x00, 0x04, 0x0f, // q: 4 bits
    0x00, 0x20, 0x80, 0x00, 0x00, 0x01, // u: 32 bits
];

#[test]
fn secret_params_rsa_reads_four_fields_in_order() {
    for alg in RSA_KINDS {
        let params = PlainSecretParamsRef::from_slice(&RSA_EXAMPLE_RAW, alg).unwrap();
        match params {
            PlainSecretParamsRef::RSA { d, p, q, u } => {
                assert_eq!(d, &[0x01, 0x23, 0x45]);
                assert_eq!(p, &[0xc1, 0x02]);
                assert_eq!(q, &[0x0f]);
                assert_eq!(u, &[0x80, 0x00, 0x00, 0x01]);
            }
            _ => panic!("not RSA parameters"),
        }
        assert!(PlainSecretParams::from_slice(&RSA_EXAMPLE_RAW, alg).unwrap() == rsa_example());
    }
}

#[test]
fn secret_params_single_field_algorithms_read_one_field() {
    let body = [0x00, 0x09, 0x01, 0xff, 0xaa];
    for alg in SINGLE_FIELD {
        let params = PlainSecretParams::from_slice(&body, alg).unwrap();
        assert!(params == single(alg, &[0x01, 0xff]));
    }
}

#[test]
fn secret_params_variant_follows_the_algorithm() {
    let body = [0x00, 0x01, 0x01];
    assert!(matches!(
        PlainSecretParamsRef::from_slice(&body, PublicKeyAlgorithm::DSA),
        Ok(PlainSecretParamsRef::DSA(_))
    ));
    assert!(matches!(
        PlainSecretParamsRef::from_slice(&body, PublicKeyAlgorithm::ECDSA),
        Ok(PlainSecretParamsRef::ECDSA(_))
    ));
    assert!(matches!(
        PlainSecretParamsRef::from_slice(&body, PublicKeyAlgorithm::ECDH),
        Ok(PlainSecretParamsRef::ECDH(_))
    ));
    assert!(matches!(
        PlainSecretParamsRef::from_slice(&body, PublicKeyAlgorithm::Elgamal),
        Ok(PlainSecretParamsRef::Elgamal(_))
    ));
    assert!(matches!(
        PlainSecretParamsRef::from_slice(&body, PublicKeyAlgorithm::EdDSA),
        Ok(PlainSecretParamsRef::EdDSA(_))
    ));
}

#[test]
fn secret_params_raw_bytes_are_the_fields_with_their_bit_lengths() {
    assert_eq!(raw_of(&rsa_example()), RSA_EXAMPLE_RAW);
    assert_eq!(raw_of(&PlainSecretParams::DSA(vec![0x01])), [0x00, 0x01, 0x01]);
    assert_eq!(raw_of(&PlainSecretParams::EdDSA(vec![])), [0x00, 0x00]);
    assert_eq!(raw_of(&PlainSecretParams::ECDH(vec![0xff, 0x00])), [0x00, 0x10, 0xff, 0x00]);
}

#[test]
fn secret_params_round_trip_through_raw_bytes() {
    for alg in RSA_KINDS {
        let params = rsa_example();
        assert!(PlainSecretParams::from_slice(&raw_of(&params), alg).unwrap() == params);
    }
    let fields: [&[u8]; 5] =
        [&[], &[0x01], &[0x80], &[0x7f, 0x00, 0x00], &[0xff, 0xfe, 0xfd, 0xfc, 0xfb]];
    for alg in SINGLE_FIELD {
        for field in fields {
            let params = single(alg, field);
            assert!(PlainSecretParams::from_slice(&raw_of(&params), alg).unwrap() == params);
        }
    }
}

#[test]
fn secret_params_round_trip_of_a_long_field() {
    let mut field = vec![0x5a; 8191];
    field[0] = 0xff;
    let params = PlainSecretParams::Elgamal(field);
    let raw = raw_of(&params);
    assert_eq!(&raw[..2], &[0xff, 0xf8]);
    assert!(PlainSecretParams::from_slice(&raw, PublicKeyAlgorithm::Elgamal).unwrap() == params);
}

#[test]
fn secret_params_leading_zero_byte_does_not_round_trip() {
    let params = PlainSecretParams::DSA(vec![0x00, 0x01]);
    let raw = raw_of(&params);
    assert_eq!(raw, [0x00, 0x08, 0x00, 0x01]);
    let back = PlainSecretParams::from_slice(&raw, PublicKeyAlgorithm::DSA).unwrap();
    assert!(back == PlainSecretParams::DSA(vec![0x00]));
    assert!(back != params);
}

#[test]
fn secret_params_bit_length_is_cut_to_sixteen_bits() {
    let params = PlainSecretParams::DSA(vec![0x80; 8192]);
    let raw = raw_of(&params);
    assert_eq!(raw.len(), 8194);
    assert_eq!(&raw[..2], &[0x00, 0x00]);
    let back = PlainSecretParams::from_slice(&raw, PublicKeyAlgorithm::DSA).unwrap();
    assert!(back == PlainSecretParams::DSA(vec![]));
}

#[test]
fn secret_params_borrowed_and_owned_agree() {
    let owned = rsa_example();
    let borrowed = owned.as_ref();
    assert!(borrowed.to_owned() == owned);
    assert!(borrowed == PlainSecretParamsRef::from_slice(&RSA_EXAMPLE_RAW, PublicKeyAlgorithm::RSA)
        .unwrap());
    let x = [0x12u8, 0x34];
    for alg in SINGLE_FIELD {
        let owned = single(alg, &x);
        assert!(owned.as_ref().to_owned() == owned);
    }
}

#[test]
fn secret_params_string_to_key_id_is_zero() {
    assert_eq!(rsa_example().string_to_key_id(), 0);
    assert_eq!(rsa_example().as_ref().string_to_key_id(), 0);
    assert_eq!(PlainSecretParams::EdDSA(vec![1, 2, 3]).string_to_key_id(), 0);
}

#[test]
fn secret_params_simple_checksum_is_the_sum_of_the_raw_bytes() {
    assert_eq!(PlainSecretParams::DSA(vec![0x01]).checksum_simple(), [0x00, 0x02]);
    let sum: u32 = RSA_EXAMPLE_RAW.iter().map(|b| *b as u32).sum();
    assert_eq!(sum, 0x0201);
    assert_eq!(rsa_example().checksum_simple(), [0x02, 0x01]);
    assert_eq!(rsa_example().as_ref().checksum_simple(), [0x02, 0x01]);
}

#[test]
fn secret_params_simple_checksum_wraps_at_sixteen_bits() {
    // 0x0810 in the prefix, then 258 bytes of 0xff: the sum is
    // 8 + 16 + 258 * 255 = 65814, which is 278 modulo 65536.
    let params = PlainSecretParams::ECDSA(vec![0xff; 258]);
    let raw = raw_of(&params);
    assert_eq!(&raw[..2], &[0x08, 0x10]);
    let sum: u32 = raw.iter().map(|b| *b as u32).sum();
    assert!(sum > 65535);
    let wrapped = (sum % 65536) as u16;
    assert_eq!(params.checksum_simple(), wrapped.to_be_bytes());
    assert_eq!(wrapped, 278);
}

#[test]
fn secret_params_sha1_checksum_is_the_digest_of_the_raw_bytes() {
    let scalar: Vec<u8> = (1..=32).collect();
    let params = PlainSecretParams::ECDH(scalar);
    assert_eq!(
        params.checksum_sha1(),
        [
            0x57, 0x5a, 0xa6, 0x6d, 0xac, 0x2c, 0x71, 0xaa, 0x03, 0x4c, 0x70, 0x3f, 0x01, 0xe3,
            0x11, 0xf4, 0x7c, 0xf1, 0x39, 0xfe
        ]
    );
    assert_eq!(params.as_ref().checksum_sha1(), params.checksum_sha1());
}

#[test]
fn secret_params_checksums_depend_on_the_raw_bytes_alone() {
    // The same field under two algorithms has the same raw bytes.
    let a = PlainSecretParams::DSA(vec![0x12, 0x34, 0x56]);
    let b = PlainSecretParams::Elgamal(vec![0x12, 0x34, 0x56]);
    assert_eq!(raw_of(&a), raw_of(&b));
    assert_eq!(a.checksum_simple(), b.checksum_simple());
    assert_eq!(a.checksum_sha1(), b.checksum_sha1());
    // Asked twice, the answer is the same.
    assert_eq!(a.checksum_simple(), a.checksum_simple());
    assert_eq!(a.checksum_sha1(), a.checksum_sha1());
}

#[test]
fn secret_params_checksums_notice_a_changed_byte() {
    let a = PlainSecretParams::DSA(vec![0x12, 0x34, 0x56]);
    for position in 0..3 {
        for value in 0..=255u8 {
            let mut field = vec![0x12, 0x34, 0x56];
            if field[position] == value {
                continue;
            }
            // Keep the bit length: the first byte stays in 0x10..0x20.
            if position == 0 && !(0x10..0x20).contains(&value) {
                continue;
            }
            field[position] = value;
            let b = PlainSecretParams::DSA(field);
            assert_ne!(a.checksum_simple(), b.checksum_simple());
            assert_ne!(a.checksum_sha1(), b.checksum_sha1());
        }
    }
}

#[test]
fn secret_params_framed_form_is_id_raw_bytes_and_checksum() {
    let framed = to_bytes(&rsa_example());
    let mut expected = vec![0x00];
    expected.extend_from_slice(&RSA_EXAMPLE_RAW);
    expected.extend_from_slice(&[0x02, 0x01]);
    assert_eq!(framed, expected);
    assert_eq!(to_bytes(&rsa_example().as_ref()), expected);
    assert_eq!(to_bytes(&PlainSecretParams::DSA(vec![0x01])), [0x00, 0x00, 0x01, 0x01, 0x00, 0x02]);
}

#[test]
fn secret_params_framed_checksum_matches_the_raw_part() {
    let mut examples = vec![rsa_example(), PlainSecretParams::ECDSA(vec![0xff; 258])];
    for alg in SINGLE_FIELD {
        examples.push(single(alg, &[0x9c, 0x00, 0x41]));
    }
    for params in examples {
        let framed = to_bytes(&params);
        let (body, trailer) = framed.split_at(framed.len() - 2);
        assert_eq!(body[0], 0);
        let raw = &body[1..];
        assert_eq!(raw, &raw_of(&params)[..]);
        let sum: u32 = raw.iter().map(|b| *b as u32).sum();
        assert_eq!(trailer, ((sum % 65536) as u16).to_be_bytes());
        assert_eq!(trailer, &params.checksum_simple()[..]);
    }
}

#[test]
fn secret_params_framed_form_appends_to_the_writer() {
    let mut out: Vec<u8> = vec![0x99];
    PlainSecretParams::DSA(vec![0x01]).to_writer(&mut out);
    assert_eq!(out, [0x99, 0x00, 0x00, 0x01, 0x01, 0x00, 0x02]);
}

#[test]
fn secret_params_truncated_body_is_incomplete() {
    for alg in RSA_KINDS {
        for keep in 0..RSA_EXAMPLE_RAW.len() {
            let e = failure_of(PlainSecretParams::from_slice(&RSA_EXAMPLE_RAW[..keep], alg));
            assert!(e.is_incomplete(), "with {} bytes: {:?}", keep, e);
        }
    }
    let body = [0x00, 0x21, 0x01, 0x02, 0x03, 0x04, 0x05];
    for alg in SINGLE_FIELD {
        assert!(PlainSecretParams::from_slice(&body, alg).is_ok());
        for keep in 0..body.len() {
            let e = failure_of(PlainSecretParams::from_slice(&body[..keep], alg));
            assert!(e.is_incomplete(), "with {} bytes: {:?}", keep, e);
        }
    }
}

#[test]
fn secret_params_incomplete_says_how_long_the_field_is() {
    let alg = PublicKeyAlgorithm::DSA;
    assert_eq!(failure_of(PlainSecretParams::from_slice(&[], alg)), PgpError::Incomplete(2));
    assert_eq!(failure_of(PlainSecretParams::from_slice(&[0x00], alg)), PgpError::Incomplete(2));
    // 33 bits take five bytes, seven with the prefix.
    assert_eq!(
        failure_of(PlainSecretParams::from_slice(&[0x00, 0x21, 0x01, 0x02], alg)),
        PgpError::Incomplete(7)
    );
    assert_eq!(
        failure_of(PlainSecretParams::from_slice(&[0xff, 0xff], alg)),
        PgpError::Incomplete(8194)
    );
    // The second field of an RSA key is the one that is cut.
    assert_eq!(
        failure_of(PlainSecretParams::from_slice(&RSA_EXAMPLE_RAW[..6], PublicKeyAlgorithm::RSA)),
        PgpError::Incomplete(2)
    );
    assert_eq!(
        failure_of(PlainSecretParams::from_slice(&RSA_EXAMPLE_RAW[..8], PublicKeyAlgorithm::RSA)),
        PgpError::Incomplete(4)
    );
}

#[test]
fn secret_params_ignore_what_follows_the_last_field() {
    let mut body = RSA_EXAMPLE_RAW.to_vec();
    body.extend_from_slice(&[0x02, 0x01, 0xff]);
    assert!(PlainSecretParams::from_slice(&body, PublicKeyAlgorithm::RSA).unwrap()
        == rsa_example());
}

#[test]
fn secret_params_of_other_algorithms_are_unsupported() {
    let others = [
        PublicKeyAlgorithm::ElgamalSign,
        PublicKeyAlgorithm::DiffieHellman,
        PublicKeyAlgorithm::Private100,
        PublicKeyAlgorithm::Private110,
    ];
    for alg in others {
        assert_eq!(
            failure_of(PlainSecretParams::from_slice(&RSA_EXAMPLE_RAW, alg)),
            PgpError::Unsupported(Feature::SecretParams(alg))
        );
        assert_eq!(
            failure_of(PlainSecretParams::from_slice(&[], alg)),
            PgpError::Unsupported(Feature::SecretParams(alg))
        );
    }
}

#[test]
fn secret_params_description_names_the_algorithm_only() {
    assert_eq!(rsa_example().describe(), "PlainSecretParams(RSA)");
    assert_eq!(rsa_example().as_ref().describe(), "PlainSecretParams(RSA)");
    assert_eq!(PlainSecretParams::DSA(vec![0xab]).describe(), "PlainSecretParams(DSA)");
    assert_eq!(PlainSecretParams::ECDSA(vec![0xab]).describe(), "PlainSecretParams(ECDSA)");
    assert_eq!(PlainSecretParams::ECDH(vec![0xab]).describe(), "PlainSecretParams(ECDH)");
    assert_eq!(PlainSecretParams::Elgamal(vec![0xab]).describe(), "PlainSecretParams(Elgamal)");
    assert_eq!(PlainSecretParams::EdDSA(vec![0xab]).describe(), "PlainSecretParams(EdDSA)");
}
