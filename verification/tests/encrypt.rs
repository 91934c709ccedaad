use cfb_mode::cipher::{AsyncStreamCipher, KeyIvInit};
use pgp::crypto::hash::HashAlgorithm;
use pgp::crypto::sym::SymmetricKeyAlgorithm;
use pgp::errors::{Feature, PgpError};
use pgp::types::packet::KeyVersion;
use pgp::types::params::encrypted_secret::EncryptedSecretParams;
use pgp::types::params::plain_secret::PlainSecretParams;
use pgp::types::s2k::StringToKey;
use rand::rngs::StdRng;
use rand::SeedableRng;

const SALT: [u8; 8] = [1, 2, 3, 4, 5, 6, 7, 8];

/// The key that "password" gives under `iterated_sha1()`, for 16 bytes.
const KEY: [u8; 16] = [
    0x19, 0xfa, 0xdb, 0x83, 0x49, 0x6d, 0x20, 0x1e, 0xb4, 0x8e, 0x03, 0xe4, 0xee, 0x94, 0xef, 0x72,
];

/// The SHA-1 digest of `raw()`.
const DIGEST: [u8; 20] = [
    0x57, 0x5a, 0xa6, 0x6d, 0xac, 0x2c, 0x71, 0xaa, 0x03, 0x4c, 0x70, 0x3f, 0x01, 0xe3, 0x11, 0xf4,
    0x7c, 0xf1, 0x39, 0xfe,
];

fn params() -> PlainSecretParams {
    PlainSecretParams::ECDH((1..=32).collect())
}

/// The raw bytes of `params()`: 249 bits, then the scalar.
fn raw() -> Vec<u8> {
    let mut raw = vec![0x00, 0xf9];
    raw.extend(1..=32u8);
    raw
}

fn payload() -> Vec<u8> {
    let mut payload = raw();
    payload.extend_from_slice(&DIGEST);
    payload
}

fn iterated_sha1() -> StringToKey {
    StringToKey::IteratedAndSalted { hash: HashAlgorithm::SHA1, salt: SALT, count: 96 }
}

fn failure(res: Result<EncryptedSecretParams, PgpError>) -> PgpError {
    match res {
        Ok(enc) => panic!("encrypted to {:?} where an error was due", enc),
        Err(e) => e,
    }
}

fn open_aes128(enc: &EncryptedSecretParams) -> Vec<u8> {
    let mut data = enc.data().to_vec();
    cfb_mode::Decryptor::<aes::Aes128>::new_from_slices(&KEY, enc.iv()).unwrap().decrypt(&mut data);
    data
}

#[test]
fn encrypt_with_iv_gives_the_ciphertext_of_raw_bytes_and_digest() {
    let iv: Vec<u8> = (0xa0..0xb0).collect();
    let enc = params()
        .encrypt_with_iv(
            iv.clone(),
            "password",
            SymmetricKeyAlgorithm::AES128,
            iterated_sha1(),
            KeyVersion::V4,
            254,
        )
        .unwrap();
    let mut expected = payload();
    cfb_mode::Encryptor::<aes::Aes128>::new_from_slices(&KEY, &iv).unwrap().encrypt(&mut expected);
    assert_eq!(enc.data(), &expected[..]);
    assert_ne!(enc.data(), &payload()[..]);
    assert_eq!(enc.data().len(), 34 + 20);
    assert_eq!(open_aes128(&enc), payload());
}

#[test]
fn encrypt_packages_vector_cipher_derivation_and_selector() {
    let iv: Vec<u8> = (0xa0..0xb0).collect();
    let enc = params()
        .encrypt_with_iv(
            iv.clone(),
            "password",
            SymmetricKeyAlgorithm::AES128,
            iterated_sha1(),
            KeyVersion::V4,
            254,
        )
        .unwrap();
    assert_eq!(enc.iv(), &iv[..]);
    assert_eq!(enc.encryption_algorithm(), SymmetricKeyAlgorithm::AES128);
    assert_eq!(enc.string_to_key(), &iterated_sha1());
    assert_eq!(enc.string_to_key_id(), 254);
    let same = EncryptedSecretParams::new(
        enc.data().to_vec(),
        iv,
        SymmetricKeyAlgorithm::AES128,
        iterated_sha1(),
        254,
    );
    assert_eq!(enc, same);
}

#[test]
fn encrypt_is_determined_by_its_arguments() {
    let run = |iv: Vec<u8>, passphrase: &str| {
        params()
            .encrypt_with_iv(
                iv,
                passphrase,
                SymmetricKeyAlgorithm::AES128,
                iterated_sha1(),
                KeyVersion::V4,
                254,
            )
            .unwrap()
    };
    let a = run(vec![7; 16], "password");
    let b = run(vec![7; 16], "password");
    assert_eq!(a, b);
    let other_iv = run(vec![8; 16], "password");
    assert_ne!(a.data(), other_iv.data());
    let other_passphrase = run(vec![7; 16], "Password");
    assert_ne!(a.data(), other_passphrase.data());
}

#[test]
fn encrypt_twice_differs_and_opens_to_the_same_bytes() {
    let mut rng = StdRng::seed_from_u64(0x5eed);
    let mut run = || {
        params()
            .encrypt(
                &mut rng,
                "password",
                SymmetricKeyAlgorithm::AES128,
                iterated_sha1(),
                KeyVersion::V4,
                254,
            )
            .unwrap()
    };
    let first = run();
    let second = run();
    assert_eq!(first.iv().len(), 16);
    assert_eq!(second.iv().len(), 16);
    assert_ne!(first.iv(), second.iv());
    assert_ne!(first.data(), second.data());
    assert_eq!(open_aes128(&first), payload());
    assert_eq!(open_aes128(&second), payload());
    let opened = open_aes128(&first);
    assert_eq!(&opened[..opened.len() - 20], &raw()[..]);
    assert!(PlainSecretParams::from_slice(&opened, pgp::crypto::public_key::PublicKeyAlgorithm::ECDH)
        .unwrap()
        == params());
}

#[test]
fn encrypt_draws_a_vector_as_long_as_the_block() {
    let ciphers = [
        SymmetricKeyAlgorithm::Plaintext,
        SymmetricKeyAlgorithm::TripleDES,
        SymmetricKeyAlgorithm::CAST5,
        SymmetricKeyAlgorithm::Blowfish,
        SymmetricKeyAlgorithm::AES128,
        SymmetricKeyAlgorithm::AES192,
        SymmetricKeyAlgorithm::AES256,
        SymmetricKeyAlgorithm::Twofish,
    ];
    let mut rng = StdRng::seed_from_u64(1);
    for alg in ciphers {
        let enc = params()
            .encrypt(&mut rng, "password", alg, iterated_sha1(), KeyVersion::V4, 254)
            .unwrap();
        assert_eq!(enc.iv().len(), alg.block_size());
        assert_eq!(enc.encryption_algorithm(), alg);
        assert_eq!(enc.data().len(), payload().len());
        // The same vector by hand gives the same ciphertext.
        let by_hand = params()
            .encrypt_with_iv(
                enc.iv().to_vec(),
                "password",
                alg,
                iterated_sha1(),
                KeyVersion::V4,
                254,
            )
            .unwrap();
        assert_eq!(enc, by_hand);
        if alg == SymmetricKeyAlgorithm::Plaintext {
            assert_eq!(enc.data(), &payload()[..]);
        } else {
            assert_ne!(enc.data(), &payload()[..]);
        }
    }
}

#[test]
fn encrypt_for_version_2_is_unsupported() {
    let mut rng = StdRng::seed_from_u64(2);
    assert_eq!(
        failure(params().encrypt(
            &mut rng,
            "password",
            SymmetricKeyAlgorithm::AES128,
            iterated_sha1(),
            KeyVersion::V2,
            254
        )),
        PgpError::Unsupported(Feature::KeyVersion(KeyVersion::V2))
    );
}

#[test]
fn encrypt_for_versions_3_and_5_is_unimplemented() {
    let mut rng = StdRng::seed_from_u64(3);
    for version in [KeyVersion::V3, KeyVersion::V5] {
        assert_eq!(
            failure(params().encrypt(
                &mut rng,
                "password",
                SymmetricKeyAlgorithm::AES128,
                iterated_sha1(),
                version,
                254
            )),
            PgpError::Unimplemented(Feature::KeyVersion(version))
        );
        assert_eq!(
            failure(params().encrypt_with_iv(
                vec![0; 16],
                "password",
                SymmetricKeyAlgorithm::AES128,
                iterated_sha1(),
                version,
                254
            )),
            PgpError::Unimplemented(Feature::KeyVersion(version))
        );
    }
}

#[test]
fn encrypt_with_another_selector_is_unimplemented() {
    let mut rng = StdRng::seed_from_u64(4);
    for id in [0u8, 1, 253, 255] {
        assert_eq!(
            failure(params().encrypt(
                &mut rng,
                "password",
                SymmetricKeyAlgorithm::AES128,
                iterated_sha1(),
                KeyVersion::V4,
                id
            )),
            PgpError::Unimplemented(Feature::StringToKeyId(id))
        );
    }
}

#[test]
fn encrypt_with_a_missing_cipher_is_unimplemented() {
    let mut rng = StdRng::seed_from_u64(5);
    let missing = [
        SymmetricKeyAlgorithm::IDEA,
        SymmetricKeyAlgorithm::Camellia128,
        SymmetricKeyAlgorithm::Camellia192,
        SymmetricKeyAlgorithm::Camellia256,
    ];
    for alg in missing {
        assert_eq!(
            failure(params().encrypt(
                &mut rng,
                "password",
                alg,
                iterated_sha1(),
                KeyVersion::V4,
                254
            )),
            PgpError::Unimplemented(Feature::Cipher(alg))
        );
    }
    assert_eq!(
        failure(params().encrypt(
            &mut rng,
            "password",
            SymmetricKeyAlgorithm::Private10,
            iterated_sha1(),
            KeyVersion::V4,
            254
        )),
        PgpError::Unimplemented(Feature::Cipher(SymmetricKeyAlgorithm::Private10))
    );
}

#[test]
fn encrypt_with_a_vector_of_the_wrong_length_is_refused() {
    for len in [0usize, 8, 15, 17] {
        assert_eq!(
            failure(params().encrypt_with_iv(
                vec![0; len],
                "password",
                SymmetricKeyAlgorithm::AES128,
                iterated_sha1(),
                KeyVersion::V4,
                254
            )),
            PgpError::InvalidKeyIvLength
        );
    }
}

#[test]
fn encrypt_failures_come_in_their_order() {
    let no_hash = StringToKey::Simple { hash: HashAlgorithm::NoHash };
    // The derivation fails before the version is looked at.
    assert_eq!(
        failure(params().encrypt_with_iv(
            vec![],
            "password",
            SymmetricKeyAlgorithm::IDEA,
            no_hash,
            KeyVersion::V2,
            0
        )),
        PgpError::Unimplemented(Feature::Hash(HashAlgorithm::NoHash))
    );
    // The version before the selector.
    assert_eq!(
        failure(params().encrypt_with_iv(
            vec![],
            "password",
            SymmetricKeyAlgorithm::IDEA,
            iterated_sha1(),
            KeyVersion::V3,
            0
        )),
        PgpError::Unimplemented(Feature::KeyVersion(KeyVersion::V3))
    );
    // The selector before the cipher.
    assert_eq!(
        failure(params().encrypt_with_iv(
            vec![],
            "password",
            SymmetricKeyAlgorithm::IDEA,
            iterated_sha1(),
            KeyVersion::V4,
            0
        )),
        PgpError::Unimplemented(Feature::StringToKeyId(0))
    );
    // The cipher before the vector's length.
    assert_eq!(
        failure(params().encrypt_with_iv(
            vec![],
            "password",
            SymmetricKeyAlgorithm::IDEA,
            iterated_sha1(),
            KeyVersion::V4,
            254
        )),
        PgpError::Unimplemented(Feature::Cipher(SymmetricKeyAlgorithm::IDEA))
    );
}

#[test]
fn encrypt_draws_no_vector_when_the_derivation_fails() {
    let mut rng = StdRng::seed_from_u64(6);
    let before = rng.clone();
    let no_hash = StringToKey::Simple { hash: HashAlgorithm::Private10 };
    assert_eq!(
        failure(params().encrypt(
            &mut rng,
            "password",
            SymmetricKeyAlgorithm::AES128,
            no_hash,
            KeyVersion::V4,
            254
        )),
        PgpError::Unimplemented(Feature::Hash(HashAlgorithm::Private10))
    );
    assert_eq!(rng, before);
    // A later failure comes after the vector was drawn.
    assert_eq!(
        failure(params().encrypt(
            &mut rng,
            "password",
            SymmetricKeyAlgorithm::AES128,
            iterated_sha1(),
            KeyVersion::V3,
            254
        )),
        PgpError::Unimplemented(Feature::KeyVersion(KeyVersion::V3))
    );
    assert_ne!(rng, before);
}

#[test]
fn encrypt_without_a_cipher_keeps_the_payload_readable() {
    let mut rng = StdRng::seed_from_u64(7);
    let enc = params()
        .encrypt(
            &mut rng,
            "password",
            SymmetricKeyAlgorithm::Plaintext,
            StringToKey::Simple { hash: HashAlgorithm::NoHash },
            KeyVersion::V4,
            254,
        )
        .unwrap();
    assert!(enc.iv().is_empty());
    assert_eq!(enc.data(), &payload()[..]);
}

#[test]
fn encrypt_rsa_parameters_covers_all_four_fields() {
    let secret = PlainSecretParams::RSA {
        d: vec![0x01, 0x23, 0x45],
        p: vec![0xc1, 0x02],
        q: vec![0x0f],
        u: vec![0x80, 0x00, 0x00, 0x01],
    };
    let digest = secret.checksum_sha1();
    let enc = secret
        .encrypt_with_iv(
            vec![0x33; 16],
            "password",
            SymmetricKeyAlgorithm::AES128,
            iterated_sha1(),
            KeyVersion::V4,
            254,
        )
        .unwrap();
    let opened = open_aes128(&enc);
    let mut expected = vec![
        0x00, 0x11, 0x01, 0x23, 0x45, 0x00, 0x10, 0xc1, 0x02, 0x00, 0x04, 0x0f, 0x00, 0x20, 0x80,
        0x00, 0x00, 0x01,
    ];
    expected.extend_from_slice(&digest);
    assert_eq!(opened, expected);
}
