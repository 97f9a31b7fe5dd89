use aes::Aes256;
use block_modes::block_padding::Pkcs7;
use block_modes::{BlockMode, Cbc};
use curve25519_dalek::constants::ED25519_BASEPOINT_POINT;
use curve25519_dalek::montgomery::MontgomeryPoint;
use curve25519_dalek::scalar::Scalar;
use rune::e2ee::{
    decrypt_message_from, encrypt_message_for, encrypt_message_with, open_with_secret,
    seal_with_secret, shared_secret,
};
use rune::error::CryptoError;
use rune::keyring::{Keyring, KeyringEncryptor};
use sha2::Digest;

#[test]
fn message_round_trip_for_several_lengths() {
    let k = Keyring::generate().unwrap();
    for len in [0usize, 1, 15, 16, 1000] {
        let m: Vec<u8> = (0..len).map(|i| (i * 7 % 256) as u8).collect();
        let (ct, eph) = encrypt_message_for(&k.public, &m).unwrap();
        assert_eq!(ct.len(), (len / 16 + 1) * 16);
        assert_eq!(decrypt_message_from(&k.private, &ct, eph).unwrap(), m);
    }
}

#[test]
fn dh_commutes() {
    let s = Keyring::generate().unwrap();
    let e = Keyring::generate().unwrap();
    let a = shared_secret(&e.private, &s.public).unwrap();
    let b = shared_secret(&s.private, &e.public).unwrap();
    assert_eq!(a, b);
    let s2 = Keyring::from_seed([42u8; 32]);
    let e2 = Keyring::from_seed([0xabu8; 32]);
    assert_eq!(
        shared_secret(&e2.private, &s2.public).unwrap(),
        shared_secret(&s2.private, &e2.public).unwrap()
    );
}

#[test]
fn shared_secret_matches_montgomery_multiplication() {
    let s = Keyring::from_seed([42u8; 32]);
    let e = Scalar::from_bytes_mod_order([0xabu8; 32]);
    let s_scalar = Scalar::from_bytes_mod_order(s.private);
    let expected = (ED25519_BASEPOINT_POINT * s_scalar).to_montgomery() * e;
    assert_eq!(
        shared_secret(&e.to_bytes(), &s.public).unwrap(),
        expected.to_bytes()
    );
}

#[test]
fn shared_secret_rejects_an_invalid_point() {
    let bad = invalid_point();
    assert_eq!(
        shared_secret(&[1u8; 32], &bad).unwrap_err(),
        CryptoError::FormatError
    );
    assert_eq!(
        encrypt_message_for(&bad, b"hi").unwrap_err(),
        CryptoError::FormatError
    );
    assert_eq!(
        encrypt_message_with(&bad, b"hi", [1u8; 32]).unwrap_err(),
        CryptoError::FormatError
    );
}

fn invalid_point() -> [u8; 32] {
    let mut bad = [0u8; 32];
    for b in 2u8..=255 {
        bad[0] = b;
        if curve25519_dalek::edwards::CompressedEdwardsY(bad)
            .decompress()
            .is_none()
        {
            return bad;
        }
    }
    panic!("no invalid encoding found");
}

#[test]
fn seal_with_secret_matches_sha256_and_aes_cbc() {
    let shared = [17u8; 32];
    let m = b"attack at dawn";
    let key: [u8; 32] = sha2::Sha256::digest(shared).into();
    let expected = Cbc::<Aes256, Pkcs7>::new_from_slices(&key, &[0u8; 16])
        .unwrap()
        .encrypt_vec(m);
    let ct = seal_with_secret(&shared, m);
    assert_eq!(ct, expected);
    assert_eq!(open_with_secret(&shared, &ct).unwrap(), m.to_vec());
}

#[test]
fn encrypt_message_with_is_deterministic_in_the_seed() {
    let k = Keyring::from_seed([3u8; 32]);
    let (ct1, eph1) = encrypt_message_with(&k.public, b"hello", [8u8; 32]).unwrap();
    let (ct2, eph2) = encrypt_message_with(&k.public, b"hello", [8u8; 32]).unwrap();
    assert_eq!(ct1, ct2);
    assert_eq!(eph1, eph2);
    let e = Scalar::from_bytes_mod_order([8u8; 32]);
    assert_eq!(eph1, MontgomeryPoint::mul_base(&e).to_bytes());
    assert_eq!(decrypt_message_from(&k.private, &ct1, eph1).unwrap(), b"hello");
}

#[test]
fn tampered_ciphertext_does_not_yield_the_message() {
    let k = Keyring::generate().unwrap();
    for m in [&b"hello"[..], &b"sixteen byte msg"[..], &[0u8; 100][..]] {
        let (mut ct, eph) = encrypt_message_for(&k.public, m).unwrap();
        let last = ct.len() - 1;
        ct[last] ^= 0xff;
        match decrypt_message_from(&k.private, &ct, eph) {
            Ok(out) => assert_ne!(out, m),
            Err(e) => assert_eq!(e, CryptoError::DecryptionError),
        }
    }
}

#[test]
fn ciphertext_of_partial_block_is_a_decryption_error() {
    let k = Keyring::from_seed([3u8; 32]);
    let (ct, eph) = encrypt_message_with(&k.public, b"hello", [8u8; 32]).unwrap();
    assert_eq!(
        decrypt_message_from(&k.private, &ct[..15], eph).unwrap_err(),
        CryptoError::DecryptionError
    );
    assert_eq!(
        open_with_secret(&[0u8; 32], &[1u8; 17]).unwrap_err(),
        CryptoError::DecryptionError
    );
}

#[test]
fn wrong_recipient_does_not_read_the_message() {
    let alice = Keyring::generate().unwrap();
    let bob = Keyring::generate().unwrap();
    let (ct, eph) = encrypt_message_for(&alice.public, b"for alice only").unwrap();
    match decrypt_message_from(&bob.private, &ct, eph) {
        Ok(out) => assert_ne!(out, b"for alice only"),
        Err(e) => assert_eq!(e, CryptoError::DecryptionError),
    }
}

#[test]
fn alice_scenario() {
    let _username = "alice";
    let pass = b"correct horse";
    let k = Keyring::generate().unwrap();
    let public_record = k.public;
    let blob = KeyringEncryptor::from(k).encrypt(pass).unwrap();
    let recovered = KeyringEncryptor::decrypt(&blob, pass).unwrap();
    assert_eq!(recovered.public, public_record);
    let (ct, eph) = encrypt_message_for(&public_record, b"hello").unwrap();
    assert_eq!(ct.len(), 16);
    assert_eq!(
        decrypt_message_from(&recovered.private, &ct, eph).unwrap(),
        b"hello".to_vec()
    );
}
