use aes_gcm::aead::rand_core::OsRng;
use aes_gcm::aead::KeyInit;
use aes_gcm::{AeadInPlace, Aes256Gcm, Key, Nonce};
use base64::prelude::BASE64_STANDARD;
use base64::Engine;
use hkdf::Hkdf;
use p256::elliptic_curve::sec1::ToEncodedPoint;
use p256::{PublicKey, SecretKey};
use sha2::Sha256;
use sovereign_desktop::push::crypto::{
    ciphertext_then_tag, decrypt, decrypt_wire, open_with_message_key, DecryptError, PrivateKey,
    EPHEMERAL_PUBLIC_KEY_LEN, IV_LEN,
};

const HKDF_INFO: &[u8] = b"sovereign-push-v1";

/// Builds a wire-format payload the way the server does, so the tests
/// exercise the exact framing `decrypt` must parse.
fn encrypt_for_test(plaintext: &[u8], recipient_public_key: &PublicKey) -> String {
    let ephemeral_secret = SecretKey::random(&mut OsRng);
    let ephemeral_public_key_bytes =
        ephemeral_secret.public_key().to_encoded_point(false).as_bytes().to_vec();
    assert_eq!(ephemeral_public_key_bytes.len(), EPHEMERAL_PUBLIC_KEY_LEN);

    let shared_secret = p256::ecdh::diffie_hellman(
        ephemeral_secret.to_nonzero_scalar(),
        recipient_public_key.as_affine(),
    );
    let hkdf = Hkdf::<Sha256>::new(None, shared_secret.raw_secret_bytes().as_slice());
    let mut derived_key = [0u8; 32];
    hkdf.expand(HKDF_INFO, &mut derived_key).unwrap();

    let mut iv = [0u8; IV_LEN];
    aes_gcm::aead::rand_core::RngCore::fill_bytes(&mut OsRng, &mut iv);

    let cipher = Aes256Gcm::new(Key::<Aes256Gcm>::from_slice(&derived_key));
    let mut buffer = plaintext.to_vec();
    let tag = cipher
        .encrypt_in_place_detached(Nonce::from_slice(&iv), b"", &mut buffer)
        .unwrap();

    let mut wire = Vec::new();
    wire.extend_from_slice(&ephemeral_public_key_bytes);
    wire.extend_from_slice(&iv);
    wire.extend_from_slice(&tag);
    wire.extend_from_slice(&buffer);
    BASE64_STANDARD.encode(&wire)
}

fn device_key(secret: &SecretKey) -> PrivateKey {
    PrivateKey::from_slice(&secret.to_bytes()).unwrap()
}

#[test]
fn decrypts_a_payload_encrypted_against_the_recipient_public_key() {
    let recipient_secret = SecretKey::random(&mut OsRng);
    let recipient_public = recipient_secret.public_key();

    let wire = encrypt_for_test(b"{\"title\":\"hi\"}", &recipient_public);
    let plaintext = decrypt(&wire, &device_key(&recipient_secret)).unwrap();

    assert_eq!(plaintext, b"{\"title\":\"hi\"}");
}

#[test]
fn fails_with_the_wrong_private_key() {
    let recipient_secret = SecretKey::random(&mut OsRng);
    let recipient_public = recipient_secret.public_key();
    let wrong_secret = SecretKey::random(&mut OsRng);

    let wire = encrypt_for_test(b"payload", &recipient_public);
    assert!(decrypt(&wire, &device_key(&wrong_secret)).is_err());
}

#[test]
fn fails_on_a_truncated_wire_payload() {
    let recipient_secret = SecretKey::random(&mut OsRng);
    let short = BASE64_STANDARD.encode([0u8; 10]);
    assert!(matches!(
        decrypt(&short, &device_key(&recipient_secret)),
        Err(DecryptError::TooShort)
    ));
}

#[test]
fn fails_on_invalid_base64() {
    let recipient_secret = SecretKey::random(&mut OsRng);
    assert!(matches!(
        decrypt("not valid base64!!", &device_key(&recipient_secret)),
        Err(DecryptError::Base64(_))
    ));
}

#[test]
fn fails_on_tampered_ciphertext() {
    let recipient_secret = SecretKey::random(&mut OsRng);
    let recipient_public = recipient_secret.public_key();
    let wire = encrypt_for_test(b"payload", &recipient_public);

    let mut bytes = BASE64_STANDARD.decode(&wire).unwrap();
    let last = bytes.len() - 1;
    bytes[last] ^= 0xff;
    let tampered = BASE64_STANDARD.encode(&bytes);

    assert!(decrypt(&tampered, &device_key(&recipient_secret)).is_err());
}

#[test]
fn exactly_the_header_decrypts_to_an_empty_plaintext() {
    let recipient_secret = SecretKey::random(&mut OsRng);
    let wire = encrypt_for_test(b"", &recipient_secret.public_key());
    let bytes = BASE64_STANDARD.decode(&wire).unwrap();
    assert_eq!(bytes.len(), 93);
    assert_eq!(decrypt_wire(&bytes, &device_key(&recipient_secret)).unwrap(), b"");
    assert!(matches!(
        decrypt_wire(&bytes[..92], &device_key(&recipient_secret)),
        Err(DecryptError::TooShort)
    ));
}

#[test]
fn an_invalid_ephemeral_point_is_reported() {
    let recipient_secret = SecretKey::random(&mut OsRng);
    let mut bytes = vec![0u8; 120];
    bytes[0] = 4; // uncompressed tag, but (0, 0) is not on the curve
    assert!(matches!(
        decrypt_wire(&bytes, &device_key(&recipient_secret)),
        Err(DecryptError::InvalidEphemeralPublicKey)
    ));
}

#[test]
fn tampered_tag_is_an_aead_error() {
    let recipient_secret = SecretKey::random(&mut OsRng);
    let wire = encrypt_for_test(b"payload", &recipient_secret.public_key());
    let mut bytes = BASE64_STANDARD.decode(&wire).unwrap();
    bytes[80] ^= 0x01; // inside the tag
    assert!(matches!(
        decrypt_wire(&bytes, &device_key(&recipient_secret)),
        Err(DecryptError::Aead)
    ));
}

#[test]
fn tag_is_moved_behind_the_ciphertext() {
    assert_eq!(ciphertext_then_tag(&[1, 2], &[3, 4, 5]), vec![3, 4, 5, 1, 2]);
    assert_eq!(ciphertext_then_tag(&[9], &[]), vec![9]);
}

#[test]
fn open_with_message_key_rejects_garbage() {
    let key = [7u8; 32];
    let iv = [1u8; 12];
    assert!(matches!(
        open_with_message_key(&key, &iv, &[0u8; 16], b"abc"),
        Err(DecryptError::Aead)
    ));
}

#[test]
fn private_key_validation() {
    assert!(PrivateKey::from_slice(&[0u8; 32]).is_err());
    assert!(PrivateKey::from_slice(&[1u8; 10]).is_err());
    assert!(PrivateKey::from_slice(&[0xffu8; 32]).is_err());
    let secret = SecretKey::random(&mut OsRng);
    let key = device_key(&secret);
    assert_eq!(key.to_bytes(), secret.to_bytes().to_vec());
    assert_eq!(
        key.public_key_sec1(),
        secret.public_key().to_encoded_point(false).as_bytes().to_vec()
    );
    let generated = PrivateKey::generate();
    assert_eq!(generated.to_bytes().len(), 32);
    assert!(PrivateKey::from_slice(&generated.to_bytes()).is_ok());
}

#[test]
fn error_messages() {
    assert_eq!(DecryptError::TooShort.message(), "wire payload shorter than the fixed-size header");
    assert_eq!(DecryptError::InvalidEphemeralPublicKey.message(), "invalid ephemeral public key point");
    assert_eq!(DecryptError::Hkdf.message(), "HKDF expansion failed");
    assert_eq!(
        DecryptError::Aead.message(),
        "AES-256-GCM decryption failed (wrong key or tampered data)"
    );
    let key = PrivateKey::generate();
    match decrypt("not valid base64!!", &key) {
        Err(e @ DecryptError::Base64(_)) => {
            assert!(e.message().starts_with("base64 decode failed: Invalid"))
        }
        _ => panic!("expected a base64 error"),
    }
}

#[test]
fn base64_error_message_matches_the_decoder() {
    let key = PrivateKey::generate();
    for input in ["not valid base64!!", "abc", "YQ", "YR==", "Y==="] {
        let expected = BASE64_STANDARD.decode(input).unwrap_err();
        match decrypt(input, &key) {
            Err(e @ DecryptError::Base64(_)) => {
                assert_eq!(e.message(), format!("base64 decode failed: {expected}"))
            }
            _ => panic!("expected a base64 error for {input:?}"),
        }
    }
}

#[test]
fn plaintext_is_the_wire_minus_the_header() {
    let recipient_secret = SecretKey::random(&mut OsRng);
    for plaintext in [&b""[..], b"x", b"{\"title\":\"hi\",\"body\":\"there\"}"] {
        let wire = encrypt_for_test(plaintext, &recipient_secret.public_key());
        let decoded = BASE64_STANDARD.decode(&wire).unwrap();
        let opened = decrypt(&wire, &device_key(&recipient_secret)).unwrap();
        assert_eq!(opened.len() + 93, decoded.len());
        assert_eq!(opened, plaintext);
    }
}

#[test]
fn short_scalars_are_padded_to_32_bytes() {
    let secret = SecretKey::random(&mut OsRng);
    let mut short = secret.to_bytes().to_vec();
    short[0] = 0;
    short[1] = 0;
    let key = PrivateKey::from_slice(&short[2..]).unwrap();
    assert_eq!(key.to_bytes(), short);
    assert_eq!(
        key.to_bytes(),
        SecretKey::from_slice(&short[2..]).unwrap().to_bytes().to_vec()
    );
    assert!(PrivateKey::from_slice(&short[9..]).is_err());
}
