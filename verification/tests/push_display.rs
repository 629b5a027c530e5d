use aes_gcm::aead::rand_core::OsRng;
use aes_gcm::aead::KeyInit;
use aes_gcm::{AeadInPlace, Aes256Gcm, Key, Nonce};
use base64::prelude::BASE64_STANDARD;
use base64::Engine;
use hkdf::Hkdf;
use p256::elliptic_curve::sec1::ToEncodedPoint;
use p256::{PublicKey, SecretKey};
use sha2::Sha256;
use sovereign_desktop::push::crypto::{DecryptError, PrivateKey};
use sovereign_desktop::push::display::{push_notification_for_payload, PushDisplayError};

fn seal(plaintext: &[u8], recipient: &PublicKey) -> String {
    let ephemeral = SecretKey::random(&mut OsRng);
    let shared = p256::ecdh::diffie_hellman(ephemeral.to_nonzero_scalar(), recipient.as_affine());
    let mut key = [0u8; 32];
    Hkdf::<Sha256>::new(None, shared.raw_secret_bytes().as_slice())
        .expand(b"sovereign-push-v1", &mut key)
        .unwrap();
    let iv = [3u8; 12];
    let mut buffer = plaintext.to_vec();
    let tag = Aes256Gcm::new(Key::<Aes256Gcm>::from_slice(&key))
        .encrypt_in_place_detached(Nonce::from_slice(&iv), b"", &mut buffer)
        .unwrap();
    let mut wire = ephemeral.public_key().to_encoded_point(false).as_bytes().to_vec();
    wire.extend_from_slice(&iv);
    wire.extend_from_slice(&tag);
    wire.extend_from_slice(&buffer);
    BASE64_STANDARD.encode(&wire)
}

#[test]
fn shows_title_and_body_of_a_decrypted_payload() {
    let secret = SecretKey::random(&mut OsRng);
    let key = PrivateKey::from_slice(&secret.to_bytes()).unwrap();
    let wire = seal(br#"{"title":"New message","body":"Hi"}"#, &secret.public_key());
    let content = push_notification_for_payload(&wire, &key).unwrap();
    assert_eq!(content.title, "New message");
    assert_eq!(content.body.as_deref(), Some("Hi"));
}

#[test]
fn defaults_the_title_and_ignores_non_string_fields() {
    let secret = SecretKey::random(&mut OsRng);
    let key = PrivateKey::from_slice(&secret.to_bytes()).unwrap();
    let wire = seal(br#"{"title":7,"other":"x"}"#, &secret.public_key());
    let content = push_notification_for_payload(&wire, &key).unwrap();
    assert_eq!(content.title, "Sovereign");
    assert_eq!(content.body, None);
    let wire = seal(br#"[1,2]"#, &secret.public_key());
    assert_eq!(push_notification_for_payload(&wire, &key).unwrap().title, "Sovereign");
}

#[test]
fn refuses_non_json_and_undecryptable_payloads() {
    let secret = SecretKey::random(&mut OsRng);
    let key = PrivateKey::from_slice(&secret.to_bytes()).unwrap();
    let wire = seal(b"not json", &secret.public_key());
    let e = push_notification_for_payload(&wire, &key).unwrap_err();
    assert!(matches!(e, PushDisplayError::NotJson));
    assert_eq!(e.message(), "push payload decrypted but not valid JSON");
    let e = push_notification_for_payload("!!", &key).unwrap_err();
    assert!(matches!(e, PushDisplayError::Decrypt(DecryptError::Base64(_))));
    assert!(e.message().starts_with("failed to decrypt received push payload: base64 decode failed: "));
    let other = PrivateKey::generate();
    let wire = seal(br#"{"title":"x"}"#, &secret.public_key());
    assert!(matches!(
        push_notification_for_payload(&wire, &other),
        Err(PushDisplayError::Decrypt(DecryptError::Aead))
    ));
}
