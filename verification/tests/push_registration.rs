use base64::prelude::BASE64_STANDARD;
use base64::Engine;
use p256::elliptic_curve::sec1::ToEncodedPoint;
use sovereign_desktop::navigation::WebUrl;
use sovereign_desktop::push::crypto::PrivateKey;
use sovereign_desktop::push::display::push_notification_content;
use sovereign_desktop::push::keystore::{resolve_stored_key, StoredKey};
use sovereign_desktop::push::registration::{
    cookie_header, public_key_base64, registration_request, registration_request_for_active,
    registration_response, DeviceToken, Platform,
};

#[test]
fn platform_wire_names() {
    assert_eq!(Platform::Macos.as_str(), "macos");
    assert_eq!(Platform::Windows.as_str(), "windows");
}

#[test]
fn device_token_wire_strings() {
    let apns = DeviceToken::apns_from_bytes(&[0x00, 0x0f, 0xa0, 0xff]);
    assert_eq!(apns.as_wire_string(), "000fa0ff");
    let expected: String = [0xdeu8, 0xad, 0xbe, 0xef].iter().map(|b| format!("{b:02x}")).collect();
    assert_eq!(DeviceToken::apns_from_bytes(&[0xde, 0xad, 0xbe, 0xef]).as_wire_string(), expected);
    let wns = DeviceToken::WnsChannelUri("https://wns.example/?token=abc".to_string());
    assert_eq!(wns.as_wire_string(), "https://wns.example/?token=abc");
    assert_eq!(DeviceToken::apns_from_bytes(&[]).as_wire_string(), "");
}

#[test]
fn cookie_header_joins_pairs() {
    assert_eq!(cookie_header(&[]), "");
    assert_eq!(cookie_header(&[("a".to_string(), "1".to_string())]), "a=1");
    assert_eq!(
        cookie_header(&[
            ("session".to_string(), "xyz".to_string()),
            ("theme".to_string(), "dark".to_string()),
            ("n".to_string(), "".to_string()),
        ]),
        "session=xyz; theme=dark; n="
    );
}

#[test]
fn registration_request_carries_everything() {
    let key = PrivateKey::generate();
    let secret = p256::SecretKey::from_slice(&key.to_bytes()).unwrap();
    let expected_public_key =
        BASE64_STANDARD.encode(secret.public_key().to_encoded_point(false).as_bytes());
    assert_eq!(public_key_base64(&key), expected_public_key);

    let instance = WebUrl::parse("https://my.sovereign.example/plugins/console").unwrap();
    let cookies = [("session".to_string(), "s1".to_string())];
    let token = DeviceToken::apns_from_bytes(&[1, 2, 3]);
    let request = registration_request(&instance, &cookies, Platform::Macos, &token, &key).ok().unwrap();
    assert_eq!(
        request.endpoint.as_str(),
        "https://my.sovereign.example/api/account/push-device-token"
    );
    assert_eq!(request.cookie_header, "session=s1");
    assert_eq!(request.platform, "macos");
    assert_eq!(request.device_token, "010203");
    assert_eq!(request.public_key, expected_public_key);
}

#[test]
fn registration_against_a_url_that_cannot_be_a_base_fails() {
    let key = PrivateKey::generate();
    let instance = WebUrl::parse("mailto:someone@example.com").unwrap();
    let token = DeviceToken::WnsChannelUri("uri".to_string());
    match registration_request(&instance, &[], Platform::Windows, &token, &key) {
        Err(message) => assert!(message.starts_with("failed to build registration URL: ")),
        Ok(_) => panic!("expected an error"),
    }
}

#[test]
fn stored_key_round_trip() {
    let generated = match resolve_stored_key(None).ok().unwrap() {
        StoredKey::Generated(key) => key,
        StoredKey::Loaded(_) => panic!("nothing was stored"),
    };
    let stored = generated.to_bytes();
    match resolve_stored_key(Some(&stored)).ok().unwrap() {
        StoredKey::Loaded(key) => assert_eq!(key.to_bytes(), stored),
        StoredKey::Generated(_) => panic!("a key was stored"),
    }
    match resolve_stored_key(Some(&[0u8; 32])) {
        Err(message) => assert_eq!(message, "stored key is corrupt: crypto error"),
        Ok(_) => panic!("an all-zero scalar is not a key"),
    }
}

#[test]
fn push_content_defaults_the_title() {
    let content = push_notification_content(None, None);
    assert_eq!(content.title, "Sovereign");
    assert_eq!(content.body, None);
    let content = push_notification_content(Some("New message"), Some("Hi"));
    assert_eq!(content.title, "New message");
    assert_eq!(content.body.as_deref(), Some("Hi"));
}

#[test]
fn no_active_instance_means_nothing_to_register() {
    let key = PrivateKey::generate();
    let token = DeviceToken::WnsChannelUri("uri".to_string());
    assert!(matches!(
        registration_request_for_active(None, &[], Platform::Windows, &token, &key),
        Ok(None)
    ));
    let instance = WebUrl::parse("https://my.sovereign.example").unwrap();
    let request = registration_request_for_active(Some(&instance), &[], Platform::Windows, &token, &key)
        .ok()
        .unwrap()
        .unwrap();
    assert_eq!(request.device_token, "uri");
    assert_eq!(request.cookie_header, "");
}

#[test]
fn registration_response_by_status() {
    assert!(registration_response(200, "200 OK", "").is_ok());
    assert!(registration_response(204, "204 No Content", "").is_ok());
    assert_eq!(
        registration_response(401, "401 Unauthorized", "no session"),
        Err("registration rejected (401 Unauthorized): no session".to_string())
    );
    assert!(registration_response(302, "302 Found", "").is_err());
    assert!(registration_response(199, "199 <unknown status code>", "").is_err());
}
