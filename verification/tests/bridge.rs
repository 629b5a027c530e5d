use sovereign_desktop::bridge::{
    biometric_reason, denied, dismissed, failed, image_mime_type, mime_type_for_extension, notification_outcome,
    notification_request, ok, photo_mime_type, photo_result, route_capability, unavailable,
    unsupported_capability, BridgeRoute, DeviceResult, DeviceValue,
};

#[test]
fn mime_type_for_extension_matches_known_image_types() {
    assert_eq!(mime_type_for_extension("photo.png"), Some("image/png"));
    assert_eq!(mime_type_for_extension("photo.jpg"), Some("image/jpeg"));
    assert_eq!(mime_type_for_extension("photo.JPEG"), Some("image/jpeg"));
    assert_eq!(mime_type_for_extension("photo.gif"), Some("image/gif"));
    assert_eq!(mime_type_for_extension("photo.webp"), Some("image/webp"));
}

#[test]
fn mime_type_for_extension_rejects_unknown_or_missing_extension() {
    assert_eq!(mime_type_for_extension("document.pdf"), None);
    assert_eq!(mime_type_for_extension("noextension"), None);
}

#[test]
fn mime_type_reads_only_the_last_extension_of_the_file_name() {
    assert_eq!(mime_type_for_extension("/tmp/dir.png/archive.tar.GIF"), Some("image/gif"));
    assert_eq!(mime_type_for_extension(".png"), None);
    assert_eq!(mime_type_for_extension("/tmp/picture.png"), Some("image/png"));
}

#[test]
fn routes_each_capability() {
    assert_eq!(route_capability("notifications.native"), BridgeRoute::NotificationsNative);
    assert_eq!(route_capability("camera.photo"), BridgeRoute::CameraPhoto);
    assert_eq!(route_capability("biometrics.confirm"), BridgeRoute::BiometricsConfirm);
    assert_eq!(route_capability("haptics.impact"), BridgeRoute::Unsupported);
    assert_eq!(route_capability("Camera.photo"), BridgeRoute::Unsupported);
    match unsupported_capability("haptics.impact") {
        DeviceResult::Unavailable { capability } => assert_eq!(capability, "haptics.impact"),
        _ => panic!("expected unavailable"),
    }
}

#[test]
fn result_constructors() {
    assert!(matches!(ok(DeviceValue::Null), DeviceResult::Success(DeviceValue::Null)));
    assert!(matches!(dismissed(), DeviceResult::Dismissed));
    assert!(matches!(denied(), DeviceResult::Denied));
    match unavailable("camera.photo") {
        DeviceResult::Unavailable { capability } => assert_eq!(capability, "camera.photo"),
        _ => panic!("expected unavailable"),
    }
    match failed("boom") {
        DeviceResult::Failed { error } => assert_eq!(error, "boom"),
        _ => panic!("expected failed"),
    }
}

#[test]
fn biometric_reason_defaults() {
    assert_eq!(biometric_reason(None), "Confirm it's you");
    assert_eq!(biometric_reason(Some("Unlock vault")), "Unlock vault");
}

#[test]
fn notification_needs_a_title() {
    match notification_request(None, Some("body")) {
        Err(DeviceResult::Failed { error }) => assert_eq!(error, "missing required \"title\" field"),
        _ => panic!("expected failed"),
    }
    let request = notification_request(Some("Hello"), None).ok().unwrap();
    assert_eq!(request.title, "Hello");
    assert_eq!(request.body, None);
    let request = notification_request(Some("Hello"), Some("World")).ok().unwrap();
    assert_eq!(request.body.as_deref(), Some("World"));
    assert!(matches!(notification_outcome(None), DeviceResult::Success(DeviceValue::Null)));
    match notification_outcome(Some("no permission")) {
        DeviceResult::Failed { error } => assert_eq!(error, "no permission"),
        _ => panic!("expected failed"),
    }
}

#[test]
fn picked_photo_becomes_a_data_url() {
    match photo_result("image/png", &[0x89, b'P', b'N', b'G']) {
        DeviceResult::Success(DeviceValue::Photo { data_url, mime_type }) => {
            assert_eq!(data_url, "data:image/png;base64,iVBORw==");
            assert_eq!(mime_type, "image/png");
        }
        _ => panic!("expected a photo"),
    }
    assert_eq!(photo_mime_type("a.JPG").ok(), Some("image/jpeg"));
    match photo_mime_type("a.bmp") {
        Err(DeviceResult::Failed { error }) => assert_eq!(error, "unsupported image file type"),
        _ => panic!("expected failed"),
    }
}

#[test]
fn image_mime_type_of_a_lowercase_extension() {
    assert_eq!(image_mime_type("png"), Some("image/png"));
    assert_eq!(image_mime_type("jpg"), Some("image/jpeg"));
    assert_eq!(image_mime_type("jpeg"), Some("image/jpeg"));
    assert_eq!(image_mime_type("gif"), Some("image/gif"));
    assert_eq!(image_mime_type("webp"), Some("image/webp"));
    assert_eq!(image_mime_type("PNG"), None);
    assert_eq!(image_mime_type(""), None);
}
