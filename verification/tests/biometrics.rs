use sovereign_desktop::biometrics::{
    biometric_backend, biometrics_unavailable, la_reply_outcome, map_la_error,
    map_verification_result, BiometricBackend, ConsentVerificationResult,
};
use sovereign_desktop::bridge::{DeviceResult, DeviceValue};
use sovereign_desktop::navigation::TargetOs;

fn failed_text(r: DeviceResult) -> String {
    match r {
        DeviceResult::Failed { error } => error,
        _ => panic!("expected failed"),
    }
}

fn is_unavailable(r: &DeviceResult) -> bool {
    matches!(r, DeviceResult::Unavailable { capability } if capability == "biometrics.confirm")
}

#[test]
fn la_error_codes() {
    for code in [-2isize, -3, -4, -9] {
        assert!(matches!(map_la_error(code), DeviceResult::Dismissed));
    }
    assert!(matches!(map_la_error(-1), DeviceResult::Denied));
    for code in [-6isize, -7, -8] {
        assert!(is_unavailable(&map_la_error(code)));
    }
    assert_eq!(failed_text(map_la_error(-5)), "LAError code -5");
    assert_eq!(failed_text(map_la_error(0)), "LAError code 0");
    assert_eq!(failed_text(map_la_error(-1004)), "LAError code -1004");
    assert_eq!(failed_text(map_la_error(isize::MIN)), format!("LAError code {}", isize::MIN));
}

#[test]
fn la_reply_outcomes() {
    assert!(matches!(la_reply_outcome(Some((true, None))), DeviceResult::Success(DeviceValue::Null)));
    assert!(matches!(la_reply_outcome(Some((true, Some(-2)))), DeviceResult::Success(_)));
    assert!(matches!(la_reply_outcome(Some((false, Some(-2)))), DeviceResult::Dismissed));
    assert_eq!(
        failed_text(la_reply_outcome(Some((false, None)))),
        "biometric evaluation failed with no error code"
    );
    assert_eq!(
        failed_text(la_reply_outcome(None)),
        "biometric evaluation reply channel closed unexpectedly"
    );
}

#[test]
fn windows_hello_results() {
    assert!(matches!(map_verification_result(ConsentVerificationResult::Verified), DeviceResult::Success(DeviceValue::Null)));
    assert!(matches!(map_verification_result(ConsentVerificationResult::Canceled), DeviceResult::Dismissed));
    for r in [ConsentVerificationResult::DeviceNotPresent, ConsentVerificationResult::NotConfiguredForUser, ConsentVerificationResult::DisabledByPolicy] {
        assert!(is_unavailable(&map_verification_result(r)));
    }
    assert!(matches!(map_verification_result(ConsentVerificationResult::RetriesExhausted), DeviceResult::Denied));
    assert_eq!(failed_text(map_verification_result(ConsentVerificationResult::DeviceBusy)), "Windows Hello device busy");
    assert_eq!(
        failed_text(map_verification_result(ConsentVerificationResult::Unrecognized(42))),
        "unrecognized UserConsentVerificationResult: 42"
    );
}

#[test]
fn backends_per_target() {
    assert_eq!(biometric_backend(TargetOs::Macos), BiometricBackend::LocalAuthentication);
    assert_eq!(biometric_backend(TargetOs::Windows), BiometricBackend::WindowsHello);
    assert_eq!(biometric_backend(TargetOs::Linux), BiometricBackend::NotAvailable);
    assert!(is_unavailable(&biometrics_unavailable()));
}
