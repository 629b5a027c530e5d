//! `biometrics.confirm`: a local presence confirmation only, never a session
//! or platform-auth grant. macOS answers it with Touch ID
//! (`LocalAuthentication`), Windows with Windows Hello
//! (`UserConsentVerifier`); other targets have no OS biometric primitive and
//! answer `unavailable`. This module holds how each OS's outcome maps onto
//! the bridge's `DeviceResult`.

use crate::bridge::{denied, dismissed, failed, ok, unavailable, DeviceResult, DeviceValue};
use crate::encoding::{push_decimal, spec_decimal};
use crate::navigation::TargetOs;
use crate::scripts::{
    capability_entries, lemma_bridge_script_lists_capabilities, spec_advertised_capabilities,
    spec_bridge_script, spec_has_biometrics,
};
use vstd::prelude::*;

verus! {

/// The OS facility that answers `biometrics.confirm` on a build target.
#[derive(Clone, Copy, PartialEq, Eq, Structural, Debug)]
pub enum BiometricBackend {
    /// `LAContext` with `DeviceOwnerAuthenticationWithBiometrics` (macOS).
    LocalAuthentication,
    /// `UserConsentVerifier` (Windows).
    WindowsHello,
    /// No OS biometric primitive: always `unavailable`.
    NotAvailable,
}

pub open spec fn spec_biometric_backend(os: TargetOs) -> BiometricBackend {
    if os == TargetOs::Macos {
        BiometricBackend::LocalAuthentication
    } else if os == TargetOs::Windows {
        BiometricBackend::WindowsHello
    } else {
        BiometricBackend::NotAvailable
    }
}

/// Which facility answers `biometrics.confirm` on `os`.
pub fn biometric_backend(os: TargetOs) -> (res: BiometricBackend)
    ensures
        res == spec_biometric_backend(os),
{
    if os == TargetOs::Macos {
        BiometricBackend::LocalAuthentication
    } else if os == TargetOs::Windows {
        BiometricBackend::WindowsHello
    } else {
        BiometricBackend::NotAvailable
    }
}

/// The answer where no facility can evaluate biometrics (none on the
/// target, or none available on this machine right now).
pub fn biometrics_unavailable() -> (res: DeviceResult)
    ensures
        res matches DeviceResult::Unavailable { capability } && capability@ == "biometrics.confirm"@,
{
    unavailable("biometrics.confirm")
}

/// The kind of answer an `LAError` code maps to.
pub open spec fn spec_la_error_kind(code: int) -> int {
    if code == -2 || code == -3 || code == -4 || code == -9 {
        0  // dismissed: userCancel, userFallback, systemCancel, appCancel

    } else if code == -1 {
        1  // denied: authenticationFailed

    } else if code == -6 || code == -7 || code == -8 {
        2  // unavailable: biometry not available, not enrolled, locked out

    } else {
        3  // failed

    }
}

/// Whether `res` is the answer for the `LAError` code `code`.
pub open spec fn la_error_answer(code: int, res: DeviceResult) -> bool {
    &&& spec_la_error_kind(code) == 0 ==> res is Dismissed
    &&& spec_la_error_kind(code) == 1 ==> res is Denied
    &&& spec_la_error_kind(code) == 2 ==> (res matches DeviceResult::Unavailable { capability }
        && capability@ == "biometrics.confirm"@)
    &&& spec_la_error_kind(code) == 3 ==> (res matches DeviceResult::Failed { error } && error@
        == "LAError code "@ + spec_decimal(code))
}

/// Maps an `LAError` code onto `DeviceResult`: user/system/app cancel and
/// fallback are `dismissed`, a failed authentication is `denied`, biometry
/// not available/enrolled/locked out is `unavailable`, anything else is
/// `failed` with `LAError code {code}`.
pub fn map_la_error(code: isize) -> (res: DeviceResult)
    ensures
        la_error_answer(code as int, res),
{
    if code == -2 || code == -3 || code == -4 || code == -9 {
        dismissed()
    } else if code == -1 {
        denied()
    } else if code == -6 || code == -7 || code == -8 {
        biometrics_unavailable()
    } else {
        let mut message = String::from_str("LAError code ");
        push_decimal(&mut message, code as i64);
        DeviceResult::Failed { error: message }
    }
}

/// The answer to an `evaluatePolicy` reply (`success`, the `NSError` code
/// if any), or to a reply channel that closed without one (`None`).
pub fn la_reply_outcome(reply: Option<(bool, Option<isize>)>) -> (res: DeviceResult)
    ensures
        match reply {
            Some((true, _)) => res == DeviceResult::Success(DeviceValue::Null),
            Some((false, Some(code))) => la_error_answer(code as int, res),
            Some((false, None)) => res matches DeviceResult::Failed { error } && error@
                == "biometric evaluation failed with no error code"@,
            None => res matches DeviceResult::Failed { error } && error@
                == "biometric evaluation reply channel closed unexpectedly"@,
        },
{
    match reply {
        Some((true, _)) => ok(DeviceValue::Null),
        Some((false, Some(code))) => map_la_error(code),
        Some((false, None)) => failed("biometric evaluation failed with no error code"),
        None => failed("biometric evaluation reply channel closed unexpectedly"),
    }
}

/// `Windows.Security.Credentials.UI.UserConsentVerificationResult`.
#[derive(Clone, Copy, PartialEq, Eq, Structural, Debug)]
pub enum ConsentVerificationResult {
    Verified,
    DeviceNotPresent,
    NotConfiguredForUser,
    DisabledByPolicy,
    DeviceBusy,
    RetriesExhausted,
    Canceled,
    /// A value outside the documented ones, by its raw number.
    Unrecognized(i32),
}

/// Maps a Windows Hello verification result onto `DeviceResult`:
/// `Verified` is `ok`, `Canceled` is `dismissed`, a missing, unconfigured
/// or policy-disabled device is `unavailable`, exhausted retries are
/// `denied` (the user tried and failed), a busy device and anything
/// unrecognized are `failed`.
pub fn map_verification_result(result: ConsentVerificationResult) -> (res: DeviceResult)
    ensures
        match result {
            ConsentVerificationResult::Verified => res == DeviceResult::Success(DeviceValue::Null),
            ConsentVerificationResult::Canceled => res is Dismissed,
            ConsentVerificationResult::DeviceNotPresent | ConsentVerificationResult::NotConfiguredForUser
            | ConsentVerificationResult::DisabledByPolicy => res matches DeviceResult::Unavailable {
                capability,
            } && capability@ == "biometrics.confirm"@,
            ConsentVerificationResult::RetriesExhausted => res is Denied,
            ConsentVerificationResult::DeviceBusy => res matches DeviceResult::Failed { error } && error@
                == "Windows Hello device busy"@,
            ConsentVerificationResult::Unrecognized(n) => res matches DeviceResult::Failed { error }
                && error@ == "unrecognized UserConsentVerificationResult: "@ + spec_decimal(n as int),
        },
{
    match result {
        ConsentVerificationResult::Verified => ok(DeviceValue::Null),
        ConsentVerificationResult::Canceled => dismissed(),
        ConsentVerificationResult::DeviceNotPresent
        | ConsentVerificationResult::NotConfiguredForUser
        | ConsentVerificationResult::DisabledByPolicy => biometrics_unavailable(),
        ConsentVerificationResult::RetriesExhausted => denied(),
        ConsentVerificationResult::DeviceBusy => failed("Windows Hello device busy"),
        ConsentVerificationResult::Unrecognized(n) => {
            let mut message = String::from_str("unrecognized UserConsentVerificationResult: ");
            push_decimal(&mut message, n as i64);
            DeviceResult::Failed { error: message }
        },
    }
}

/// The bridge advertises `biometrics.confirm` on exactly the targets that
/// have a facility to answer it.
pub proof fn lemma_advertised_exactly_where_answered(os: TargetOs)
    ensures
        spec_has_biometrics(os) <==> spec_biometric_backend(os) != BiometricBackend::NotAvailable,
{
}

/// The script injected into pages on `os` offers `biometrics.confirm`
/// exactly where a facility answers it (Touch ID on macOS, Windows Hello on
/// Windows): its `capabilities` array lists the names advertised for that
/// same target, and `biometrics.confirm` is among them exactly there.
pub proof fn lemma_bridge_offers_biometrics_exactly_where_answered(version: Seq<char>, os: TargetOs)
    ensures
        spec_advertised_capabilities(os).contains("biometrics.confirm"@) <==> spec_biometric_backend(
            os,
        ) != BiometricBackend::NotAvailable,
        exists|pre: Seq<char>, post: Seq<char>|
            spec_bridge_script(version, os) == pre + "capabilities: ["@ + capability_entries(
                spec_advertised_capabilities(os),
            ) + "], invoke"@ + post,
{
    reveal_strlit("notifications.native");
    reveal_strlit("camera.photo");
    reveal_strlit("biometrics.confirm");
    let names = spec_advertised_capabilities(os);
    if spec_has_biometrics(os) {
        assert(names[2] == "biometrics.confirm"@);
    } else {
        assert("notifications.native"@.len() != "biometrics.confirm"@.len());
        assert("camera.photo"@.len() != "biometrics.confirm"@.len());
        assert(!names.contains("biometrics.confirm"@));
    }
    lemma_bridge_script_lists_capabilities(version, os);
}

} // verus!
