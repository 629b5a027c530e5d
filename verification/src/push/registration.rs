//! Registration of this device's push encryption public key and native
//! device token with the active instance: `POST
//! /api/account/push-device-token` with the webview's session cookie and a
//! JSON body `{ platform, deviceToken, publicKey }`. This module builds
//! everything the request carries; the caller sends it.

use crate::encoding::{base64_standard_encode, hex_lower, spec_base64_standard_encode, spec_hex_lower};
use crate::navigation::{spec_join_url, UrlView, WebUrl};
use crate::push::crypto::{spec_p256_public_key_sec1, PrivateKey};
use vstd::prelude::*;

verus! {

/// The two platforms desktop push registers for.
#[derive(Clone, Copy, PartialEq, Eq, Structural, Debug)]
pub enum Platform {
    Macos,
    Windows,
}

impl Platform {
    pub open spec fn spec_as_str(self) -> Seq<char> {
        match self {
            Platform::Macos => "macos"@,
            Platform::Windows => "windows"@,
        }
    }

    /// The `platform` value the registration body carries.
    pub fn as_str(&self) -> (res: &'static str)
        ensures
            res@ == self.spec_as_str(),
    {
        match self {
            Platform::Macos => "macos",
            Platform::Windows => "windows",
        }
    }
}

/// The native device token: APNs's raw token, hex-encoded (macOS), or the
/// full WNS channel URI (Windows).
pub enum DeviceToken {
    ApnsHex(String),
    WnsChannelUri(String),
}

impl DeviceToken {
    pub open spec fn spec_wire_string(&self) -> Seq<char> {
        match self {
            DeviceToken::ApnsHex(s) => s@,
            DeviceToken::WnsChannelUri(s) => s@,
        }
    }

    /// The `deviceToken` value the registration body carries.
    pub fn as_wire_string(&self) -> (res: &str)
        ensures
            res@ == self.spec_wire_string(),
    {
        match self {
            DeviceToken::ApnsHex(s) => s.as_str(),
            DeviceToken::WnsChannelUri(s) => s.as_str(),
        }
    }

    /// The APNs token for the raw device-token bytes APNs delivered: two
    /// lowercase hex digits per byte.
    pub fn apns_from_bytes(bytes: &[u8]) -> (res: DeviceToken)
        ensures
            res matches DeviceToken::ApnsHex(s) && s@ == spec_hex_lower(bytes@),
    {
        DeviceToken::ApnsHex(hex_lower(bytes))
    }
}

/// The path the registration is posted to, resolved against the instance.
pub open spec fn spec_registration_path() -> Seq<char> {
    "/api/account/push-device-token"@
}

/// A `Cookie` header's `name=value` entry.
pub open spec fn cookie_pair_text(cookie: (String, String)) -> Seq<char> {
    cookie.0@ + "="@ + cookie.1@
}

/// `name=value` entries joined by `; `.
pub open spec fn spec_cookie_header(cookies: Seq<(String, String)>) -> Seq<char>
    decreases cookies.len(),
{
    if cookies.len() == 0 {
        seq![]
    } else if cookies.len() == 1 {
        cookie_pair_text(cookies[0])
    } else {
        spec_cookie_header(cookies.drop_last()) + "; "@ + cookie_pair_text(cookies.last())
    }
}

/// The `Cookie` header for the session cookies (name, value) of the
/// instance.
pub fn cookie_header(cookies: &[(String, String)]) -> (res: String)
    ensures
        res@ == spec_cookie_header(cookies@),
{
    let mut out = String::new();
    let n = cookies.len();
    for i in 0..n
        invariant
            n == cookies@.len(),
            out@ == spec_cookie_header(cookies@.take(i as int)),
    {
        let pair = &cookies[i];
        assert(cookies@.take(i + 1).drop_last() == cookies@.take(i as int));
        assert(cookies@.take(i + 1).last() == *pair);
        if i > 0 {
            out.append("; ");
        }
        out.append(pair.0.as_str());
        out.append("=");
        out.append(pair.1.as_str());
        proof {
            if i == 0 {
                assert(out@ =~= cookie_pair_text(*pair));
            }
        }
    }
    assert(cookies@.take(n as int) == cookies@);
    out
}

/// Everything the registration request carries.
pub struct RegistrationRequest {
    /// Where it is posted.
    pub endpoint: WebUrl,
    /// The `Cookie` header.
    pub cookie_header: String,
    /// The body's `platform`.
    pub platform: &'static str,
    /// The body's `deviceToken`.
    pub device_token: String,
    /// The body's `publicKey`: base64 of the uncompressed SEC1 public key.
    pub public_key: String,
}

/// The body's `publicKey` for the device's private key.
pub open spec fn spec_public_key_field(private_key: Seq<u8>) -> Seq<char> {
    spec_base64_standard_encode(spec_p256_public_key_sec1(private_key))
}

/// Base64 of the uncompressed SEC1 public key of the device's key.
pub fn public_key_base64(private_key: &PrivateKey) -> (res: String)
    ensures
        res@ == spec_public_key_field(private_key@),
{
    let sec1 = private_key.public_key_sec1();
    base64_standard_encode(&sec1)
}

/// Builds the registration request for the active instance `instance`; it
/// fails only where the endpoint URL cannot be resolved.
pub fn registration_request(
    instance: &WebUrl,
    cookies: &[(String, String)],
    platform: Platform,
    device_token: &DeviceToken,
    private_key: &PrivateKey,
) -> (res: Result<RegistrationRequest, String>)
    ensures
        match spec_join_url(instance@.text, spec_registration_path()) {
            None => res matches Err(message) && message@.len() >= 34 && message@.take(34)
                == "failed to build registration URL: "@,
            Some(endpoint) => res matches Ok(request) && {
                &&& request.endpoint@ == endpoint
                &&& request.cookie_header@ == spec_cookie_header(cookies@)
                &&& request.platform@ == platform.spec_as_str()
                &&& request.device_token@ == device_token.spec_wire_string()
                &&& request.public_key@ == spec_public_key_field(private_key@)
            },
        },
{
    let cookie_header = cookie_header(cookies);
    let public_key = public_key_base64(private_key);
    let endpoint = match instance.join("/api/account/push-device-token") {
        Ok(url) => url,
        Err(e) => {
            let mut message = String::from_str("failed to build registration URL: ");
            proof {
                reveal_strlit("failed to build registration URL: ");
            }
            let detail = crate::navigation::parse_error_text(&e);
            message.append(detail.as_str());
            assert(message@.take(34) =~= "failed to build registration URL: "@);
            return Err(message);
        },
    };
    Ok(RegistrationRequest {
        endpoint,
        cookie_header,
        platform: platform.as_str(),
        device_token: String::from_str(device_token.as_wire_string()),
        public_key,
    })
}

/// The registration request for the active instance, if there is one:
/// with no active instance there is nothing to register against, which is
/// a normal state, not an error (`Ok(None)`).
pub fn registration_request_for_active(
    active_instance: Option<&WebUrl>,
    cookies: &[(String, String)],
    platform: Platform,
    device_token: &DeviceToken,
    private_key: &PrivateKey,
) -> (res: Result<Option<RegistrationRequest>, String>)
    ensures
        match active_instance {
            None => res matches Ok(None),
            Some(instance) => match spec_join_url(instance@.text, spec_registration_path()) {
                None => res matches Err(message) && message@.len() >= 34 && message@.take(34)
                    == "failed to build registration URL: "@,
                Some(endpoint) => res matches Ok(Some(request)) && {
                    &&& request.endpoint@ == endpoint
                    &&& request.cookie_header@ == spec_cookie_header(cookies@)
                    &&& request.platform@ == platform.spec_as_str()
                    &&& request.device_token@ == device_token.spec_wire_string()
                    &&& request.public_key@ == spec_public_key_field(private_key@)
                },
            },
        },
{
    match active_instance {
        None => Ok(None),
        Some(instance) => match registration_request(instance, cookies, platform, device_token, private_key) {
            Ok(request) => Ok(Some(request)),
            Err(message) => Err(message),
        },
    }
}

/// Whether an HTTP status code is a success (2xx).
pub open spec fn status_is_success(status_code: u16) -> bool {
    200 <= status_code <= 299
}

/// The registration's result from the instance's response: success on a
/// 2xx status, otherwise `registration rejected ({status}): {body}` with
/// the status as written (code and reason) and the response body.
pub fn registration_response(status_code: u16, status: &str, body: &str) -> (res: Result<(), String>)
    ensures
        status_is_success(status_code) ==> res is Ok,
        !status_is_success(status_code) ==> (res matches Err(message) && message@
            == "registration rejected ("@ + status@ + "): "@ + body@),
{
    if 200 <= status_code && status_code <= 299 {
        Ok(())
    } else {
        let mut message = String::from_str("registration rejected (");
        message.append(status);
        message.append("): ");
        message.append(body);
        Err(message)
    }
}

} // verus!
