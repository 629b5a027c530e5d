//! The device bridge: the `DeviceResult` union every `sdk.device.*` call
//! answers with, and the decisions behind the single `bridge_invoke`
//! command — which capability a call reaches, what a notification request
//! needs, and what a picked photo becomes.
//!
//! v1 answers `notifications.native`, `camera.photo` (a native file picker,
//! never live capture) and `biometrics.confirm`; every other capability,
//! `haptics.impact` included, is `unavailable`.

use crate::encoding::{
    base64_standard_encode, spec_base64_standard_decode, spec_base64_standard_encode, str_equal,
};
use vstd::prelude::*;

verus! {

/// The `value` of an `ok` result.
#[derive(Debug)]
pub enum DeviceValue {
    /// JSON `null`.
    Null,
    /// `{ dataUrl, mimeType }` of a picked photo.
    Photo { data_url: String, mime_type: String },
}

/// `@sovereignfs/sdk/device-bridge`'s `DeviceResult<T>` union: `ok` with a
/// value, or one of the four non-`ok` variants.
#[derive(Debug)]
pub enum DeviceResult {
    Success(DeviceValue),
    Unavailable { capability: String },
    Dismissed,
    Denied,
    Failed { error: String },
}

/// `{ status: 'ok', value }`.
pub fn ok(value: DeviceValue) -> (res: DeviceResult)
    ensures
        res == DeviceResult::Success(value),
{
    DeviceResult::Success(value)
}

/// `{ status: 'unavailable', capability }`.
pub fn unavailable(capability: &str) -> (res: DeviceResult)
    ensures
        res matches DeviceResult::Unavailable { capability: c } && c@ == capability@,
{
    DeviceResult::Unavailable { capability: String::from_str(capability) }
}

/// `{ status: 'dismissed' }`.
pub fn dismissed() -> (res: DeviceResult)
    ensures
        res is Dismissed,
{
    DeviceResult::Dismissed
}

/// `{ status: 'denied' }`.
pub fn denied() -> (res: DeviceResult)
    ensures
        res is Denied,
{
    DeviceResult::Denied
}

/// `{ status: 'failed', error }`.
pub fn failed(error: &str) -> (res: DeviceResult)
    ensures
        res matches DeviceResult::Failed { error: e } && e@ == error@,
{
    DeviceResult::Failed { error: String::from_str(error) }
}

/// Which handler a `bridge_invoke` call reaches.
#[derive(Clone, Copy, PartialEq, Eq, Structural, Debug)]
pub enum BridgeRoute {
    NotificationsNative,
    CameraPhoto,
    BiometricsConfirm,
    /// Not answered by this shell: the call resolves `unavailable`.
    Unsupported,
}

pub open spec fn spec_route(capability: Seq<char>) -> BridgeRoute {
    if capability == "notifications.native"@ {
        BridgeRoute::NotificationsNative
    } else if capability == "camera.photo"@ {
        BridgeRoute::CameraPhoto
    } else if capability == "biometrics.confirm"@ {
        BridgeRoute::BiometricsConfirm
    } else {
        BridgeRoute::Unsupported
    }
}

/// Dispatches one `sdk.device.*` capability name.
pub fn route_capability(capability: &str) -> (res: BridgeRoute)
    ensures
        res == spec_route(capability@),
{
    if str_equal(capability, "notifications.native") {
        BridgeRoute::NotificationsNative
    } else if str_equal(capability, "camera.photo") {
        BridgeRoute::CameraPhoto
    } else if str_equal(capability, "biometrics.confirm") {
        BridgeRoute::BiometricsConfirm
    } else {
        BridgeRoute::Unsupported
    }
}

/// The answer to a capability this shell does not implement.
pub fn unsupported_capability(capability: &str) -> (res: DeviceResult)
    ensures
        res matches DeviceResult::Unavailable { capability: c } && c@ == capability@,
{
    unavailable(capability)
}

/// The reason shown in the OS biometric prompt: the payload's `reason`
/// string, or `"Confirm it's you"`.
pub fn biometric_reason<'a>(reason: Option<&'a str>) -> (res: &'a str)
    ensures
        match reason {
            Some(r) => res@ == r@,
            None => res@ == "Confirm it's you"@,
        },
{
    match reason {
        Some(r) => r,
        None => "Confirm it's you",
    }
}

/// A native notification to show: a title and an optional body.
#[derive(Debug)]
pub struct NotificationRequest {
    pub title: String,
    pub body: Option<String>,
}

pub open spec fn opt_view(s: Option<String>) -> Option<Seq<char>> {
    match s {
        Some(x) => Some(x@),
        None => None,
    }
}

pub open spec fn opt_str_view(s: Option<&str>) -> Option<Seq<char>> {
    match s {
        Some(x) => Some(x@),
        None => None,
    }
}

fn opt_to_string(s: Option<&str>) -> (res: Option<String>)
    ensures
        opt_view(res) == opt_str_view(s),
{
    match s {
        Some(x) => Some(String::from_str(x)),
        None => None,
    }
}

/// `notifications.native`'s payload `{ title: string, body?: string }`, as
/// the strings found at `title` and `body`: a notification when there is a
/// title, otherwise the `failed` answer.
pub fn notification_request(title: Option<&str>, body: Option<&str>) -> (res: Result<NotificationRequest, DeviceResult>)
    ensures
        match title {
            Some(t) => res matches Ok(n) && n.title@ == t@ && opt_view(n.body) == opt_str_view(body),
            None => res matches Err(DeviceResult::Failed { error }) && error@
                == "missing required \"title\" field"@,
        },
{
    match title {
        Some(t) => Ok(NotificationRequest { title: String::from_str(t), body: opt_to_string(body) }),
        None => Err(failed("missing required \"title\" field")),
    }
}

/// The answer after asking the OS to show a notification: `ok` with `null`,
/// or `failed` with the OS error's text.
pub fn notification_outcome(show_error: Option<&str>) -> (res: DeviceResult)
    ensures
        match show_error {
            None => res == DeviceResult::Success(DeviceValue::Null),
            Some(e) => res matches DeviceResult::Failed { error } && error@ == e@,
        },
{
    match show_error {
        None => ok(DeviceValue::Null),
        Some(e) => failed(e),
    }
}

// ---------------------------------------------------------------------------
// camera.photo
// ---------------------------------------------------------------------------

/// The extension `std::path::Path::extension` finds in `path` (as text), or
/// `None` where the file name has none.
pub uninterp spec fn spec_path_extension(path: Seq<char>) -> Option<Seq<char>>;

/// What `str::to_lowercase` makes of `s`.
pub uninterp spec fn spec_to_lowercase(s: Seq<char>) -> Seq<char>;

/// Calls `std::path::Path::extension` on `path` and reads it as UTF-8.
/// Claims that it yields the named extension.
#[verifier::external_body]
fn path_extension(path: &str) -> (res: Option<&str>)
    ensures
        match res {
            Some(e) => spec_path_extension(path@) == Some(e@),
            None => spec_path_extension(path@) is None,
        },
{
    std::path::Path::new(path).extension()?.to_str()
}

/// Calls `str::to_lowercase`. Claims that it yields the named lowercase text.
#[verifier::external_body]
fn to_lowercase(s: &str) -> (res: String)
    ensures
        res@ == spec_to_lowercase(s@),
{
    s.to_lowercase()
}

/// The MIME type of an image file extension (already lowercased).
pub open spec fn spec_image_mime_type(extension: Seq<char>) -> Option<Seq<char>> {
    if extension == "png"@ {
        Some("image/png"@)
    } else if extension == "jpg"@ || extension == "jpeg"@ {
        Some("image/jpeg"@)
    } else if extension == "gif"@ {
        Some("image/gif"@)
    } else if extension == "webp"@ {
        Some("image/webp"@)
    } else {
        None
    }
}

/// The MIME type for a picked file's path, by its extension compared
/// case-insensitively.
pub open spec fn spec_mime_type_for_path(path: Seq<char>) -> Option<Seq<char>> {
    match spec_path_extension(path) {
        Some(e) => spec_image_mime_type(spec_to_lowercase(e)),
        None => None,
    }
}

/// The image MIME type for a file path's extension (`png`, `jpg`/`jpeg`,
/// `gif`, `webp`, in any case), or `None` for any other or no extension.
pub fn mime_type_for_extension(path: &str) -> (res: Option<&'static str>)
    ensures
        match spec_mime_type_for_path(path@) {
            Some(m) => res matches Some(r) && r@ == m,
            None => res is None,
        },
{
    let extension = match path_extension(path) {
        Some(e) => e,
        None => return None,
    };
    let lower = to_lowercase(extension);
    image_mime_type(lower.as_str())
}

/// The MIME type of an image file extension given in lowercase: `png`,
/// `jpg`/`jpeg`, `gif` or `webp`; `None` for anything else.
pub fn image_mime_type(lowercase_extension: &str) -> (res: Option<&'static str>)
    ensures
        match spec_image_mime_type(lowercase_extension@) {
            Some(m) => res matches Some(r) && r@ == m,
            None => res is None,
        },
{
    let lower = lowercase_extension;
    if str_equal(lower, "png") {
        Some("image/png")
    } else if str_equal(lower, "jpg") || str_equal(lower, "jpeg") {
        Some("image/jpeg")
    } else if str_equal(lower, "gif") {
        Some("image/gif")
    } else if str_equal(lower, "webp") {
        Some("image/webp")
    } else {
        None
    }
}

/// The MIME type of a picked file, or the `failed` answer for a file that
/// is not one of the supported image types.
pub fn photo_mime_type(path: &str) -> (res: Result<&'static str, DeviceResult>)
    ensures
        match spec_mime_type_for_path(path@) {
            Some(m) => res matches Ok(r) && r@ == m,
            None => res matches Err(DeviceResult::Failed { error }) && error@
                == "unsupported image file type"@,
        },
{
    match mime_type_for_extension(path) {
        Some(m) => Ok(m),
        None => Err(failed("unsupported image file type")),
    }
}

/// The `data:` URL of an image: `data:{mime};base64,{base64 of bytes}`.
pub open spec fn spec_data_url(mime_type: Seq<char>, bytes: Seq<u8>) -> Seq<char> {
    "data:"@ + mime_type + ";base64,"@ + spec_base64_standard_encode(bytes)
}

/// The `ok` answer for a picked photo: `{ dataUrl, mimeType }`.
///
/// The whole file travels: what follows `;base64,` in the data URL decodes,
/// with the same base64 engine, to exactly the picked bytes, whatever their
/// length.
pub fn photo_result(mime_type: &str, bytes: &[u8]) -> (res: DeviceResult)
    ensures
        res matches DeviceResult::Success(DeviceValue::Photo { data_url, mime_type: m }) && data_url@
            == spec_data_url(mime_type@, bytes@) && m@ == mime_type@,
        res matches DeviceResult::Success(DeviceValue::Photo { data_url, .. }) && ({
            let head = "data:"@ + mime_type@ + ";base64,"@;
            &&& data_url@.take(head.len() as int) == head
            &&& spec_base64_standard_decode(data_url@.skip(head.len() as int)) == Some(bytes@)
        }),
{
    let mut data_url = String::from_str("data:");
    data_url.append(mime_type);
    data_url.append(";base64,");
    let encoded = base64_standard_encode(bytes);
    data_url.append(encoded.as_str());
    proof {
        let head = "data:"@ + mime_type@ + ";base64,"@;
        assert(data_url@.take(head.len() as int) =~= head);
        assert(data_url@.skip(head.len() as int) =~= encoded@);
    }
    ok(DeviceValue::Photo { data_url, mime_type: String::from_str(mime_type) })
}

} // verus!
