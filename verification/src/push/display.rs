//! What a received push payload is shown as: decrypted with the device's
//! key, read as JSON, and shown with its `title` (default `Sovereign`) and
//! its `body` when present.

use crate::bridge::{opt_str_view, opt_view, NotificationRequest};
use crate::encoding::spec_base64_standard_decode;
use crate::push::crypto::{decrypt, wire_outcome, DecryptError, PrivateKey, WireOutcome};
use vstd::prelude::*;

verus! {

/// What `serde_json::from_slice::<serde_json::Value>` makes of `plaintext`,
/// reduced to the strings at its `title` and `body` keys: `None` where it is
/// not JSON; a key that is absent, or whose value is not a string, reads as
/// `None`.
pub uninterp spec fn spec_json_title_body(plaintext: Seq<u8>) -> Option<(Option<Seq<char>>, Option<Seq<char>>)>;

/// Calls `serde_json::from_slice` into a `serde_json::Value` and reads the
/// `title` and `body` entries with `Value::get` and `Value::as_str`. Claims
/// that it yields the named result.
#[verifier::external_body]
fn json_title_and_body(plaintext: &[u8]) -> (res: Option<(Option<String>, Option<String>)>)
    ensures
        match res {
            None => spec_json_title_body(plaintext@) is None,
            Some((title, body)) => spec_json_title_body(plaintext@) == Some((opt_view(title), opt_view(body))),
        },
{
    let value: serde_json::Value = serde_json::from_slice(plaintext).ok()?;
    let title = value.get("title").and_then(serde_json::Value::as_str).map(str::to_string);
    let body = value.get("body").and_then(serde_json::Value::as_str).map(str::to_string);
    Some((title, body))
}

/// The notification for a decrypted payload's `title` and `body` strings:
/// the title defaults to `Sovereign`, the body is shown when present.
pub fn push_notification_content(title: Option<&str>, body: Option<&str>) -> (res: NotificationRequest)
    ensures
        match title {
            Some(t) => res.title@ == t@,
            None => res.title@ == "Sovereign"@,
        },
        opt_view(res.body) == opt_str_view(body),
{
    let title = match title {
        Some(t) => String::from_str(t),
        None => String::from_str("Sovereign"),
    };
    let body = match body {
        Some(b) => Some(String::from_str(b)),
        None => None,
    };
    NotificationRequest { title, body }
}

/// Why a received payload is not shown.
#[derive(Debug)]
pub enum PushDisplayError {
    /// It does not decrypt with the device's key.
    Decrypt(DecryptError),
    /// Its plaintext is not JSON.
    NotJson,
}

impl PushDisplayError {
    /// The line logged for a payload that is not shown.
    pub fn message(&self) -> (res: String)
        ensures
            match self {
                PushDisplayError::Decrypt(_) => res@.len() >= 41 && res@.take(41)
                    == "failed to decrypt received push payload: "@,
                PushDisplayError::NotJson => res@ == "push payload decrypted but not valid JSON"@,
            },
    {
        match self {
            PushDisplayError::Decrypt(e) => {
                let mut out = String::from_str("failed to decrypt received push payload: ");
                proof {
                    reveal_strlit("failed to decrypt received push payload: ");
                }
                let detail = e.message();
                out.append(detail.as_str());
                assert(out@.take(41) =~= "failed to decrypt received push payload: "@);
                out
            },
            PushDisplayError::NotJson => String::from_str("push payload decrypted but not valid JSON"),
        }
    }
}

/// The plaintext a received payload decrypts to, if it decrypts.
pub open spec fn decrypted_payload(encrypted_payload: Seq<char>, key: Seq<u8>) -> Option<Seq<u8>> {
    match spec_base64_standard_decode(encrypted_payload) {
        Some(wire) => match wire_outcome(wire, key) {
            WireOutcome::Plaintext(p) => Some(p),
            _ => None,
        },
        None => None,
    }
}

/// The title shown for a payload's `title` string.
pub open spec fn shown_title(title: Option<Seq<char>>) -> Seq<char> {
    match title {
        Some(t) => t,
        None => "Sovereign"@,
    }
}

/// Decrypts a received push payload with the device's key and reads it as
/// the notification to show.
pub fn push_notification_for_payload(encrypted_payload: &str, key: &PrivateKey) -> (res: Result<NotificationRequest, PushDisplayError>)
    ensures
        decrypted_payload(encrypted_payload@, key@) is None <==> res is Err && res->Err_0 is Decrypt,
        match decrypted_payload(encrypted_payload@, key@) {
            None => true,
            Some(plaintext) => match spec_json_title_body(plaintext) {
                None => res matches Err(PushDisplayError::NotJson),
                Some((title, body)) => res matches Ok(n) && n.title@ == shown_title(title) && opt_view(n.body)
                    == body,
            },
        },
{
    let plaintext = match decrypt(encrypted_payload, key) {
        Ok(p) => p,
        Err(e) => return Err(PushDisplayError::Decrypt(e)),
    };
    match json_title_and_body(&plaintext) {
        None => Err(PushDisplayError::NotJson),
        Some((title, body)) => {
            let title = match title {
                Some(t) => t,
                None => String::from_str("Sovereign"),
            };
            Ok(NotificationRequest { title, body })
        },
    }
}

} // verus!
