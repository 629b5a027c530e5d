//! Get-or-create for the push-encryption keypair. Only the private key's
//! secret scalar is persisted (its public key is always derivable from it);
//! the credential store itself (macOS Keychain, Windows Credential Manager)
//! is read and written by the caller, which hands this module what it read.

use crate::push::crypto::{curve_error_text, left_pad_32, spec_p256_secret_key_valid, PrivateKey};
use vstd::prelude::*;

verus! {

/// Where the device's key came from.
pub enum StoredKey {
    /// Read back from the credential store.
    Loaded(PrivateKey),
    /// Freshly generated because the store held none; the caller persists
    /// its bytes.
    Generated(PrivateKey),
}

/// What resolving the store's answer `stored` gives.
pub open spec fn stored_key_outcome(stored: Option<Seq<u8>>, res: Result<StoredKey, String>) -> bool {
    match stored {
        Some(bytes) => if spec_p256_secret_key_valid(bytes) {
            res matches Ok(StoredKey::Loaded(key)) && key@ == left_pad_32(bytes)
        } else {
            res matches Err(message) && message@ == "stored key is corrupt: crypto error"@
        },
        None => res matches Ok(StoredKey::Generated(key)) && key@.len() == 32
            && spec_p256_secret_key_valid(key@),
    }
}

/// Resolves the device keypair from what the credential store returned:
/// the stored scalar when there is one (an error when it is corrupt), a
/// newly generated key otherwise.
pub fn resolve_stored_key(stored: Option<&[u8]>) -> (res: Result<StoredKey, String>)
    ensures
        stored_key_outcome(
            match stored {
                Some(bytes) => Some(bytes@),
                None => None,
            },
            res,
        ),
{
    match stored {
        Some(bytes) => match PrivateKey::from_slice(bytes) {
            Ok(key) => Ok(StoredKey::Loaded(key)),
            Err(e) => {
                let mut message = String::from_str("stored key is corrupt: ");
                let detail = curve_error_text(&e);
                message.append(detail.as_str());
                proof {
                    reveal_strlit("stored key is corrupt: ");
                    reveal_strlit("crypto error");
                    reveal_strlit("stored key is corrupt: crypto error");
                }
                assert(message@ =~= "stored key is corrupt: crypto error"@);
                Err(message)
            },
        },
        None => Ok(StoredKey::Generated(PrivateKey::generate())),
    }
}

/// What is stored is read back: handing back the bytes of a key (which
/// `PrivateKey::to_bytes` gives: 32 valid bytes) resolves to a loaded key
/// with the same scalar.
pub proof fn lemma_stored_key_read_back(stored: Seq<u8>, res: Result<StoredKey, String>)
    requires
        stored.len() == 32,
        spec_p256_secret_key_valid(stored),
        stored_key_outcome(Some(stored), res),
    ensures
        res matches Ok(StoredKey::Loaded(key)) && key@ == stored,
{
    assert(left_pad_32(stored) =~= stored);
}

} // verus!
